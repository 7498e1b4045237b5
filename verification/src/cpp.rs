//! `cpp` is the module that generates the C++ code of the bindings.
use crate::configuration::{
    Config, ConfigView, has_list_or_tree, ItemProperty, ItemPropertyView, Object, ObjectType,
    ObjectView, optional_type_names, simple_is_complex, simple_name, type_names,
};
use crate::configuration_private::{
    ConfigPrivate, ItemPropertyPrivate, PropertyPrivate, SimpleTypePrivate, TypeName,
};
use crate::cpp::declarations::{object_c_decl_text, write_object_c_decl};
use crate::cpp::header::{header_object_text, write_header_object};
use crate::cpp::model::{cpp_model_text, write_cpp_model};
use crate::cpp::object::{cpp_object_text, write_cpp_object};
use crate::cpp::templates::{
    BYTES_SET, C_CLOSE, C_OPEN, CHANGED_BODY, CHANGED_OPEN, CLASS_FORWARD, CPP_OPEN, HEADER_CLOSE,
    HEADER_OPEN, INVOKE_METHOD, MODEL_INDEX, NAMESPACE_CLOSE, OPTION_STRUCT, STRING_SET,
};
use crate::names::{has_name, names_view};
use crate::text::{
    chars_of, emit, emit1, emit2, empty, fill, group_concat, lemma_concat_assoc,
    lemma_concat_empty_right, lowercase, uppercase,
};
use crate::util::{after_initial, initial, snake_case_ready, snake_ready, split_initial};
use crate::validity::{config_ok, is_config_ok, items_ok, object_ok, role_known, roles_ok};
use vstd::pervasive::unreached;
use vstd::prelude::*;
use vstd::string::*;

pub mod declarations;
pub mod dispatch;
pub mod header;
pub mod model;
pub mod object;
pub mod templates;

verus! {

/// The C++ type under which an item property is seen: a variant where
/// the value is optional and of a fixed size, else the type itself.
pub open spec fn property_type_text(p: ItemPropertyView) -> Seq<char> {
    if p.optional && !simple_is_complex(p.item_property_type) {
        "QVariant"@
    } else {
        simple_name(p.item_property_type)
    }
}

/// The C++ type under which an item property is seen: a variant where
/// the value is optional and of a fixed size, else the type itself.
pub fn property_type(p: &ItemProperty) -> (r: String)
    ensures
        r@ == property_type_text(p@),
{
    if p.optional && !p.item_property_type.is_complex() {
        return String::from_str("QVariant");
    }
    String::from_str(p.name_of_type())
}

/// The C++ type of the value that the setter of an item property takes.
pub open spec fn setter_type_text(p: ItemPropertyView) -> Seq<char> {
    let r = property_type_text(p);
    if r == "QVariant"@ || simple_is_complex(p.item_property_type) {
        "const "@ + r + "&"@
    } else {
        r
    }
}

/// The C++ type of the value that the setter of an item property takes.
pub fn setter_type(p: &ItemProperty) -> (r: String)
    ensures
        r@ == setter_type_text(p@),
{
    let r = property_type(p);
    if r.as_str().eq("QVariant") || p.is_complex() {
        let mut t = String::from_str("const ");
        t.append(r.as_str());
        t.append("&");
        t
    } else {
        r
    }
}

/// The name with its first character in upper case.
pub open spec fn upper_initial_text(name: Seq<char>) -> Seq<char> {
    uppercase(initial(name)) + after_initial(name)
}

/// The name with its first character in upper case.
pub fn upper_initial(name: &str) -> (r: String)
    ensures
        r@ == upper_initial_text(name@),
{
    let (first, rest) = split_initial(name);
    let mut s = first.to_uppercase();
    s.append(rest);
    s
}

/// The name with its first character in lower case.
pub open spec fn lower_initial_text(name: Seq<char>) -> Seq<char> {
    lowercase(initial(name)) + after_initial(name)
}

/// The name with its first character in lower case.
pub fn lower_initial(name: &str) -> (r: String)
    ensures
        r@ == lower_initial_text(name@),
{
    let (first, rest) = split_initial(name);
    let mut s = first.to_lowercase();
    s.append(rest);
    s
}

/// The part of a property's declaration that names its setter.
pub open spec fn write_property_text(name: Seq<char>) -> Seq<char> {
    "WRITE set"@ + upper_initial_text(name) + " "@
}

/// The part of a property's declaration that names its setter.
pub fn write_property(name: &str) -> (r: String)
    ensures
        r@ == write_property_text(name@),
{
    let mut s = String::from_str("WRITE set");
    s.append(upper_initial(name).as_str());
    s.append(" ");
    s
}

/// The C++ class that the class of the object is derived from.
pub open spec fn base_type_text(o: ObjectView) -> Seq<char> {
    if o.object_type != ObjectType::Object {
        "QAbstractItemModel"@
    } else {
        "QObject"@
    }
}

/// The C++ class that the class of the object is derived from.
pub fn base_type(o: &Object) -> (r: &'static str)
    ensures
        r@ == base_type_text(o@),
{
    match o.object_type {
        ObjectType::Object => "QObject",
        _ => "QAbstractItemModel",
    }
}

/// Whether one of the item properties can be written.
pub open spec fn model_is_writable_spec(o: ObjectView) -> bool {
    exists|i: int| 0 <= i < o.item_properties.len() && (#[trigger] o.item_properties[i]).1.write
}

/// Whether one of the item properties can be written.
pub fn model_is_writable(o: &Object) -> (r: bool)
    ensures
        r == model_is_writable_spec(o@),
{
    let mut write = false;
    let mut i: usize = 0;
    while i < o.item_properties.len()
        invariant
            i <= o.item_properties.len(),
            write == exists|k: int| 0 <= k < i && (#[trigger] o@.item_properties[k]).1.write,
        decreases o.item_properties.len() - i,
    {
        if o.item_properties[i].1.write {
            assert(o@.item_properties[i as int].1.write);
            write = true;
        }
        i = i + 1;
    }
    write
}

/// The roles that an item property lists for a column: none beyond the
/// columns it speaks of.
pub open spec fn roles_at(p: ItemPropertyView, column: int) -> Seq<Seq<char>> {
    if 0 <= column < p.roles.len() {
        p.roles[column]
    } else {
        Seq::empty()
    }
}

/// Whether an item property can be written in the column: in the first
/// column whenever it can be written, in another where it lists a role
/// for it.
pub open spec fn item_writes_column(p: ItemPropertyView, column: int) -> bool {
    p.write && (column == 0 || roles_at(p, column).len() > 0)
}

/// Whether one of the item properties can be written in the column.
pub open spec fn is_column_write_spec(o: ObjectView, column: int) -> bool {
    exists|i: int|
        0 <= i < o.item_properties.len() && item_writes_column(
            (#[trigger] o.item_properties[i]).1,
            column,
        )
}

/// Whether one of the item properties can be written in the column.
pub fn is_column_write(o: &Object, col: usize) -> (r: bool)
    ensures
        r == is_column_write_spec(o@, col as int),
{
    let mut i: usize = 0;
    while i < o.item_properties.len()
        invariant
            i <= o.item_properties.len(),
            forall|k: int|
                0 <= k < i ==> !item_writes_column((#[trigger] o@.item_properties[k]).1, col as int),
        decreases o.item_properties.len() - i,
    {
        let ip = &o.item_properties[i].1;
        if ip.write && (col == 0 || (ip.roles.len() > col && ip.roles[col].len() > 0)) {
            assert(item_writes_column(o@.item_properties[i as int].1, col as int));
            return true;
        }
        i = i + 1;
    }
    false
}

/// The name of a display role in C++; no text for a role that is not
/// known.
pub open spec fn role_name_text(role: Seq<char>) -> Seq<char> {
    if role == "display"@ {
        "DisplayRole"@
    } else if role == "decoration"@ {
        "DecorationRole"@
    } else if role == "edit"@ {
        "EditRole"@
    } else if role == "toolTip"@ {
        "ToolTipRole"@
    } else if role == "statustip"@ {
        "StatusTipRole"@
    } else if role == "whatsthis"@ {
        "WhatsThisRole"@
    } else {
        Seq::empty()
    }
}

/// The name of a display role in C++; no text for a role that is not
/// known.
pub fn role_name(role: &str) -> (r: &'static str)
    requires
        role_known(role@),
    ensures
        r@ == role_name_text(role@),
{
    if role.eq("display") {
        "DisplayRole"
    } else if role.eq("decoration") {
        "DecorationRole"
    } else if role.eq("edit") {
        "EditRole"
    } else if role.eq("toolTip") {
        "ToolTipRole"
    } else if role.eq("statustip") {
        "StatusTipRole"
    } else if role.eq("whatsthis") {
        "WhatsThisRole"
    } else {
        unreached()
    }
}

/// The name of the C++ function that tells of a change of a property.
pub open spec fn changed_f_text(o: ObjectView, p_name: Seq<char>) -> Seq<char> {
    lower_initial_text(o.name) + upper_initial_text(p_name) + "Changed"@
}

/// The name of the C++ function that tells of a change of a property.
pub fn changed_f(o: &Object, p_name: &str) -> (r: String)
    ensures
        r@ == changed_f_text(o@, p_name@),
{
    let mut s = lower_initial(o.name.as_str());
    s.append(upper_initial(p_name).as_str());
    s.append("Changed");
    s
}

/// The text with an underscore in the place of each dot.
pub open spec fn without_dots(s: Seq<char>) -> Seq<char> {
    Seq::new(s.len(), |i: int| if s[i] == '.' { '_' } else { s[i] })
}

/// The text with an underscore in the place of each dot.
fn replace_dots(s: &str) -> (r: String)
    ensures
        r@ == without_dots(s@),
{
    let chars = chars_of(s);
    let mut out = String::new();
    let mut i: usize = 0;
    proof {
        reveal_strlit("_");
    }
    while i < chars.len()
        invariant
            i <= chars.len(),
            chars@ == s@,
            "_"@ == seq!['_'],
            out@ == without_dots(s@.take(i as int)),
        decreases chars.len() - i,
    {
        let ghost before = out@;
        if chars[i] == '.' {
            out.append("_");
        } else {
            out.append(s.substring_char(i, i + 1));
        }
        i = i + 1;
        assert(out@ =~= without_dots(s@.take(i as int)));
    }
    assert(s@.take(chars.len() as int) =~= s@);
    out
}

/// The name that guards the header against being read twice: the name
/// of the file in upper case, with underscores for its dots.
pub open spec fn guard_text(header_file_name: Seq<char>) -> Seq<char> {
    uppercase(without_dots(header_file_name))
}

/// The announcements of the classes of the first `n` objects.
pub open spec fn class_forwards_text(conf: ConfigView, n: nat) -> Seq<char>
    decreases n,
{
    if n == 0 {
        empty()
    } else {
        class_forwards_text(conf, (n - 1) as nat) + fill(CLASS_FORWARD@, seq![conf.objects[n - 1].0])
    }
}

/// The declarations of the classes of the first `n` objects.
pub open spec fn header_objects_text(conf: ConfigView, n: nat) -> Seq<char>
    decreases n,
{
    if n == 0 {
        empty()
    } else {
        header_objects_text(conf, (n - 1) as nat) + header_object_text(conf.objects[n - 1].1, conf)
    }
}

/// The C++ header for a configuration, in a file of the given name.
pub open spec fn header_text(conf: ConfigView, header_file_name: Seq<char>) -> Seq<char> {
    fill(HEADER_OPEN@, seq![guard_text(header_file_name)]) + class_forwards_text(
        conf,
        conf.objects.len(),
    ) + header_objects_text(conf, conf.objects.len()) + fill(
        HEADER_CLOSE@,
        seq![guard_text(header_file_name)],
    )
}

/// Writes the announcements of the classes of the objects.
fn write_class_forwards(h: &mut String, conf: &Config)
    ensures
        final(h)@ == old(h)@ + class_forwards_text(conf@, conf@.objects.len()),
{
    broadcast use group_concat;

    let ghost h0 = h@;
    let mut i: usize = 0;
    while i < conf.objects.len()
        invariant
            i <= conf.objects.len(),
            h@ == h0 + class_forwards_text(conf@, i as nat),
        decreases conf.objects.len() - i,
    {
        emit1(h, CLASS_FORWARD, conf.objects[i].0.as_str());
        i = i + 1;
    }
}

/// Writes the declarations of the classes of the objects.
fn write_header_objects(h: &mut String, conf: &Config)
    ensures
        final(h)@ == old(h)@ + header_objects_text(conf@, conf@.objects.len()),
{
    let ghost h0 = h@;
    let mut i: usize = 0;
    proof {
        lemma_concat_empty_right(h0);
    }
    while i < conf.objects.len()
        invariant
            i <= conf.objects.len(),
            h@ == h0 + header_objects_text(conf@, i as nat),
        decreases conf.objects.len() - i,
    {
        write_header_object(h, &conf.objects[i].1, conf);
        proof {
            lemma_concat_assoc(
                h0,
                header_objects_text(conf@, i as nat),
                header_object_text(conf@.objects[i as int].1, conf@),
            );
        }
        i = i + 1;
    }
}

/// Writes the C++ header, which goes to a file of the given name:
/// nothing where code cannot be written for the configuration.
pub fn write_header(conf: &Config, header_file_name: &str) -> (r: Option<String>)
    ensures
        r is Some == config_ok(conf@),
        r matches Some(h) ==> h@ == header_text(conf@, header_file_name@),
{
    broadcast use group_concat;

    if !is_config_ok(conf) {
        return None;
    }
    let guard = replace_dots(header_file_name).as_str().to_uppercase();
    let mut h = String::new();
    emit1(&mut h, HEADER_OPEN, guard.as_str());
    write_class_forwards(&mut h, conf);
    write_header_objects(&mut h, conf);
    emit1(&mut h, HEADER_CLOSE, guard.as_str());
    Some(h)
}

/// The structures for the first `n` of the optional types; text and
/// bytes need none.
pub open spec fn option_structs_text(names: Seq<Seq<char>>, n: nat) -> Seq<char>
    decreases n,
{
    if n == 0 {
        empty()
    } else {
        option_structs_text(names, (n - 1) as nat) + (if names[n - 1] != "QString"@ && names[n - 1]
            != "QByteArray"@ {
            fill(OPTION_STRUCT@, seq![names[n - 1]])
        } else {
            empty()
        })
    }
}

/// The types and functions that the C++ code shares.
pub open spec fn shared_types_text(conf: ConfigView) -> Seq<char> {
    let optional = optional_type_names(conf.objects, conf.objects.len());
    let types = type_names(conf.objects, conf.objects.len());
    option_structs_text(optional, optional.len()) + (if types.contains("QString"@) {
        STRING_SET@
    } else {
        empty()
    }) + (if types.contains("QByteArray"@) {
        BYTES_SET@
    } else {
        empty()
    }) + (if has_list_or_tree(conf) {
        MODEL_INDEX@
    } else {
        empty()
    })
}

/// Writes the types and functions that the C++ code shares.
fn write_shared_types(w: &mut String, conf: &Config)
    ensures
        final(w)@ == old(w)@ + shared_types_text(conf@),
{
    broadcast use group_concat;

    let optional = conf.optional_types();
    let ghost w0 = w@;
    let mut i: usize = 0;
    while i < optional.len()
        invariant
            i <= optional.len(),
            w@ == w0 + option_structs_text(names_view(optional@), i as nat),
        decreases optional.len() - i,
    {
        let option = optional[i].as_str();
        if !option.eq("QString") && !option.eq("QByteArray") {
            emit1(w, OPTION_STRUCT, option);
        }
        i = i + 1;
    }
    let types = conf.types();
    if has_name(&types, "QString") {
        emit(w, STRING_SET);
    }
    if has_name(&types, "QByteArray") {
        emit(w, BYTES_SET);
    }
    if conf.has_list_or_tree() {
        emit(w, MODEL_INDEX);
    }
}

/// The functions that tell of a change of one of the first `n`
/// properties of an object; an object among them has its own.
pub open spec fn changed_functions_text(name: Seq<char>, o: ObjectView, n: nat) -> Seq<char>
    decreases n,
{
    if n == 0 {
        empty()
    } else {
        let p = o.properties[n - 1];
        changed_functions_text(name, o, (n - 1) as nat) + (if p.1.property_type is Object {
            empty()
        } else {
            fill(CHANGED_OPEN@, seq![changed_f_text(o, p.0), name]) + fill(CHANGED_BODY@, seq![p.0])
        })
    }
}

/// The functions that tell of changes, for the first `n` objects.
pub open spec fn objects_changed_functions_text(conf: ConfigView, n: nat) -> Seq<char>
    decreases n,
{
    if n == 0 {
        empty()
    } else {
        objects_changed_functions_text(conf, (n - 1) as nat) + changed_functions_text(
            conf.objects[n - 1].0,
            conf.objects[n - 1].1,
            conf.objects[n - 1].1.properties.len(),
        )
    }
}

/// Writes the functions that tell of a change of one of the properties
/// of an object; an object among them has its own.
fn write_changed_functions(w: &mut String, name: &str, o: &Object)
    ensures
        final(w)@ == old(w)@ + changed_functions_text(name@, o@, o@.properties.len()),
{
    broadcast use group_concat;

    let ghost w0 = w@;
    let mut i: usize = 0;
    while i < o.properties.len()
        invariant
            i <= o.properties.len(),
            w@ == w0 + changed_functions_text(name@, o@, i as nat),
        decreases o.properties.len() - i,
    {
        let p_name = o.properties[i].0.as_str();
        if !o.properties[i].1.is_object() {
            emit2(w, CHANGED_OPEN, changed_f(o, p_name).as_str(), name);
            emit1(w, CHANGED_BODY, p_name);
        }
        i = i + 1;
    }
}

/// Writes the functions that tell of changes, for the objects.
fn write_objects_changed_functions(w: &mut String, conf: &Config)
    ensures
        final(w)@ == old(w)@ + objects_changed_functions_text(conf@, conf@.objects.len()),
{
    broadcast use group_concat;

    let ghost w0 = w@;
    let mut i: usize = 0;
    while i < conf.objects.len()
        invariant
            i <= conf.objects.len(),
            w@ == w0 + objects_changed_functions_text(conf@, i as nat),
        decreases conf.objects.len() - i,
    {
        write_changed_functions(w, conf.objects[i].0.as_str(), &conf.objects[i].1);
        i = i + 1;
    }
}

/// The C interface of one object: the item model where it is a list or
/// a tree, and the declarations of its C functions.
pub open spec fn object_interface_text(o: ObjectView) -> Seq<char> {
    (if o.object_type != ObjectType::Object {
        cpp_model_text(o)
    } else {
        empty()
    }) + C_OPEN@ + object_c_decl_text(o) + C_CLOSE@
}

/// The C interfaces of the first `n` objects.
pub open spec fn object_interfaces_text(conf: ConfigView, n: nat) -> Seq<char>
    decreases n,
{
    if n == 0 {
        empty()
    } else {
        object_interfaces_text(conf, (n - 1) as nat) + object_interface_text(conf.objects[n - 1].1)
    }
}

/// The definitions of the classes of the first `n` objects.
pub open spec fn cpp_objects_text(conf: ConfigView, n: nat) -> Seq<char>
    decreases n,
{
    if n == 0 {
        empty()
    } else {
        cpp_objects_text(conf, (n - 1) as nat) + cpp_object_text(conf.objects[n - 1].1)
    }
}

/// The C++ source for a configuration; its header is in a file of the
/// given name.
pub open spec fn cpp_text(conf: ConfigView, header_file_name: Seq<char>) -> Seq<char> {
    fill(CPP_OPEN@, seq![header_file_name]) + shared_types_text(conf)
        + objects_changed_functions_text(conf, conf.objects.len()) + NAMESPACE_CLOSE@
        + object_interfaces_text(conf, conf.objects.len()) + cpp_objects_text(
        conf,
        conf.objects.len(),
    ) + INVOKE_METHOD@
}

/// Writes the C interface of one object: the item model where it is a
/// list or a tree, and the declarations of its C functions.
fn write_object_interface(w: &mut String, o: &Object, conf: &Config)
    requires
        snake_ready(),
        object_ok(o@),
    ensures
        final(w)@ == old(w)@ + object_interface_text(o@),
{
    broadcast use group_concat;

    if o.object_type != ObjectType::Object {
        assert(roles_ok(o@.item_properties, o@.item_properties.len())) by {
            assert(items_ok(o@.item_properties, o@.item_properties.len()));
        }
        write_cpp_model(w, o);
    }
    emit(w, C_OPEN);
    write_object_c_decl(w, o, conf);
    emit(w, C_CLOSE);
}

/// Writes the C interfaces of the objects.
fn write_object_interfaces(w: &mut String, conf: &Config)
    requires
        snake_ready(),
        config_ok(conf@),
    ensures
        final(w)@ == old(w)@ + object_interfaces_text(conf@, conf@.objects.len()),
{
    let ghost w0 = w@;
    let mut i: usize = 0;
    proof {
        lemma_concat_empty_right(w0);
    }
    while i < conf.objects.len()
        invariant
            i <= conf.objects.len(),
            snake_ready(),
            config_ok(conf@),
            w@ == w0 + object_interfaces_text(conf@, i as nat),
        decreases conf.objects.len() - i,
    {
        assert(object_ok(conf@.objects[i as int].1));
        write_object_interface(w, &conf.objects[i].1, conf);
        proof {
            lemma_concat_assoc(
                w0,
                object_interfaces_text(conf@, i as nat),
                object_interface_text(conf@.objects[i as int].1),
            );
        }
        i = i + 1;
    }
}

/// Writes the definitions of the classes of the objects.
fn write_cpp_objects(w: &mut String, conf: &Config)
    requires
        snake_ready(),
    ensures
        final(w)@ == old(w)@ + cpp_objects_text(conf@, conf@.objects.len()),
{
    let ghost w0 = w@;
    let mut i: usize = 0;
    proof {
        lemma_concat_empty_right(w0);
    }
    while i < conf.objects.len()
        invariant
            i <= conf.objects.len(),
            snake_ready(),
            w@ == w0 + cpp_objects_text(conf@, i as nat),
        decreases conf.objects.len() - i,
    {
        write_cpp_object(w, &conf.objects[i].1, conf);
        proof {
            lemma_concat_assoc(
                w0,
                cpp_objects_text(conf@, i as nat),
                cpp_object_text(conf@.objects[i as int].1),
            );
        }
        i = i + 1;
    }
}

/// Writes the C++ source, whose header is in a file of the given name:
/// nothing where code cannot be written for the configuration or names
/// cannot be put in snake case.
pub fn write_cpp(conf: &Config, header_file_name: &str) -> (r: Option<String>)
    ensures
        r is Some == (config_ok(conf@) && snake_ready()),
        r matches Some(w) ==> w@ == cpp_text(conf@, header_file_name@),
{
    broadcast use group_concat;

    if !is_config_ok(conf) || !snake_case_ready() {
        return None;
    }
    let mut w = String::new();
    emit1(&mut w, CPP_OPEN, header_file_name);
    write_shared_types(&mut w, conf);
    write_objects_changed_functions(&mut w, conf);
    emit(&mut w, NAMESPACE_CLOSE);
    write_object_interfaces(&mut w, conf);
    write_cpp_objects(&mut w, conf);
    emit(&mut w, INVOKE_METHOD);
    Some(w)
}

} // verus!
