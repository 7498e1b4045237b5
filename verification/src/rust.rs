//! `rust` is the module that generates the Rust code of the bindings.
use crate::configuration::{
    Config, ConfigView, FunctionView, has_list_or_tree, ItemProperty, ItemPropertyView, Object,
    ObjectView, Property, PropertyView, RustEdition, simple_is_complex, simple_rust_type,
    simple_rust_type_init, SimpleType, Type, type_is_complex, type_rust_type, TypeView,
};
use crate::configuration_private::{ConfigPrivate, SimpleTypePrivate, TypePrivate};
use crate::rust::implementation::{
    rust_implementation_object_text, write_rust_implementation_object,
};
use crate::rust::interface::{rust_interface_object_text, write_rust_interface_object};
use crate::rust::templates::{
    BYTES_TYPE, IMPLEMENTATION_OPEN, INTERFACE_OPEN, MODEL_TYPES, OPTION_TYPE, STRING_TYPE,
    TO_C_INT, TO_USIZE,
};
use crate::text::{
    emit, emit2, empty, fill, group_concat, lemma_concat_assoc, lemma_concat_empty_right,
};
use crate::util::{snake_case_ready, snake_ready};
use crate::validity::{config_ok, is_config_ok};
use vstd::prelude::*;
use vstd::string::*;

pub mod constructor;
pub mod function;
pub mod implementation;
pub mod interface;
pub mod templates;

verus! {

/// The type with `Option` around it where `optional` holds.
pub open spec fn optional_type_text(optional: bool, t: Seq<char>) -> Seq<char> {
    if optional {
        "Option<"@ + t + ">"@
    } else {
        t
    }
}

/// The type with `Option` around it where `optional` holds.
fn optional_type(optional: bool, t: &str) -> (r: String)
    ensures
        r@ == optional_type_text(optional, t@),
{
    if optional {
        let mut s = String::from_str("Option<");
        s.append(t);
        s.append(">");
        s
    } else {
        String::from_str(t)
    }
}

/// The Rust type of a property.
pub open spec fn rust_type_text(p: PropertyView) -> Seq<char> {
    optional_type_text(p.optional, type_rust_type(p.property_type))
}

/// The Rust type of a property.
pub fn rust_type(p: &Property) -> (r: String)
    ensures
        r@ == rust_type_text(p@),
{
    optional_type(p.optional, p.property_type.rust_type())
}

/// The Rust type of an item property.
pub open spec fn rust_item_type_text(p: ItemPropertyView) -> Seq<char> {
    optional_type_text(p.optional, simple_rust_type(p.item_property_type))
}

/// The Rust type of an item property.
pub fn rust_type_(p: &ItemProperty) -> (r: String)
    ensures
        r@ == rust_item_type_text(p@),
{
    optional_type(p.optional, p.item_property_type.rust_type())
}

/// The type under which a value of the Rust type `t` is lent out: a
/// slice for text and bytes, behind a reference where `by_reference`
/// holds.
pub open spec fn borrowed_type_text(t: Seq<char>, slice: bool, by_reference: bool) -> Seq<char> {
    let t1 = if t == "String"@ && slice {
        "str"@
    } else {
        t
    };
    let t2 = if t1 == "Vec<u8>"@ && slice {
        "[u8]"@
    } else {
        t1
    };
    if by_reference {
        "&"@ + t2
    } else {
        t2
    }
}

/// The type under which a value of the Rust type `t` is lent out: a
/// slice for text and bytes, behind a reference where `by_reference`
/// holds.
fn borrowed_type(t: &str, slice: bool, by_reference: bool) -> (r: String)
    ensures
        r@ == borrowed_type_text(t@, slice, by_reference),
{
    let mut type_ = t;
    if type_.eq("String") && slice {
        type_ = "str";
    }
    if type_.eq("Vec<u8>") && slice {
        type_ = "[u8]";
    }
    if by_reference {
        let mut s = String::from_str("&");
        s.append(type_);
        s
    } else {
        String::from_str(type_)
    }
}

/// The type that the getter of a property returns.
pub open spec fn rust_return_type_text(p: PropertyView) -> Seq<char> {
    optional_type_text(
        p.optional,
        borrowed_type_text(type_rust_type(p.property_type), true, type_is_complex(p.property_type)),
    )
}

/// The type that the getter of a property returns.
pub fn rust_return_type(p: &Property) -> (r: String)
    ensures
        r@ == rust_return_type_text(p@),
{
    let t = borrowed_type(p.property_type.rust_type(), true, p.property_type.is_complex());
    optional_type(p.optional, t.as_str())
}

/// The type that the getter of an item property returns; where the value
/// is handed out by value, it keeps its own type.
pub open spec fn rust_item_return_type_text(p: ItemPropertyView) -> Seq<char> {
    optional_type_text(
        p.optional,
        borrowed_type_text(
            simple_rust_type(p.item_property_type),
            !p.rust_by_value,
            simple_is_complex(p.item_property_type) && !p.rust_by_value,
        ),
    )
}

/// The type that the getter of an item property returns; where the
/// value is handed out by value, it keeps its own type.
pub fn rust_return_type_(p: &ItemProperty) -> (r: String)
    ensures
        r@ == rust_item_return_type_text(p@),
{
    let t = borrowed_type(
        p.item_property_type.rust_type(),
        !p.rust_by_value,
        p.item_property_type.is_complex() && !p.rust_by_value,
    );
    optional_type(p.optional, t.as_str())
}

/// The type under which the value of an item property crosses the C
/// interface.
pub open spec fn rust_c_type_text(p: ItemPropertyView) -> Seq<char> {
    if p.optional {
        "COption<"@ + simple_rust_type(p.item_property_type) + ">"@
    } else {
        simple_rust_type(p.item_property_type)
    }
}

/// The type under which the value of an item property crosses the C
/// interface.
pub fn rust_c_type(p: &ItemProperty) -> (r: String)
    ensures
        r@ == rust_c_type_text(p@),
{
    if p.optional {
        let mut s = String::from_str("COption<");
        s.append(p.item_property_type.rust_type());
        s.append(">");
        s
    } else {
        String::from_str(p.item_property_type.rust_type())
    }
}

/// The Rust expression of the initial value of a property that is
/// optional or of a primitive type.
pub open spec fn rust_type_init_text(p: PropertyView) -> Seq<char> {
    if p.optional {
        "None"@
    } else {
        match p.property_type {
            TypeView::Simple(s) => simple_rust_type_init(s),
            TypeView::Object(_) => Seq::empty(),
        }
    }
}

/// The Rust expression of the initial value of a property that is
/// optional or of a primitive type.
pub fn rust_type_init(p: &Property) -> (r: &str)
    requires
        p@.optional || p@.property_type is Simple,
    ensures
        r@ == rust_type_init_text(p@),
{
    if p.optional {
        return "None";
    }
    p.property_type.rust_type_init()
}

/// How the generated modules name each other: from the edition of 2018
/// on, modules of the crate are named from its root.
pub open spec fn module_prefix_text(conf: ConfigView) -> Seq<char> {
    match conf.rust_edition {
        RustEdition::Rust2018 => "crate::"@,
        _ => ""@,
    }
}

/// How the generated modules name each other: from the edition of 2018
/// on, modules of the crate are named from its root.
pub fn get_module_prefix(conf: &Config) -> (r: &'static str)
    ensures
        r@ == module_prefix_text(conf@),
{
    match conf.rust_edition {
        RustEdition::Rust2018 => "crate::",
        _ => "",
    }
}

/// Whether one of the first `n` arguments is of the type `t`.
pub open spec fn arguments_use(f: FunctionView, t: SimpleType, n: nat) -> bool
    decreases n,
{
    n > 0 && (arguments_use(f, t, (n - 1) as nat) || f.arguments[n - 1].argument_type == t)
}

/// Whether the object uses the primitive type `t`: as the type of a
/// property or item property, or as what a function takes or returns.
pub open spec fn object_uses(o: ObjectView, t: SimpleType) -> bool {
    ||| exists|i: int|
        0 <= i < o.properties.len() && (#[trigger] o.properties[i]).1.property_type
            == TypeView::Simple(t)
    ||| exists|i: int|
        0 <= i < o.item_properties.len() && (#[trigger] o.item_properties[i]).1.item_property_type
            == t
    ||| exists|i: int|
        0 <= i < o.functions.len() && ((#[trigger] o.functions[i]).1.return_type == t
            || arguments_use(o.functions[i].1, t, o.functions[i].1.arguments.len()))
}

/// Whether a property or item property of the object is optional.
pub open spec fn object_has_option(o: ObjectView) -> bool {
    ||| exists|i: int| 0 <= i < o.properties.len() && (#[trigger] o.properties[i]).1.optional
    ||| exists|i: int|
        0 <= i < o.item_properties.len() && (#[trigger] o.item_properties[i]).1.optional
}

/// Whether one of the objects uses the primitive type `t`.
pub open spec fn uses_type(conf: ConfigView, t: SimpleType) -> bool {
    exists|i: int| 0 <= i < conf.objects.len() && object_uses((#[trigger] conf.objects[i]).1, t)
}

/// Whether one of the objects has an optional property or item property.
pub open spec fn has_option(conf: ConfigView) -> bool {
    exists|i: int| 0 <= i < conf.objects.len() && object_has_option((#[trigger] conf.objects[i]).1)
}

fn property_is(p: &Property, t: SimpleType) -> (r: bool)
    ensures
        r == (p@.property_type == TypeView::Simple(t)),
{
    match &p.property_type {
        Type::Simple(s) => *s == t,
        Type::Object(_) => false,
    }
}

/// Whether the object uses the primitive type `t`: as the type of a
/// property or item property, or as what a function takes or returns.
fn is_object_using(o: &Object, t: SimpleType) -> (r: bool)
    ensures
        r == object_uses(o@, t),
{
    let mut i: usize = 0;
    while i < o.properties.len()
        invariant
            i <= o.properties.len(),
            forall|k: int|
                0 <= k < i ==> (#[trigger] o@.properties[k]).1.property_type != TypeView::Simple(t),
        decreases o.properties.len() - i,
    {
        if property_is(&o.properties[i].1, t) {
            assert(o@.properties[i as int].1.property_type == TypeView::Simple(t));
            return true;
        }
        i = i + 1;
    }
    let mut i: usize = 0;
    while i < o.item_properties.len()
        invariant
            i <= o.item_properties.len(),
            forall|k: int|
                0 <= k < i ==> (#[trigger] o@.item_properties[k]).1.item_property_type != t,
        decreases o.item_properties.len() - i,
    {
        if o.item_properties[i].1.item_property_type == t {
            assert(o@.item_properties[i as int].1.item_property_type == t);
            return true;
        }
        i = i + 1;
    }
    let mut i: usize = 0;
    while i < o.functions.len()
        invariant
            i <= o.functions.len(),
            forall|k: int|
                0 <= k < i ==> !((#[trigger] o@.functions[k]).1.return_type == t || arguments_use(
                    o@.functions[k].1,
                    t,
                    o@.functions[k].1.arguments.len(),
                )),
        decreases o.functions.len() - i,
    {
        let f = &o.functions[i].1;
        let mut found = f.return_type == t;
        let mut k: usize = 0;
        while k < f.arguments.len()
            invariant
                k <= f.arguments.len(),
                found == (f@.return_type == t || arguments_use(f@, t, k as nat)),
            decreases f.arguments.len() - k,
        {
            if f.arguments[k].argument_type == t {
                found = true;
            }
            k = k + 1;
        }
        if found {
            assert(o@.functions[i as int].1 == f@);
            return true;
        }
        i = i + 1;
    }
    false
}

/// Whether a property or item property of the object is optional.
fn is_object_with_option(o: &Object) -> (r: bool)
    ensures
        r == object_has_option(o@),
{
    let mut i: usize = 0;
    while i < o.properties.len()
        invariant
            i <= o.properties.len(),
            forall|k: int| 0 <= k < i ==> !(#[trigger] o@.properties[k]).1.optional,
        decreases o.properties.len() - i,
    {
        if o.properties[i].1.optional {
            assert(o@.properties[i as int].1.optional);
            return true;
        }
        i = i + 1;
    }
    let mut i: usize = 0;
    while i < o.item_properties.len()
        invariant
            i <= o.item_properties.len(),
            forall|k: int| 0 <= k < i ==> !(#[trigger] o@.item_properties[k]).1.optional,
        decreases o.item_properties.len() - i,
    {
        if o.item_properties[i].1.optional {
            assert(o@.item_properties[i as int].1.optional);
            return true;
        }
        i = i + 1;
    }
    false
}

/// Whether one of the objects uses the primitive type `t`.
fn is_using(conf: &Config, t: SimpleType) -> (r: bool)
    ensures
        r == uses_type(conf@, t),
{
    let mut i: usize = 0;
    while i < conf.objects.len()
        invariant
            i <= conf.objects.len(),
            forall|k: int| 0 <= k < i ==> !object_uses((#[trigger] conf@.objects[k]).1, t),
        decreases conf.objects.len() - i,
    {
        if is_object_using(&conf.objects[i].1, t) {
            assert(object_uses(conf@.objects[i as int].1, t));
            return true;
        }
        i = i + 1;
    }
    false
}

/// Whether one of the objects has an optional property or item
/// property.
fn is_with_option(conf: &Config) -> (r: bool)
    ensures
        r == has_option(conf@),
{
    let mut i: usize = 0;
    while i < conf.objects.len()
        invariant
            i <= conf.objects.len(),
            forall|k: int| 0 <= k < i ==> !object_has_option((#[trigger] conf@.objects[k]).1),
        decreases conf.objects.len() - i,
    {
        if is_object_with_option(&conf.objects[i].1) {
            assert(object_has_option(conf@.objects[i as int].1));
            return true;
        }
        i = i + 1;
    }
    false
}

/// The text that is written where `wanted` holds.
pub open spec fn when(wanted: bool, text: Seq<char>) -> Seq<char> {
    if wanted {
        text
    } else {
        empty()
    }
}

/// The types and functions that the Rust interface shares: those of
/// them that the objects need.
pub open spec fn rust_types_text(conf: ConfigView) -> Seq<char> {
    let string = uses_type(conf, SimpleType::QString);
    let bytes = uses_type(conf, SimpleType::QByteArray);
    let model = has_list_or_tree(conf);
    when(has_option(conf) || model, OPTION_TYPE@) + when(string, STRING_TYPE@) + when(
        bytes,
        BYTES_TYPE@,
    ) + when(model, MODEL_TYPES@) + when(string || bytes || model, TO_USIZE@) + when(
        string || bytes || model,
        TO_C_INT@,
    )
}

/// Writes the types and functions that the Rust interface shares: those
/// of them that the objects need.
pub fn write_rust_types(conf: &Config, r: &mut String)
    ensures
        final(r)@ == old(r)@ + rust_types_text(conf@),
{
    broadcast use group_concat;

    let has_option = is_with_option(conf);
    let has_string = is_using(conf, SimpleType::QString);
    let has_byte_array = is_using(conf, SimpleType::QByteArray);
    let has_list_or_tree = conf.has_list_or_tree();
    if has_option || has_list_or_tree {
        emit(r, OPTION_TYPE);
    }
    if has_string {
        emit(r, STRING_TYPE);
    }
    if has_byte_array {
        emit(r, BYTES_TYPE);
    }
    if has_list_or_tree {
        emit(r, MODEL_TYPES);
    }
    if has_string || has_byte_array || has_list_or_tree {
        emit(r, TO_USIZE);
    }
    if has_string || has_byte_array || has_list_or_tree {
        emit(r, TO_C_INT);
    }
}

/// The interfaces of the first `n` objects.
pub open spec fn interface_objects_text(conf: ConfigView, n: nat) -> Seq<char>
    decreases n,
{
    if n == 0 {
        empty()
    } else {
        interface_objects_text(conf, (n - 1) as nat) + rust_interface_object_text(
            conf.objects[n - 1].1,
        )
    }
}

/// The Rust interface for a configuration.
pub open spec fn interface_text(conf: ConfigView) -> Seq<char> {
    fill(INTERFACE_OPEN@, seq![module_prefix_text(conf), conf.rust.implementation_module])
        + rust_types_text(conf) + interface_objects_text(conf, conf.objects.len())
}

/// Writes the interfaces of the objects.
fn write_interface_objects(r: &mut String, conf: &Config)
    requires
        snake_ready(),
    ensures
        final(r)@ == old(r)@ + interface_objects_text(conf@, conf@.objects.len()),
{
    let ghost r0 = r@;
    let mut i: usize = 0;
    proof {
        lemma_concat_empty_right(r0);
    }
    while i < conf.objects.len()
        invariant
            i <= conf.objects.len(),
            snake_ready(),
            r@ == r0 + interface_objects_text(conf@, i as nat),
        decreases conf.objects.len() - i,
    {
        write_rust_interface_object(r, &conf.objects[i].1, conf);
        proof {
            lemma_concat_assoc(
                r0,
                interface_objects_text(conf@, i as nat),
                rust_interface_object_text(conf@.objects[i as int].1),
            );
        }
        i = i + 1;
    }
}

/// Writes the Rust interface: nothing where code cannot be written for
/// the configuration or names cannot be put in snake case.
pub fn write_interface(conf: &Config) -> (r: Option<String>)
    ensures
        r is Some == (config_ok(conf@) && snake_ready()),
        r matches Some(text) ==> text@ == interface_text(conf@),
{
    broadcast use group_concat;

    if !is_config_ok(conf) || !snake_case_ready() {
        return None;
    }
    let mut r = String::new();
    emit2(
        &mut r,
        INTERFACE_OPEN,
        get_module_prefix(conf),
        conf.rust.implementation_module.as_str(),
    );
    write_rust_types(conf, &mut r);
    write_interface_objects(&mut r, conf);
    Some(r)
}

/// The first implementations of the first `n` objects.
pub open spec fn implementation_objects_text(conf: ConfigView, n: nat) -> Seq<char>
    decreases n,
{
    if n == 0 {
        empty()
    } else {
        implementation_objects_text(conf, (n - 1) as nat) + rust_implementation_object_text(
            conf.objects[n - 1].1,
        )
    }
}

/// The first implementation for a configuration.
pub open spec fn implementation_text(conf: ConfigView) -> Seq<char> {
    fill(IMPLEMENTATION_OPEN@, seq![module_prefix_text(conf), conf.rust.interface_module])
        + implementation_objects_text(conf, conf.objects.len())
}

/// Writes the first implementations of the objects.
fn write_implementation_objects(r: &mut String, conf: &Config)
    requires
        snake_ready(),
    ensures
        final(r)@ == old(r)@ + implementation_objects_text(conf@, conf@.objects.len()),
{
    let ghost r0 = r@;
    let mut i: usize = 0;
    proof {
        lemma_concat_empty_right(r0);
    }
    while i < conf.objects.len()
        invariant
            i <= conf.objects.len(),
            snake_ready(),
            r@ == r0 + implementation_objects_text(conf@, i as nat),
        decreases conf.objects.len() - i,
    {
        write_rust_implementation_object(r, &conf.objects[i].1);
        proof {
            lemma_concat_assoc(
                r0,
                implementation_objects_text(conf@, i as nat),
                rust_implementation_object_text(conf@.objects[i as int].1),
            );
        }
        i = i + 1;
    }
}

/// What becomes of the file with the implementation.
pub enum Implementation {
    /// A file is there and is kept as it is.
    Kept,
    /// The file is written with this text.
    Written(String),
}

/// Whether a file with the implementation that is already there is
/// left alone.
pub open spec fn keeps_implementation(conf: ConfigView, exists: bool) -> bool {
    !conf.overwrite_implementation && exists
}

/// Writes the first implementation, unless a file with it `exists` and
/// is not to be overwritten: nothing where it is to be written and code
/// cannot be written for the configuration or names cannot be put in
/// snake case.
pub fn write_implementation(conf: &Config, exists: bool) -> (r: Option<Implementation>)
    ensures
        r is Some == (keeps_implementation(conf@, exists) || (config_ok(conf@) && snake_ready())),
        r matches Some(i) ==> (if keeps_implementation(conf@, exists) {
            i is Kept
        } else {
            i matches Implementation::Written(text) && text@ == implementation_text(conf@)
        }),
{
    broadcast use group_concat;

    if !conf.overwrite_implementation && exists {
        return Some(Implementation::Kept);
    }
    if !is_config_ok(conf) || !snake_case_ready() {
        return None;
    }
    let mut r = String::new();
    emit2(
        &mut r,
        IMPLEMENTATION_OPEN,
        get_module_prefix(conf),
        conf.rust.interface_module.as_str(),
    );
    write_implementation_objects(&mut r, conf);
    Some(Implementation::Written(r))
}

} // verus!
