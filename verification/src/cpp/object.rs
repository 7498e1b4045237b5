//! The definitions of the C++ classes: constructors, destructor, and the
//! accessors and functions that call into the C interface.
use crate::configuration::{
    column_count, Config, Function, FunctionView, ItemProperty, Object, ObjectType, ObjectView,
    Property, PropertyView, simple_name, Type, type_cpp_set_type, type_is_complex, type_name_text,
    TypeView,
};
use crate::configuration_private::{
    ObjectPrivate, PropertyPrivate, SimpleTypePrivate, TypeName, TypePrivate,
};
use crate::cpp::{
    base_type, base_type_text, changed_f, changed_f_text, roles_at, upper_initial,
    upper_initial_text,
};
use crate::cpp::declarations::{base_name, base_name_text};
use crate::cpp::header::{parameters_text, write_parameters};
use crate::cpp::templates::{
    ARGUMENT_BYTES, ARGUMENT_CHANGED, ARGUMENT_OBJECT, ARGUMENT_STRING, ARGUMENT_VALUE, BLOCK_CLOSE,
    CONNECT_MODEL, CONNECT_PATH, CONSTRUCTOR_OWNED, CONSTRUCTOR_UNOWNED, DESTRUCTOR,
    FUNCTION_BODY_OPEN, FUNCTION_OPEN, HEADER_DATA, INIT_HEADER_DATA_CALL, INIT_HEADER_DATA_OPEN,
    LIST_CALLBACKS, MEMBER_INIT, MEMBER_PREFIX, MEMBER_ZERO, MEMBERS_OWNED, MEMBERS_UNOWNED,
    NEW_CALL, PROPERTY_COMPLEX, PROPERTY_OBJECT, PROPERTY_OPTIONAL, PROPERTY_VALUE, RETURN_BYTES,
    RETURN_STRING, RETURN_VALUE, SETTER_BYTES, SETTER_ELSE, SETTER_END_IF, SETTER_IF_NULL,
    SETTER_IF_NULL_OR_WRONG, SETTER_NONE, SETTER_OPEN, SETTER_OPTIONAL_VALUE, SETTER_PLAIN_BYTES,
    SETTER_PLAIN_STRING, SETTER_STRING, SETTER_VALUE, TREE_CALLBACKS,
};
use crate::text::{
    decimal, decimal_string, emit, emit1, emit2, emit3, emit4, emit5, empty, fill, group_concat,
    lowercase,
};
use crate::util::{snake_case, snake_case_text, snake_ready};
use vstd::prelude::*;
use vstd::string::*;

verus! {

/// The members for the objects among the first `n` properties, each
/// made without a private part of its own.
pub open spec fn initialize_members_zero_text(o: ObjectView, n: nat) -> Seq<char>
    decreases n,
{
    if n == 0 {
        empty()
    } else {
        let p = o.properties[n - 1];
        initialize_members_zero_text(o, (n - 1) as nat) + (if p.1.property_type is Object {
            fill(MEMBER_ZERO@, seq![p.0, type_name_text(p.1.property_type)])
        } else {
            empty()
        })
    }
}

/// Writes the members for the objects among the properties, each made
/// without a private part of its own.
pub fn initialize_members_zero(w: &mut String, o: &Object)
    ensures
        final(w)@ == old(w)@ + initialize_members_zero_text(o@, o@.properties.len()),
{
    broadcast use group_concat;

    let ghost w0 = w@;
    let mut i: usize = 0;
    while i < o.properties.len()
        invariant
            i <= o.properties.len(),
            w@ == w0 + initialize_members_zero_text(o@, i as nat),
        decreases o.properties.len() - i,
    {
        let p = &o.properties[i].1;
        if p.is_object() {
            emit2(w, MEMBER_ZERO, o.properties[i].0.as_str(), p.name_of_type());
        }
        i = i + 1;
    }
}

/// The statements that hand each object among the properties of `o` its
/// private part, and so on for the objects inside these; `prefix` leads
/// from the class that is constructed to `o`.
pub open spec fn initialize_members_text(prefix: Seq<char>, o: ObjectView) -> Seq<char>
    decreases o,
{
    initialize_members_first_text(prefix, o, o.properties.len())
}

/// The statements for the first `n` properties.
pub open spec fn initialize_members_first_text(
    prefix: Seq<char>,
    o: ObjectView,
    n: nat,
) -> Seq<char>
    decreases o, n,
{
    if n == 0 || n > o.properties.len() {
        empty()
    } else {
        let name = o.properties[n - 1].0;
        initialize_members_first_text(prefix, o, (n - 1) as nat) + (
        match o.properties[n - 1].1.property_type {
            TypeView::Object(object) => fill(
                MEMBER_INIT@,
                seq![prefix, name, snake_case_text(o.name), snake_case_text(name)],
            ) + initialize_members_text(fill(MEMBER_PREFIX@, seq![name]), *object),
            TypeView::Simple(_) => empty(),
        })
    }
}

/// Writes the statements that hand each object among the properties of
/// `o` its private part, and so on for the objects inside these;
/// `prefix` leads from the class that is constructed to `o`.
pub fn initialize_members(w: &mut String, prefix: &str, o: &Object, conf: &Config)
    requires
        snake_ready(),
    ensures
        final(w)@ == old(w)@ + initialize_members_text(prefix@, o@),
    decreases o,
{
    broadcast use group_concat;

    let ghost w0 = w@;
    let mut i: usize = 0;
    while i < o.properties.len()
        invariant
            i <= o.properties.len(),
            snake_ready(),
            w@ == w0 + initialize_members_first_text(prefix@, o@, i as nat),
        decreases o.properties.len() - i,
    {
        let name = o.properties[i].0.as_str();
        match &o.properties[i].1.property_type {
            Type::Object(object) => {
                emit4(
                    w,
                    MEMBER_INIT,
                    prefix,
                    name,
                    snake_case(o.name.as_str()).as_str(),
                    snake_case(name).as_str(),
                );
                let mut inner = String::new();
                emit1(&mut inner, MEMBER_PREFIX, name);
                initialize_members(w, inner.as_str(), object, conf);
            },
            Type::Simple(_) => {},
        }
        i = i + 1;
    }
}

/// The connections of the objects inside `o`, then that of `o` itself
/// where it is a list or a tree: new data is fetched when it is
/// announced. `d` leads from the class that is constructed to `o`.
pub open spec fn connect_text(d: Seq<char>, o: ObjectView) -> Seq<char>
    decreases o,
{
    connect_first_text(d, o, o.properties.len()) + (if o.object_type != ObjectType::Object {
        fill(CONNECT_MODEL@, seq![d, o.name])
    } else {
        empty()
    })
}

/// The connections of the objects among the first `n` properties.
pub open spec fn connect_first_text(d: Seq<char>, o: ObjectView, n: nat) -> Seq<char>
    decreases o, n,
{
    if n == 0 || n > o.properties.len() {
        empty()
    } else {
        connect_first_text(d, o, (n - 1) as nat) + (match o.properties[n - 1].1.property_type {
            TypeView::Object(object) => connect_text(
                fill(CONNECT_PATH@, seq![d, o.properties[n - 1].0]),
                *object,
            ),
            TypeView::Simple(_) => empty(),
        })
    }
}

/// Writes the connections of the objects inside `o`, then that of `o`
/// itself where it is a list or a tree: new data is fetched when it is
/// announced. `d` leads from the class that is constructed to `o`.
pub fn connect(w: &mut String, d: &str, o: &Object, conf: &Config)
    ensures
        final(w)@ == old(w)@ + connect_text(d@, o@),
    decreases o,
{
    broadcast use group_concat;

    let ghost w0 = w@;
    let mut i: usize = 0;
    while i < o.properties.len()
        invariant
            i <= o.properties.len(),
            w@ == w0 + connect_first_text(d@, o@, i as nat),
        decreases o.properties.len() - i,
    {
        match &o.properties[i].1.property_type {
            Type::Object(object) => {
                let mut path = String::new();
                emit2(&mut path, CONNECT_PATH, d, o.properties[i].0.as_str());
                connect(w, path.as_str(), object, conf);
            },
            Type::Simple(_) => {},
        }
        i = i + 1;
    }
    if o.object_type != ObjectType::Object {
        emit2(w, CONNECT_MODEL, d, o.name.as_str());
    }
}

/// The type of the value that the C++ setter of a property takes.
pub open spec fn setter_value_type_text(p: PropertyView) -> Seq<char> {
    if p.optional && !type_is_complex(p.property_type) {
        "const QVariant&"@
    } else {
        type_cpp_set_type(p.property_type)
    }
}

/// The definition of the setter of a property.
pub open spec fn property_setter_text(
    name: Seq<char>,
    p: PropertyView,
    o: ObjectView,
    base: Seq<char>,
) -> Seq<char> {
    let tname = type_name_text(p.property_type);
    fill(SETTER_OPEN@, seq![o.name, upper_initial_text(name), setter_value_type_text(p)]) + (
    if p.optional {
        (if type_is_complex(p.property_type) {
            SETTER_IF_NULL@
        } else {
            fill(SETTER_IF_NULL_OR_WRONG@, seq![tname])
        }) + fill(SETTER_NONE@, seq![base]) + SETTER_ELSE@ + (if tname == "QString"@ {
            fill(SETTER_STRING@, seq![base])
        } else if tname == "QByteArray"@ {
            fill(SETTER_BYTES@, seq![base])
        } else {
            fill(SETTER_OPTIONAL_VALUE@, seq![base, tname])
        }) + SETTER_END_IF@
    } else if tname == "QString"@ {
        fill(SETTER_PLAIN_STRING@, seq![base])
    } else if tname == "QByteArray"@ {
        fill(SETTER_PLAIN_BYTES@, seq![base])
    } else {
        fill(SETTER_VALUE@, seq![base])
    }) + BLOCK_CLOSE@
}

/// The definitions of the getter and the setter of a property.
pub open spec fn property_definition_text(
    name: Seq<char>,
    p: PropertyView,
    o: ObjectView,
    lcname: Seq<char>,
) -> Seq<char> {
    let base = base_name_text(lcname, name);
    let tname = type_name_text(p.property_type);
    (if p.property_type is Object {
        fill(PROPERTY_OBJECT@, seq![tname, o.name, name])
    } else if type_is_complex(p.property_type) {
        fill(PROPERTY_COMPLEX@, seq![tname, o.name, name, base, lowercase(tname)])
    } else if p.optional {
        fill(PROPERTY_OPTIONAL@, seq![o.name, name, base])
    } else {
        fill(PROPERTY_VALUE@, seq![tname, o.name, name, base])
    }) + (if p.write {
        property_setter_text(name, p, o, base)
    } else {
        empty()
    })
}

/// The definitions for the first `n` properties.
pub open spec fn cpp_object_properties_text(o: ObjectView, lcname: Seq<char>, n: nat) -> Seq<char>
    decreases n,
{
    if n == 0 {
        empty()
    } else {
        cpp_object_properties_text(o, lcname, (n - 1) as nat) + property_definition_text(
            o.properties[n - 1].0,
            o.properties[n - 1].1,
            o,
            lcname,
        )
    }
}

/// Writes the setter of a property; bytes are taken as a slice and
/// copied.
fn write_property_setter(w: &mut String, name: &str, p: &Property, o: &Object, base: &str)
    ensures
        final(w)@ == old(w)@ + property_setter_text(name@, p@, o@, base@),
{
    broadcast use group_concat;

    let t = if p.optional && !p.is_complex() {
        "const QVariant&"
    } else {
        p.property_type.cpp_set_type()
    };
    emit3(w, SETTER_OPEN, o.name.as_str(), upper_initial(name).as_str(), t);
    if p.optional {
        if p.is_complex() {
            emit(w, SETTER_IF_NULL);
        } else {
            emit1(w, SETTER_IF_NULL_OR_WRONG, p.name_of_type());
        }
        emit1(w, SETTER_NONE, base);
        emit(w, SETTER_ELSE);
        if p.name_of_type().eq("QString") {
            emit1(w, SETTER_STRING, base);
        } else if p.name_of_type().eq("QByteArray") {
            emit1(w, SETTER_BYTES, base);
        } else {
            emit2(w, SETTER_OPTIONAL_VALUE, base, p.name_of_type());
        }
        emit(w, SETTER_END_IF);
    } else if p.name_of_type().eq("QString") {
        emit1(w, SETTER_PLAIN_STRING, base);
    } else if p.name_of_type().eq("QByteArray") {
        emit1(w, SETTER_PLAIN_BYTES, base);
    } else {
        emit1(w, SETTER_VALUE, base);
    }
    emit(w, BLOCK_CLOSE);
}

/// Writes the definitions of the getter and the setter of a property.
fn write_property_definition(w: &mut String, name: &str, p: &Property, o: &Object, lcname: &str)
    requires
        snake_ready(),
    ensures
        final(w)@ == old(w)@ + property_definition_text(name@, p@, o@, lcname@),
{
    broadcast use group_concat;

    let base = base_name(lcname, name);
    if p.is_object() {
        emit3(w, PROPERTY_OBJECT, p.name_of_type(), o.name.as_str(), name);
    } else if p.is_complex() {
        emit5(
            w,
            PROPERTY_COMPLEX,
            p.name_of_type(),
            o.name.as_str(),
            name,
            base.as_str(),
            p.name_of_type().to_lowercase().as_str(),
        );
    } else if p.optional {
        emit3(w, PROPERTY_OPTIONAL, o.name.as_str(), name, base.as_str());
    } else {
        emit4(w, PROPERTY_VALUE, p.name_of_type(), o.name.as_str(), name, base.as_str());
    }
    if p.write {
        write_property_setter(w, name, p, o, base.as_str());
    }
}

/// Writes the definitions for the properties.
pub fn write_cpp_object_properties(w: &mut String, o: &Object, lcname: &str)
    requires
        snake_ready(),
    ensures
        final(w)@ == old(w)@ + cpp_object_properties_text(o@, lcname@, o@.properties.len()),
{
    broadcast use group_concat;

    let ghost w0 = w@;
    let mut i: usize = 0;
    while i < o.properties.len()
        invariant
            i <= o.properties.len(),
            snake_ready(),
            w@ == w0 + cpp_object_properties_text(o@, lcname@, i as nat),
        decreases o.properties.len() - i,
    {
        write_property_definition(w, o.properties[i].0.as_str(), &o.properties[i].1, o, lcname);
        i = i + 1;
    }
}

/// What is handed to the constructor of the private part of `o`: for each
/// property the function that tells of its change, or the object with
/// what its own constructor is handed; then the callbacks of a list or
/// tree. `prefix` leads from the class that is constructed to `o`.
pub open spec fn constructor_args_text(prefix: Seq<char>, o: ObjectView) -> Seq<char>
    decreases o,
{
    let last_column = decimal((column_count(o) - 1) as nat);
    constructor_args_first_text(prefix, o, o.properties.len()) + (if o.object_type
        == ObjectType::List {
        fill(LIST_CALLBACKS@, seq![o.name, last_column])
    } else {
        empty()
    }) + (if o.object_type == ObjectType::Tree {
        fill(TREE_CALLBACKS@, seq![o.name, snake_case_text(o.name), last_column])
    } else {
        empty()
    })
}

/// The part of the constructor's arguments that the first `n` properties
/// stand for.
pub open spec fn constructor_args_first_text(prefix: Seq<char>, o: ObjectView, n: nat) -> Seq<char>
    decreases o, n,
{
    if n == 0 || n > o.properties.len() {
        empty()
    } else {
        let name = o.properties[n - 1].0;
        constructor_args_first_text(prefix, o, (n - 1) as nat) + (
        match o.properties[n - 1].1.property_type {
            TypeView::Object(object) => fill(ARGUMENT_OBJECT@, seq![prefix, name])
                + constructor_args_text(fill(MEMBER_PREFIX@, seq![name]), *object),
            TypeView::Simple(_) => fill(ARGUMENT_CHANGED@, seq![changed_f_text(o, name)]),
        })
    }
}

/// Writes what is handed to the constructor of the private part of `o`:
/// for each property the function that tells of its change, or the
/// object with what its own constructor is handed; then the callbacks
/// of a list or tree. `prefix` leads from the class that is constructed
/// to `o`.
pub fn constructor_args(w: &mut String, prefix: &str, o: &Object, conf: &Config)
    requires
        snake_ready(),
    ensures
        final(w)@ == old(w)@ + constructor_args_text(prefix@, o@),
    decreases o,
{
    broadcast use group_concat;

    let lcname = snake_case(o.name.as_str());
    let ghost w0 = w@;
    let mut i: usize = 0;
    while i < o.properties.len()
        invariant
            i <= o.properties.len(),
            snake_ready(),
            w@ == w0 + constructor_args_first_text(prefix@, o@, i as nat),
        decreases o.properties.len() - i,
    {
        let name = o.properties[i].0.as_str();
        match &o.properties[i].1.property_type {
            Type::Object(object) => {
                emit2(w, ARGUMENT_OBJECT, prefix, name);
                let mut inner = String::new();
                emit1(&mut inner, MEMBER_PREFIX, name);
                constructor_args(w, inner.as_str(), object, conf);
            },
            Type::Simple(_) => {
                emit1(w, ARGUMENT_CHANGED, changed_f(o, name).as_str());
            },
        }
        i = i + 1;
    }
    let last_column = decimal_string(o.column_count() - 1);
    if o.object_type == ObjectType::List {
        emit2(w, LIST_CALLBACKS, o.name.as_str(), last_column.as_str());
    }
    if o.object_type == ObjectType::Tree {
        emit3(w, TREE_CALLBACKS, o.name.as_str(), lcname.as_str(), last_column.as_str());
    }
}

/// Whether the item property is shown under `role` in the column.
pub fn has_role(p: &ItemProperty, column: usize, role: &str) -> (r: bool)
    ensures
        r == roles_at(p@, column as int).contains(role@),
{
    if column >= p.roles.len() {
        return false;
    }
    let roles = &p.roles[column];
    let mut k: usize = 0;
    while k < roles.len()
        invariant
            k <= roles.len(),
            column < p.roles.len(),
            roles == &p.roles[column as int],
            forall|j: int| 0 <= j < k ==> p@.roles[column as int][j] != role@,
        decreases roles.len() - k,
    {
        if roles[k].as_str().eq(role) {
            assert(p@.roles[column as int][k as int] == role@);
            return true;
        }
        k = k + 1;
    }
    false
}

/// The header of a column, for the first `n` item properties: the name
/// of each that is displayed in the column.
pub open spec fn column_header_text(o: ObjectView, column: nat, n: nat) -> Seq<char>
    decreases n,
{
    if n == 0 {
        empty()
    } else {
        column_header_text(o, column, (n - 1) as nat) + (if roles_at(
            o.item_properties[n - 1].1,
            column as int,
        ).contains("display"@) {
            fill(HEADER_DATA@, seq![decimal(column), o.item_properties[n - 1].0])
        } else {
            empty()
        })
    }
}

/// The headers of the first `n` columns.
pub open spec fn header_data_text(o: ObjectView, n: nat) -> Seq<char>
    decreases n,
{
    if n == 0 {
        empty()
    } else {
        header_data_text(o, (n - 1) as nat) + column_header_text(
            o,
            (n - 1) as nat,
            o.item_properties.len(),
        )
    }
}

/// Writes the headers of the columns.
fn write_header_data(w: &mut String, o: &Object)
    ensures
        final(w)@ == old(w)@ + header_data_text(o@, column_count(o@)),
{
    broadcast use group_concat;

    let columns = o.column_count();
    let ghost w0 = w@;
    let mut col: usize = 0;
    while col < columns
        invariant
            col <= columns,
            w@ == w0 + header_data_text(o@, col as nat),
        decreases columns - col,
    {
        let ghost w1 = w@;
        let number = decimal_string(col);
        let mut i: usize = 0;
        while i < o.item_properties.len()
            invariant
                i <= o.item_properties.len(),
                number@ == decimal(col as nat),
                w@ == w1 + column_header_text(o@, col as nat, i as nat),
            decreases o.item_properties.len() - i,
        {
            if has_role(&o.item_properties[i].1, col, "display") {
                emit2(w, HEADER_DATA, number.as_str(), o.item_properties[i].0.as_str());
            }
            i = i + 1;
        }
        col = col + 1;
    }
}

/// The first `n` arguments as they are handed to the C function; text
/// and bytes go as a pointer and a length.
pub open spec fn call_arguments_text(f: FunctionView, n: nat) -> Seq<char>
    decreases n,
{
    if n == 0 {
        empty()
    } else {
        let a = f.arguments[n - 1];
        call_arguments_text(f, (n - 1) as nat) + (if simple_name(a.argument_type) == "QString"@ {
            fill(ARGUMENT_STRING@, seq![a.name])
        } else if simple_name(a.argument_type) == "QByteArray"@ {
            fill(ARGUMENT_BYTES@, seq![a.name])
        } else {
            fill(ARGUMENT_VALUE@, seq![a.name])
        })
    }
}

/// The first `n` arguments as they are handed to the C function; text
/// and bytes go as a pointer and a length.
fn call_arguments(f: &Function) -> (r: String)
    ensures
        r@ == call_arguments_text(f@, f@.arguments.len()),
{
    broadcast use group_concat;

    let mut s = String::new();
    let mut i: usize = 0;
    while i < f.arguments.len()
        invariant
            i <= f.arguments.len(),
            s@ == call_arguments_text(f@, i as nat),
        decreases f.arguments.len() - i,
    {
        let a = &f.arguments[i];
        if a.name_of_type().eq("QString") {
            emit1(&mut s, ARGUMENT_STRING, a.name.as_str());
        } else if a.name_of_type().eq("QByteArray") {
            emit1(&mut s, ARGUMENT_BYTES, a.name.as_str());
        } else {
            emit1(&mut s, ARGUMENT_VALUE, a.name.as_str());
        }
        i = i + 1;
    }
    s
}

/// The definition of a function: it calls the C function and returns what
/// that returns, text and bytes through a local variable.
pub open spec fn function_definition_text(
    name: Seq<char>,
    f: FunctionView,
    o: ObjectView,
    lcname: Seq<char>,
) -> Seq<char> {
    let base = base_name_text(lcname, name);
    let tname = simple_name(f.return_type);
    let arguments = call_arguments_text(f, f.arguments.len());
    fill(FUNCTION_OPEN@, seq![tname, o.name, name]) + parameters_text(f, f.arguments.len()) + fill(
        FUNCTION_BODY_OPEN@,
        seq![if f.mutable {
            ""@
        } else {
            " const"@
        }],
    ) + (if tname == "QString"@ {
        fill(RETURN_STRING@, seq![tname, base, arguments])
    } else if tname == "QByteArray"@ {
        fill(RETURN_BYTES@, seq![tname, base, arguments])
    } else {
        fill(RETURN_VALUE@, seq![base, arguments])
    }) + BLOCK_CLOSE@
}

/// The definitions of the first `n` functions.
pub open spec fn function_definitions_text(o: ObjectView, lcname: Seq<char>, n: nat) -> Seq<char>
    decreases n,
{
    if n == 0 {
        empty()
    } else {
        function_definitions_text(o, lcname, (n - 1) as nat) + function_definition_text(
            o.functions[n - 1].0,
            o.functions[n - 1].1,
            o,
            lcname,
        )
    }
}

/// Writes the definition of a function: it calls the C function and
/// returns what that returns, text and bytes through a local variable.
fn write_function_definition(w: &mut String, name: &str, f: &Function, o: &Object, lcname: &str)
    requires
        snake_ready(),
    ensures
        final(w)@ == old(w)@ + function_definition_text(name@, f@, o@, lcname@),
{
    broadcast use group_concat;

    let base = base_name(lcname, name);
    emit3(w, FUNCTION_OPEN, f.name_of_type(), o.name.as_str(), name);
    write_parameters(w, f);
    emit1(w, FUNCTION_BODY_OPEN, if f.mutable { "" } else { " const" });
    let arguments = call_arguments(f);
    if f.return_type.name().eq("QString") {
        emit3(w, RETURN_STRING, f.name_of_type(), base.as_str(), arguments.as_str());
    } else if f.return_type.name().eq("QByteArray") {
        emit3(w, RETURN_BYTES, f.name_of_type(), base.as_str(), arguments.as_str());
    } else {
        emit2(w, RETURN_VALUE, base.as_str(), arguments.as_str());
    }
    emit(w, BLOCK_CLOSE);
}

/// The text that is written where `o` is a list or a tree.
pub open spec fn for_model(o: ObjectView, text: Seq<char>) -> Seq<char> {
    if o.object_type != ObjectType::Object {
        text
    } else {
        empty()
    }
}

/// The constructor of an object that does not own its private part.
pub open spec fn unowned_constructor_text(o: ObjectView) -> Seq<char> {
    fill(CONSTRUCTOR_UNOWNED@, seq![o.name, base_type_text(o)]) + initialize_members_zero_text(
        o,
        o.properties.len(),
    ) + MEMBERS_UNOWNED@ + for_model(o, INIT_HEADER_DATA_CALL@)
}

/// The constructor of an object that makes its private part, and the
/// destructor.
pub open spec fn owned_constructor_text(o: ObjectView) -> Seq<char> {
    fill(CONSTRUCTOR_OWNED@, seq![o.name, base_type_text(o)]) + initialize_members_zero_text(
        o,
        o.properties.len(),
    ) + fill(NEW_CALL@, seq![snake_case_text(o.name)]) + constructor_args_text(""@, o)
        + MEMBERS_OWNED@ + initialize_members_text(""@, o) + connect_text("this"@, o) + for_model(
        o,
        INIT_HEADER_DATA_CALL@,
    ) + fill(DESTRUCTOR@, seq![o.name, snake_case_text(o.name)])
}

/// The function that sets the headers of the columns of a list or tree.
pub open spec fn init_header_data_text(o: ObjectView) -> Seq<char> {
    for_model(
        o,
        fill(INIT_HEADER_DATA_OPEN@, seq![o.name]) + header_data_text(o, column_count(o))
            + BLOCK_CLOSE@,
    )
}

/// The definition of the class of an object.
pub open spec fn cpp_object_text(o: ObjectView) -> Seq<char> {
    unowned_constructor_text(o) + owned_constructor_text(o) + init_header_data_text(o)
        + cpp_object_properties_text(o, snake_case_text(o.name), o.properties.len())
        + function_definitions_text(o, snake_case_text(o.name), o.functions.len())
}

/// Writes the constructor of an object that does not own its private
/// part.
fn write_unowned_constructor(w: &mut String, o: &Object)
    ensures
        final(w)@ == old(w)@ + unowned_constructor_text(o@),
{
    broadcast use group_concat;

    emit2(w, CONSTRUCTOR_UNOWNED, o.name.as_str(), base_type(o));
    initialize_members_zero(w, o);
    emit(w, MEMBERS_UNOWNED);
    if o.object_type != ObjectType::Object {
        emit(w, INIT_HEADER_DATA_CALL);
    }
}

/// Writes the constructor of an object that makes its private part, and
/// the destructor.
fn write_owned_constructor(w: &mut String, o: &Object, conf: &Config)
    requires
        snake_ready(),
    ensures
        final(w)@ == old(w)@ + owned_constructor_text(o@),
{
    broadcast use group_concat;

    let lcname = snake_case(o.name.as_str());
    emit2(w, CONSTRUCTOR_OWNED, o.name.as_str(), base_type(o));
    initialize_members_zero(w, o);
    emit1(w, NEW_CALL, lcname.as_str());
    constructor_args(w, "", o, conf);
    emit(w, MEMBERS_OWNED);
    initialize_members(w, "", o, conf);
    connect(w, "this", o, conf);
    if o.object_type != ObjectType::Object {
        emit(w, INIT_HEADER_DATA_CALL);
    }
    emit2(w, DESTRUCTOR, o.name.as_str(), lcname.as_str());
}

/// Writes the function that sets the headers of the columns of a list
/// or tree.
fn write_init_header_data(w: &mut String, o: &Object)
    ensures
        final(w)@ == old(w)@ + init_header_data_text(o@),
{
    broadcast use group_concat;

    if o.object_type != ObjectType::Object {
        emit1(w, INIT_HEADER_DATA_OPEN, o.name.as_str());
        write_header_data(w, o);
        emit(w, BLOCK_CLOSE);
    }
}

/// Writes the definitions of the functions.
fn write_function_definitions(w: &mut String, o: &Object, lcname: &str)
    requires
        snake_ready(),
    ensures
        final(w)@ == old(w)@ + function_definitions_text(o@, lcname@, o@.functions.len()),
{
    broadcast use group_concat;

    let ghost w0 = w@;
    let mut i: usize = 0;
    while i < o.functions.len()
        invariant
            i <= o.functions.len(),
            snake_ready(),
            w@ == w0 + function_definitions_text(o@, lcname@, i as nat),
        decreases o.functions.len() - i,
    {
        write_function_definition(w, o.functions[i].0.as_str(), &o.functions[i].1, o, lcname);
        i = i + 1;
    }
}

/// Writes the definition of the class of an object.
pub fn write_cpp_object(w: &mut String, o: &Object, conf: &Config)
    requires
        snake_ready(),
    ensures
        final(w)@ == old(w)@ + cpp_object_text(o@),
{
    broadcast use group_concat;

    let lcname = snake_case(o.name.as_str());
    write_unowned_constructor(w, o);
    write_owned_constructor(w, o, conf);
    write_init_header_data(w, o);
    write_cpp_object_properties(w, o, lcname.as_str());
    write_function_definitions(w, o, lcname.as_str());
}

} // verus!
