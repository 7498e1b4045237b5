//! The declarations of the functions of the C interface, as the C++ side
//! sees them.
use crate::configuration::{
    c_get_type_text, Config, Function, FunctionView, Object, ObjectType, ObjectView, Property,
    PropertyView, simple_is_complex, simple_name, Type, type_c_set_type, type_is_complex,
    type_name_text, TypeView,
};
use crate::configuration_private::{PropertyPrivate, SimpleTypePrivate, TypeName, TypePrivate};
use crate::cpp::templates::{
    CHANGED_CALLBACK_TYPE, FREE, FUNCTION_NAME, GET_COMPLEX, GET_OBJECT, GET_OPTIONAL, GET_VALUE,
    LIST_CALLBACK_TYPES, NEW_OPEN, SET, SET_NONE, TREE_CALLBACK_TYPES,
};
use crate::text::{emit, emit1, emit2, emit3, emit4, empty, fill, group_concat};
use crate::util::{snake_case, snake_case_text, snake_ready};
use vstd::prelude::*;
use vstd::string::*;

verus! {

/// The name of the C functions of a property or function of an object:
/// both names in snake case, with an underscore between them.
pub open spec fn base_name_text(lcname: Seq<char>, name: Seq<char>) -> Seq<char> {
    lcname + "_"@ + snake_case_text(name)
}

/// The name of the C functions of a property or function of an object:
/// both names in snake case, with an underscore between them.
pub fn base_name(lcname: &str, name: &str) -> (r: String)
    requires
        snake_ready(),
    ensures
        r@ == base_name_text(lcname@, name@),
{
    let mut s = String::from_str(lcname);
    s.append("_");
    s.append(snake_case(name).as_str());
    s
}

/// The types of the first `n` arguments in the C interface; text and
/// bytes are handed over as a pointer and a length.
pub open spec fn c_argument_types_text(f: FunctionView, n: nat) -> Seq<char>
    decreases n,
{
    if n == 0 {
        empty()
    } else {
        let name = simple_name(f.arguments[n - 1].argument_type);
        c_argument_types_text(f, (n - 1) as nat) + (if name == "QString"@ {
            ", const ushort*, int"@
        } else if name == "QByteArray"@ {
            ", const char*, int"@
        } else {
            ", "@ + name
        })
    }
}

/// The declaration of the C function behind a function of an object.
pub open spec fn function_c_decl_text(
    name: Seq<char>,
    f: FunctionView,
    lcname: Seq<char>,
    o: ObjectView,
) -> Seq<char> {
    "    "@ + (if simple_is_complex(f.return_type) {
        "void"@
    } else {
        simple_name(f.return_type)
    }) + fill(
        FUNCTION_NAME@,
        seq![lcname, snake_case_text(name), if f.mutable {
            ""@
        } else {
            "const "@
        }, o.name],
    ) + c_argument_types_text(f, f.arguments.len()) + (if simple_name(f.return_type)
        == "QString"@ {
        ", QString*, qstring_set"@
    } else if simple_name(f.return_type) == "QByteArray"@ {
        ", QByteArray*, qbytearray_set"@
    } else {
        empty()
    }) + ");\n"@
}

/// Writes the declaration of the C function behind a function of an
/// object.
pub fn write_function_c_decl(w: &mut String, name: &str, f: &Function, lcname: &str, o: &Object)
    requires
        snake_ready(),
    ensures
        final(w)@ == old(w)@ + function_c_decl_text(name@, f@, lcname@, o@),
{
    broadcast use group_concat;

    let lc = snake_case(name);
    emit(w, "    ");
    if f.return_type.is_complex() {
        emit(w, "void");
    } else {
        emit(w, f.name_of_type());
    }
    emit4(
        w,
        FUNCTION_NAME,
        lcname,
        lc.as_str(),
        if f.mutable { "" } else { "const " },
        o.name.as_str(),
    );
    let ghost w0 = w@;
    let mut i: usize = 0;
    while i < f.arguments.len()
        invariant
            i <= f.arguments.len(),
            w@ == w0 + c_argument_types_text(f@, i as nat),
        decreases f.arguments.len() - i,
    {
        let a = &f.arguments[i];
        if a.name_of_type().eq("QString") {
            emit(w, ", const ushort*, int");
        } else if a.name_of_type().eq("QByteArray") {
            emit(w, ", const char*, int");
        } else {
            emit(w, ", ");
            emit(w, a.name_of_type());
        }
        i = i + 1;
    }
    if f.return_type.name().eq("QString") {
        emit(w, ", QString*, qstring_set");
    } else if f.return_type.name().eq("QByteArray") {
        emit(w, ", QByteArray*, qbytearray_set");
    }
    emit(w, ");\n");
}

/// The types of what the constructor of an object takes in the C
/// interface: the object, a callback for each property, or what the
/// constructor of a property that is an object takes, and the callbacks
/// of a list or tree.
pub open spec fn constructor_args_decl_text(o: ObjectView) -> Seq<char>
    decreases o,
{
    o.name + "*"@ + constructor_args_decl_properties_text(o, o.properties.len()) + (
    if o.object_type == ObjectType::List {
        fill(LIST_CALLBACK_TYPES@, seq![o.name])
    } else {
        empty()
    }) + (if o.object_type == ObjectType::Tree {
        fill(TREE_CALLBACK_TYPES@, seq![o.name])
    } else {
        empty()
    })
}

/// The part of the constructor's types that the first `n` properties
/// stand for.
pub open spec fn constructor_args_decl_properties_text(o: ObjectView, n: nat) -> Seq<char>
    decreases o, n,
{
    if n == 0 || n > o.properties.len() {
        empty()
    } else {
        constructor_args_decl_properties_text(o, (n - 1) as nat) + (
        match o.properties[n - 1].1.property_type {
            TypeView::Object(object) => ", "@ + constructor_args_decl_text(*object),
            TypeView::Simple(_) => fill(CHANGED_CALLBACK_TYPE@, seq![o.name]),
        })
    }
}

/// Writes the types of what the constructor of an object takes in the C
/// interface: the object, a callback for each property, or what the
/// constructor of a property that is an object takes, and the callbacks
/// of a list or tree.
pub fn constructor_args_decl(w: &mut String, o: &Object, conf: &Config)
    ensures
        final(w)@ == old(w)@ + constructor_args_decl_text(o@),
    decreases o,
{
    broadcast use group_concat;

    emit(w, o.name.as_str());
    emit(w, "*");
    let ghost w0 = w@;
    let mut i: usize = 0;
    while i < o.properties.len()
        invariant
            i <= o.properties.len(),
            w@ == w0 + constructor_args_decl_properties_text(o@, i as nat),
        decreases o.properties.len() - i,
    {
        match &o.properties[i].1.property_type {
            Type::Object(object) => {
                emit(w, ", ");
                constructor_args_decl(w, object, conf);
            },
            Type::Simple(_) => {
                emit1(w, CHANGED_CALLBACK_TYPE, o.name.as_str());
            },
        }
        i = i + 1;
    }
    if o.object_type == ObjectType::List {
        emit1(w, LIST_CALLBACK_TYPES, o.name.as_str());
    }
    if o.object_type == ObjectType::Tree {
        emit1(w, TREE_CALLBACK_TYPES, o.name.as_str());
    }
}

/// The type of the value that the C setter of a property takes; text and
/// bytes are handed over as a pointer and a length.
pub open spec fn c_setter_type_text(p: PropertyView) -> Seq<char> {
    let t = type_c_set_type(p.property_type);
    if t == "qstring_t"@ {
        "const ushort *str, int len"@
    } else if t == "qbytearray_t"@ {
        "const char* bytes, int len"@
    } else {
        t
    }
}

/// The declarations of the C functions that get and set one property.
pub open spec fn property_c_decl_text(
    lcname: Seq<char>,
    name: Seq<char>,
    p: PropertyView,
    o: ObjectView,
) -> Seq<char> {
    let base = base_name_text(lcname, name);
    let tname = type_name_text(p.property_type);
    (if p.property_type is Object {
        fill(GET_OBJECT@, seq![tname, base, o.name])
    } else if type_is_complex(p.property_type) {
        fill(GET_COMPLEX@, seq![base, o.name, c_get_type_text(tname)])
    } else if p.optional {
        fill(GET_OPTIONAL@, seq![tname, base, o.name])
    } else {
        fill(GET_VALUE@, seq![tname, base, o.name])
    }) + (if p.write {
        fill(SET@, seq![base, o.name, c_setter_type_text(p)]) + (if p.optional {
            fill(SET_NONE@, seq![base, o.name])
        } else {
            empty()
        })
    } else {
        empty()
    })
}

/// The declarations for the first `n` properties.
pub open spec fn properties_c_decl_text(lcname: Seq<char>, o: ObjectView, n: nat) -> Seq<char>
    decreases n,
{
    if n == 0 {
        empty()
    } else {
        properties_c_decl_text(lcname, o, (n - 1) as nat) + property_c_decl_text(
            lcname,
            o.properties[n - 1].0,
            o.properties[n - 1].1,
            o,
        )
    }
}

/// The declarations for the first `n` functions.
pub open spec fn functions_c_decl_text(lcname: Seq<char>, o: ObjectView, n: nat) -> Seq<char>
    decreases n,
{
    if n == 0 {
        empty()
    } else {
        functions_c_decl_text(lcname, o, (n - 1) as nat) + function_c_decl_text(
            o.functions[n - 1].0,
            o.functions[n - 1].1,
            lcname,
            o,
        )
    }
}

/// The declarations of the C functions of an object.
pub open spec fn object_c_decl_text(o: ObjectView) -> Seq<char> {
    let lcname = snake_case_text(o.name);
    fill(NEW_OPEN@, seq![o.name, lcname]) + constructor_args_decl_text(o) + ");\n"@ + fill(
        FREE@,
        seq![lcname, o.name],
    ) + properties_c_decl_text(lcname, o, o.properties.len()) + functions_c_decl_text(
        lcname,
        o,
        o.functions.len(),
    )
}

/// Writes the declarations of the C functions that get and set one
/// property.
fn write_property_c_decl(w: &mut String, lcname: &str, name: &str, p: &Property, o: &Object)
    requires
        snake_ready(),
    ensures
        final(w)@ == old(w)@ + property_c_decl_text(lcname@, name@, p@, o@),
{
    broadcast use group_concat;

    let base = base_name(lcname, name);
    if p.is_object() {
        emit3(w, GET_OBJECT, p.name_of_type(), base.as_str(), o.name.as_str());
    } else if p.is_complex() {
        emit3(w, GET_COMPLEX, base.as_str(), o.name.as_str(), p.c_get_type().as_str());
    } else if p.optional {
        emit3(w, GET_OPTIONAL, p.name_of_type(), base.as_str(), o.name.as_str());
    } else {
        emit3(w, GET_VALUE, p.name_of_type(), base.as_str(), o.name.as_str());
    }
    if p.write {
        let mut t = p.property_type.c_set_type();
        if t.eq("qstring_t") {
            t = "const ushort *str, int len";
        } else if t.eq("qbytearray_t") {
            t = "const char* bytes, int len";
        }
        emit3(w, SET, base.as_str(), o.name.as_str(), t);
        if p.optional {
            emit2(w, SET_NONE, base.as_str(), o.name.as_str());
        }
    }
}

/// Writes the declarations of the C functions of an object.
pub fn write_object_c_decl(w: &mut String, o: &Object, conf: &Config)
    requires
        snake_ready(),
    ensures
        final(w)@ == old(w)@ + object_c_decl_text(o@),
{
    broadcast use group_concat;

    let lcname = snake_case(o.name.as_str());
    emit2(w, NEW_OPEN, o.name.as_str(), lcname.as_str());
    constructor_args_decl(w, o, conf);
    emit(w, ");\n");
    emit2(w, FREE, lcname.as_str(), o.name.as_str());
    let ghost w0 = w@;
    let mut i: usize = 0;
    while i < o.properties.len()
        invariant
            i <= o.properties.len(),
            snake_ready(),
            w@ == w0 + properties_c_decl_text(lcname@, o@, i as nat),
        decreases o.properties.len() - i,
    {
        write_property_c_decl(
            w,
            lcname.as_str(),
            o.properties[i].0.as_str(),
            &o.properties[i].1,
            o,
        );
        i = i + 1;
    }
    let ghost w1 = w@;
    let mut i: usize = 0;
    while i < o.functions.len()
        invariant
            i <= o.functions.len(),
            snake_ready(),
            w@ == w1 + functions_c_decl_text(lcname@, o@, i as nat),
        decreases o.functions.len() - i,
    {
        write_function_c_decl(w, o.functions[i].0.as_str(), &o.functions[i].1, lcname.as_str(), o);
        i = i + 1;
    }
}

} // verus!
