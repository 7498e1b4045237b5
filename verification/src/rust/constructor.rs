//! The constructor of an object in the C interface: what it takes, and
//! how it makes the object from that.
use crate::configuration::{Config, Object, ObjectType, ObjectView, Type, TypeView};
use crate::configuration_private::PropertyPrivate;
use crate::rust::templates::{
    ARGUMENT_CHANGED, ARGUMENT_MODEL, ARGUMENT_NEW_DATA_LIST, ARGUMENT_NEW_DATA_TREE,
    ARGUMENT_OBJECT, ARGUMENT_SEPARATOR, EMITTER_INIT_CHANGED, EMITTER_INIT_NEW_DATA,
    EMITTER_INIT_OPEN, MODEL_INIT, OBJECT_INIT, OBJECT_INIT_CLOSE, OBJECT_INIT_MEMBER,
};
use crate::text::{emit, emit1, emit2, emit3, emit4, empty, fill, group_concat};
use crate::util::{snake_case, snake_case_text, snake_ready};
use vstd::prelude::*;
use vstd::string::*;

verus! {

/// The parameter with which the callbacks of a tree are told the parent.
pub open spec fn index_parameter_text(o: ObjectView) -> Seq<char> {
    if o.object_type == ObjectType::Tree {
        " index: COption<usize>,"@
    } else {
        ""@
    }
}

/// The parameter with which the callbacks of a tree are told the
/// parent.
fn index_parameter(o: &Object) -> (r: &'static str)
    ensures
        r@ == index_parameter_text(o@),
{
    if o.object_type == ObjectType::Tree {
        " index: COption<usize>,"
    } else {
        ""
    }
}

/// The callbacks that the constructor of a list or tree takes.
pub open spec fn model_arguments_decl_text(name: Seq<char>, o: ObjectView) -> Seq<char> {
    let lc = snake_case_text(name);
    (if o.object_type == ObjectType::List {
        fill(ARGUMENT_NEW_DATA_LIST@, seq![lc, o.name])
    } else if o.object_type == ObjectType::Tree {
        fill(ARGUMENT_NEW_DATA_TREE@, seq![lc, o.name])
    } else {
        empty()
    }) + (if o.object_type != ObjectType::Object {
        fill(
            ARGUMENT_MODEL@,
            seq![o.name, index_parameter_text(o), lc, index_parameter_text(o)],
        )
    } else {
        empty()
    })
}

/// The parameters of the constructor of `o`, which goes by `name`: the
/// C++ object, a callback for each property, or the parameters for a
/// property that is an object, and the callbacks of a list or tree.
pub open spec fn r_constructor_args_decl_text(name: Seq<char>, o: ObjectView) -> Seq<char>
    decreases o,
{
    fill(ARGUMENT_OBJECT@, seq![snake_case_text(name), o.name])
        + r_constructor_args_decl_first_text(name, o, o.properties.len())
        + model_arguments_decl_text(name, o)
}

/// The parameters that the first `n` properties stand for.
pub open spec fn r_constructor_args_decl_first_text(
    name: Seq<char>,
    o: ObjectView,
    n: nat,
) -> Seq<char>
    decreases o, n,
{
    if n == 0 || n > o.properties.len() {
        empty()
    } else {
        let p_name = o.properties[n - 1].0;
        r_constructor_args_decl_first_text(name, o, (n - 1) as nat) + (
        match o.properties[n - 1].1.property_type {
            TypeView::Object(object) => ARGUMENT_SEPARATOR@ + r_constructor_args_decl_text(
                p_name,
                *object,
            ),
            TypeView::Simple(_) => fill(
                ARGUMENT_CHANGED@,
                seq![snake_case_text(name), snake_case_text(p_name), o.name],
            ),
        })
    }
}

/// Writes the callbacks that the constructor of a list or tree takes.
fn write_model_arguments_decl(r: &mut String, name: &str, o: &Object)
    requires
        snake_ready(),
    ensures
        final(r)@ == old(r)@ + model_arguments_decl_text(name@, o@),
{
    broadcast use group_concat;

    let lc = snake_case(name);
    if o.object_type == ObjectType::List {
        emit2(r, ARGUMENT_NEW_DATA_LIST, lc.as_str(), o.name.as_str());
    } else if o.object_type == ObjectType::Tree {
        emit2(r, ARGUMENT_NEW_DATA_TREE, lc.as_str(), o.name.as_str());
    }
    if o.object_type != ObjectType::Object {
        emit4(
            r,
            ARGUMENT_MODEL,
            o.name.as_str(),
            index_parameter(o),
            lc.as_str(),
            index_parameter(o),
        );
    }
}

/// Writes the parameters of the constructor of `o`, which goes by
/// `name`: the C++ object, a callback for each property, or the
/// parameters for a property that is an object, and the callbacks of a
/// list or tree.
pub fn r_constructor_args_decl(r: &mut String, name: &str, o: &Object, conf: &Config)
    requires
        snake_ready(),
    ensures
        final(r)@ == old(r)@ + r_constructor_args_decl_text(name@, o@),
    decreases o,
{
    broadcast use group_concat;

    emit2(r, ARGUMENT_OBJECT, snake_case(name).as_str(), o.name.as_str());
    let ghost r0 = r@;
    let mut i: usize = 0;
    while i < o.properties.len()
        invariant
            i <= o.properties.len(),
            snake_ready(),
            r@ == r0 + r_constructor_args_decl_first_text(name@, o@, i as nat),
        decreases o.properties.len() - i,
    {
        let p_name = o.properties[i].0.as_str();
        match &o.properties[i].1.property_type {
            Type::Object(object) => {
                emit(r, ARGUMENT_SEPARATOR);
                r_constructor_args_decl(r, p_name, object, conf);
            },
            Type::Simple(_) => {
                emit3(
                    r,
                    ARGUMENT_CHANGED,
                    snake_case(name).as_str(),
                    snake_case(p_name).as_str(),
                    o.name.as_str(),
                );
            },
        }
        i = i + 1;
    }
    write_model_arguments_decl(r, name, o);
}

/// The statements that make the objects among the first `n` properties.
pub open spec fn r_constructor_args_objects_text(o: ObjectView, n: nat) -> Seq<char>
    decreases o, n,
{
    if n == 0 || n > o.properties.len() {
        empty()
    } else {
        r_constructor_args_objects_text(o, (n - 1) as nat) + (
        match o.properties[n - 1].1.property_type {
            TypeView::Object(object) => r_constructor_args_text(o.properties[n - 1].0, *object),
            TypeView::Simple(_) => empty(),
        })
    }
}

/// The callbacks of the emitter for the first `n` properties; an object
/// has none.
pub open spec fn emitter_init_changed_text(name: Seq<char>, o: ObjectView, n: nat) -> Seq<char>
    decreases n,
{
    if n == 0 {
        empty()
    } else {
        let p = o.properties[n - 1];
        emitter_init_changed_text(name, o, (n - 1) as nat) + (if p.1.property_type is Object {
            empty()
        } else {
            fill(EMITTER_INIT_CHANGED@, seq![snake_case_text(p.0), snake_case_text(name)])
        })
    }
}

/// The objects among the first `n` properties as they are handed to the
/// constructor of `o`.
pub open spec fn object_init_members_text(o: ObjectView, n: nat) -> Seq<char>
    decreases n,
{
    if n == 0 {
        empty()
    } else {
        let p = o.properties[n - 1];
        object_init_members_text(o, (n - 1) as nat) + (if p.1.property_type is Object {
            fill(OBJECT_INIT_MEMBER@, seq![snake_case_text(p.0)])
        } else {
            empty()
        })
    }
}

/// The name of the kind of model that a list or tree is.
pub open spec fn model_kind_text(o: ObjectView) -> Seq<char> {
    if o.object_type == ObjectType::List {
        "List"@
    } else {
        "Tree"@
    }
}

/// The statements that make the emitter and the model of `o` and then
/// `o` itself.
pub open spec fn object_init_text(name: Seq<char>, o: ObjectView) -> Seq<char> {
    let lc = snake_case_text(name);
    fill(EMITTER_INIT_OPEN@, seq![lc, o.name]) + emitter_init_changed_text(
        name,
        o,
        o.properties.len(),
    ) + (if o.object_type != ObjectType::Object {
        fill(EMITTER_INIT_NEW_DATA@, seq![lc]) + fill(MODEL_INIT@, seq![o.name, model_kind_text(o), lc])
    } else {
        empty()
    }) + fill(
        OBJECT_INIT@,
        seq![lc, o.name, if o.object_type != ObjectType::Object {
            ", model"@
        } else {
            empty()
        }],
    ) + object_init_members_text(o, o.properties.len()) + OBJECT_INIT_CLOSE@
}

/// The statements that make `o`, which goes by `name`, after the
/// objects among its properties.
pub open spec fn r_constructor_args_text(name: Seq<char>, o: ObjectView) -> Seq<char>
    decreases o,
{
    r_constructor_args_objects_text(o, o.properties.len()) + object_init_text(name, o)
}

/// Writes the callbacks of the emitter for the properties; an object
/// has none.
fn write_emitter_init_changed(r: &mut String, name: &str, o: &Object)
    requires
        snake_ready(),
    ensures
        final(r)@ == old(r)@ + emitter_init_changed_text(name@, o@, o@.properties.len()),
{
    broadcast use group_concat;

    let ghost r0 = r@;
    let mut i: usize = 0;
    while i < o.properties.len()
        invariant
            i <= o.properties.len(),
            snake_ready(),
            r@ == r0 + emitter_init_changed_text(name@, o@, i as nat),
        decreases o.properties.len() - i,
    {
        if !o.properties[i].1.is_object() {
            emit2(
                r,
                EMITTER_INIT_CHANGED,
                snake_case(o.properties[i].0.as_str()).as_str(),
                snake_case(name).as_str(),
            );
        }
        i = i + 1;
    }
}

/// Writes the objects among the properties as they are handed to the
/// constructor of `o`.
fn write_object_init_members(r: &mut String, o: &Object)
    requires
        snake_ready(),
    ensures
        final(r)@ == old(r)@ + object_init_members_text(o@, o@.properties.len()),
{
    broadcast use group_concat;

    let ghost r0 = r@;
    let mut i: usize = 0;
    while i < o.properties.len()
        invariant
            i <= o.properties.len(),
            snake_ready(),
            r@ == r0 + object_init_members_text(o@, i as nat),
        decreases o.properties.len() - i,
    {
        if o.properties[i].1.is_object() {
            emit1(r, OBJECT_INIT_MEMBER, snake_case(o.properties[i].0.as_str()).as_str());
        }
        i = i + 1;
    }
}

/// Writes the statements that make the emitter and the model of `o` and
/// then `o` itself.
fn write_object_init(r: &mut String, name: &str, o: &Object)
    requires
        snake_ready(),
    ensures
        final(r)@ == old(r)@ + object_init_text(name@, o@),
{
    broadcast use group_concat;

    let lc = snake_case(name);
    emit2(r, EMITTER_INIT_OPEN, lc.as_str(), o.name.as_str());
    write_emitter_init_changed(r, name, o);
    let mut model = String::new();
    if o.object_type != ObjectType::Object {
        emit1(r, EMITTER_INIT_NEW_DATA, lc.as_str());
        let kind = if o.object_type == ObjectType::List {
            "List"
        } else {
            "Tree"
        };
        model.append(", model");
        emit3(r, MODEL_INIT, o.name.as_str(), kind, lc.as_str());
    }
    emit3(r, OBJECT_INIT, lc.as_str(), o.name.as_str(), model.as_str());
    write_object_init_members(r, o);
    emit(r, OBJECT_INIT_CLOSE);
}

/// Writes the statements that make `o`, which goes by `name`, after the
/// objects among its properties.
pub fn r_constructor_args(r: &mut String, name: &str, o: &Object, conf: &Config)
    requires
        snake_ready(),
    ensures
        final(r)@ == old(r)@ + r_constructor_args_text(name@, o@),
    decreases o,
{
    broadcast use group_concat;

    let ghost r0 = r@;
    let mut i: usize = 0;
    while i < o.properties.len()
        invariant
            i <= o.properties.len(),
            snake_ready(),
            r@ == r0 + r_constructor_args_objects_text(o@, i as nat),
        decreases o.properties.len() - i,
    {
        match &o.properties[i].1.property_type {
            Type::Object(object) => {
                r_constructor_args(r, o.properties[i].0.as_str(), object, conf);
            },
            Type::Simple(_) => {},
        }
        i = i + 1;
    }
    write_object_init(r, name, o);
}

} // verus!
