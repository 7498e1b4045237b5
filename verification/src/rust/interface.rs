//! The Rust interface of one object: the emitter, the trait that an
//! implementation fulfils, and the functions of the C interface.
use crate::configuration::{
    Config, Function, FunctionView, ItemProperty, ItemPropertyView, Object, ObjectType, ObjectView,
    Property, PropertyView, simple_is_complex, simple_name, simple_rust_type, type_is_complex,
    type_name_text, type_rust_type,
};
use crate::configuration_private::{
    ItemPropertyPrivate, PropertyPrivate, SimpleTypePrivate, TypeName, TypePrivate,
};
use crate::cpp::declarations::{base_name, base_name_text};
use crate::rust::{
    rust_c_type, rust_c_type_text, rust_item_return_type_text, rust_item_type_text,
    rust_return_type, rust_return_type_, rust_return_type_text, rust_type, rust_type_,
    rust_type_text,
};
use crate::rust::constructor::{
    model_kind_text, r_constructor_args, r_constructor_args_decl, r_constructor_args_decl_text,
    r_constructor_args_text,
};
use crate::rust::function::{function_text, write_function};
use crate::rust::templates::{
    DATA_COMPLEX, DATA_OPTIONAL_COMPLEX, DATA_VALUE, EMITTER_CHANGED, EMITTER_CHANGED_FN,
    EMITTER_CLEAR, EMITTER_CLONE_CHANGED, EMITTER_CLONE_NEW_DATA, EMITTER_CLONE_OPEN,
    EMITTER_NEW_DATA_FN_LIST, EMITTER_NEW_DATA_FN_TREE, EMITTER_NEW_DATA_LIST,
    EMITTER_NEW_DATA_TREE, EMITTER_OPEN, GET_COMPLEX, GET_COMPLEX_BY_FUNCTION, GET_OBJECT,
    GET_OPTIONAL, GET_OPTIONAL_COMPLEX, GET_VALUE, LIST_FUNCTIONS, MODEL_PARAMETER, MODEL_STRUCT,
    NEW_CLOSE_AND_FREE, NEW_OPEN, NEW_RETURN, SET_BYTES, SET_DATA_BYTES, SET_DATA_NONE,
    SET_DATA_STRING, SET_DATA_VALUE, SET_NONE, SET_OPTIONAL, SET_OPTIONAL_BYTES,
    SET_OPTIONAL_STRING, SET_STRING, SET_VALUE, TRAIT_FUNCTION, TRAIT_FUNCTION_ARGUMENT,
    TRAIT_GETTER, TRAIT_GETTER_BY_FUNCTION, TRAIT_ITEM_GETTER, TRAIT_ITEM_SETTER,
    TRAIT_ITEM_SETTER_BYTES, TRAIT_ITEM_SETTER_OPTIONAL_BYTES, TRAIT_LIST, TRAIT_NEW_CLOSE,
    TRAIT_NEW_OBJECT, TRAIT_OBJECT_GETTER, TRAIT_OBJECT_GETTER_MUT, TRAIT_OPEN, TRAIT_SETTER,
    TRAIT_SETTER_BYTES, TRAIT_SETTER_OPTIONAL_BYTES, TRAIT_TREE, TREE_FUNCTIONS,
};
use crate::text::{
    emit, emit1, emit2, emit3, emit4, emit5, emit6, emit7, emit8, empty, fill, group_concat,
    lemma_concat_assoc, lemma_concat_empty_right, lowercase,
};
use crate::util::{snake_case, snake_case_text, snake_ready};
use vstd::prelude::*;
use vstd::string::*;

verus! {

/// One line for each of the first `n` properties that is no object; the
/// template is filled with the name of the property in snake case and
/// the name of the object.
pub open spec fn changed_lines_text(t: Seq<char>, o: ObjectView, n: nat) -> Seq<char>
    decreases n,
{
    if n == 0 {
        empty()
    } else {
        let p = o.properties[n - 1];
        changed_lines_text(t, o, (n - 1) as nat) + (if p.1.property_type is Object {
            empty()
        } else {
            fill(t, seq![snake_case_text(p.0), o.name])
        })
    }
}

/// Writes one line for each of the properties that is no object; the
/// template is filled with the name of the property in snake case and
/// the name of the object.
fn write_changed_lines(r: &mut String, t: &str, o: &Object)
    requires
        snake_ready(),
    ensures
        final(r)@ == old(r)@ + changed_lines_text(t@, o@, o@.properties.len()),
{
    broadcast use group_concat;

    let ghost r0 = r@;
    let mut i: usize = 0;
    while i < o.properties.len()
        invariant
            i <= o.properties.len(),
            snake_ready(),
            r@ == r0 + changed_lines_text(t@, o@, i as nat),
        decreases o.properties.len() - i,
    {
        if !o.properties[i].1.is_object() {
            emit2(r, t, snake_case(o.properties[i].0.as_str()).as_str(), o.name.as_str());
        }
        i = i + 1;
    }
}

/// The emitter of an object: a structure with the C++ object and the
/// callbacks that tell it of changes.
pub open spec fn emitter_struct_text(o: ObjectView) -> Seq<char> {
    fill(EMITTER_OPEN@, seq![o.name]) + changed_lines_text(EMITTER_CHANGED@, o, o.properties.len())
        + (if o.object_type == ObjectType::List {
        fill(EMITTER_NEW_DATA_LIST@, seq![o.name])
    } else if o.object_type == ObjectType::Tree {
        fill(EMITTER_NEW_DATA_TREE@, seq![o.name])
    } else {
        empty()
    })
}

/// The functions of the emitter.
pub open spec fn emitter_impl_text(o: ObjectView) -> Seq<char> {
    fill(EMITTER_CLONE_OPEN@, seq![o.name]) + changed_lines_text(
        EMITTER_CLONE_CHANGED@,
        o,
        o.properties.len(),
    ) + (if o.object_type != ObjectType::Object {
        EMITTER_CLONE_NEW_DATA@
    } else {
        empty()
    }) + fill(EMITTER_CLEAR@, seq![o.name]) + changed_lines_text(
        EMITTER_CHANGED_FN@,
        o,
        o.properties.len(),
    ) + (if o.object_type == ObjectType::List {
        EMITTER_NEW_DATA_FN_LIST@
    } else if o.object_type == ObjectType::Tree {
        EMITTER_NEW_DATA_FN_TREE@
    } else {
        empty()
    })
}

/// Writes the emitter of an object: a structure with the C++ object and
/// the callbacks that tell it of changes.
fn write_emitter_struct(r: &mut String, o: &Object)
    requires
        snake_ready(),
    ensures
        final(r)@ == old(r)@ + emitter_struct_text(o@),
{
    broadcast use group_concat;

    emit1(r, EMITTER_OPEN, o.name.as_str());
    write_changed_lines(r, EMITTER_CHANGED, o);
    if o.object_type == ObjectType::List {
        emit1(r, EMITTER_NEW_DATA_LIST, o.name.as_str());
    } else if o.object_type == ObjectType::Tree {
        emit1(r, EMITTER_NEW_DATA_TREE, o.name.as_str());
    }
}

/// Writes the functions of the emitter.
fn write_emitter_impl(r: &mut String, o: &Object)
    requires
        snake_ready(),
    ensures
        final(r)@ == old(r)@ + emitter_impl_text(o@),
{
    broadcast use group_concat;

    emit1(r, EMITTER_CLONE_OPEN, o.name.as_str());
    write_changed_lines(r, EMITTER_CLONE_CHANGED, o);
    if o.object_type != ObjectType::Object {
        emit(r, EMITTER_CLONE_NEW_DATA);
    }
    emit1(r, EMITTER_CLEAR, o.name.as_str());
    write_changed_lines(r, EMITTER_CHANGED_FN, o);
    if o.object_type == ObjectType::List {
        emit(r, EMITTER_NEW_DATA_FN_LIST);
    } else if o.object_type == ObjectType::Tree {
        emit(r, EMITTER_NEW_DATA_FN_TREE);
    }
}

/// The text that stands for the parent in the functions of a tree's
/// model; a list has no parents.
pub open spec fn for_tree(o: ObjectView, text: Seq<char>) -> Seq<char> {
    if o.object_type == ObjectType::Tree {
        text
    } else {
        ""@
    }
}

/// The text that stands for the parent in the functions of a tree's
/// model; a list has no parents.
fn tree_text(o: &Object, text: &'static str) -> (r: &'static str)
    ensures
        r@ == for_tree(o@, text@),
{
    if o.object_type == ObjectType::Tree {
        text
    } else {
        ""
    }
}

/// The structure through which a list or tree tells the C++ model of
/// changes of its shape.
pub open spec fn model_struct_text(o: ObjectView) -> Seq<char> {
    if o.object_type != ObjectType::Object {
        fill(
            MODEL_STRUCT@,
            seq![
                o.name,
                model_kind_text(o),
                for_tree(o, " index: Option<usize>,"@),
                for_tree(o, " index.into(),"@),
                for_tree(o, " index: COption<usize>,"@),
                for_tree(o, " dest: Option<usize>,"@),
                for_tree(o, " dest.into(),"@),
                for_tree(o, " dest: COption<usize>,"@),
            ],
        )
    } else {
        empty()
    }
}

/// Writes the structure through which a list or tree tells the C++
/// model of changes of its shape.
fn write_model_struct(r: &mut String, o: &Object)
    ensures
        final(r)@ == old(r)@ + model_struct_text(o@),
{
    broadcast use group_concat;

    if o.object_type != ObjectType::Object {
        let kind = if o.object_type == ObjectType::List {
            "List"
        } else {
            "Tree"
        };
        emit8(
            r,
            MODEL_STRUCT,
            o.name.as_str(),
            kind,
            tree_text(o, " index: Option<usize>,"),
            tree_text(o, " index.into(),"),
            tree_text(o, " index: COption<usize>,"),
            tree_text(o, " dest: Option<usize>,"),
            tree_text(o, " dest.into(),"),
            tree_text(o, " dest: COption<usize>,"),
        );
    }
}

/// The objects among the first `n` properties as parameters of `new`.
pub open spec fn trait_new_objects_text(o: ObjectView, n: nat) -> Seq<char>
    decreases n,
{
    if n == 0 {
        empty()
    } else {
        let p = o.properties[n - 1];
        trait_new_objects_text(o, (n - 1) as nat) + (if p.1.property_type is Object {
            fill(TRAIT_NEW_OBJECT@, seq![snake_case_text(p.0), type_name_text(p.1.property_type)])
        } else {
            empty()
        })
    }
}

/// The head of the trait: the function that makes the object and the
/// one that hands out its emitter.
pub open spec fn trait_open_text(o: ObjectView) -> Seq<char> {
    fill(
        TRAIT_OPEN@,
        seq![o.name, if o.object_type != ObjectType::Object {
            fill(MODEL_PARAMETER@, seq![o.name, model_kind_text(o)])
        } else {
            empty()
        }],
    ) + trait_new_objects_text(o, o.properties.len()) + fill(TRAIT_NEW_CLOSE@, seq![o.name])
}

/// Writes the head of the trait: the function that makes the object and
/// the one that hands out its emitter.
fn write_trait_open(r: &mut String, o: &Object)
    requires
        snake_ready(),
    ensures
        final(r)@ == old(r)@ + trait_open_text(o@),
{
    broadcast use group_concat;

    let mut model_struct = String::new();
    if o.object_type != ObjectType::Object {
        let kind = if o.object_type == ObjectType::List {
            "List"
        } else {
            "Tree"
        };
        emit2(&mut model_struct, MODEL_PARAMETER, o.name.as_str(), kind);
    }
    emit2(r, TRAIT_OPEN, o.name.as_str(), model_struct.as_str());
    let ghost r0 = r@;
    let mut i: usize = 0;
    while i < o.properties.len()
        invariant
            i <= o.properties.len(),
            snake_ready(),
            r@ == r0 + trait_new_objects_text(o@, i as nat),
        decreases o.properties.len() - i,
    {
        let p = &o.properties[i].1;
        if p.is_object() {
            emit2(
                r,
                TRAIT_NEW_OBJECT,
                snake_case(o.properties[i].0.as_str()).as_str(),
                p.name_of_type(),
            );
        }
        i = i + 1;
    }
    emit1(r, TRAIT_NEW_CLOSE, o.name.as_str());
}

/// What the trait asks for one property: getters for an object, else a
/// getter and, where the property can be written, a setter.
pub open spec fn trait_property_text(name: Seq<char>, p: PropertyView) -> Seq<char> {
    let lc = lowercase(snake_case_text(name));
    if p.property_type is Object {
        fill(TRAIT_OBJECT_GETTER@, seq![lc, rust_type_text(p)]) + fill(
            TRAIT_OBJECT_GETTER_MUT@,
            seq![lc, rust_type_text(p)],
        )
    } else {
        fill(
            if p.rust_by_function {
                TRAIT_GETTER_BY_FUNCTION@
            } else {
                TRAIT_GETTER@
            },
            seq![lc, rust_return_type_text(p)],
        ) + (if p.write {
            if type_name_text(p.property_type) == "QByteArray"@ {
                fill(
                    if p.optional {
                        TRAIT_SETTER_OPTIONAL_BYTES@
                    } else {
                        TRAIT_SETTER_BYTES@
                    },
                    seq![lc],
                )
            } else {
                fill(TRAIT_SETTER@, seq![lc, rust_type_text(p)])
            }
        } else {
            empty()
        })
    }
}

/// What the trait asks for the first `n` properties.
pub open spec fn trait_properties_text(o: ObjectView, n: nat) -> Seq<char>
    decreases n,
{
    if n == 0 {
        empty()
    } else {
        trait_properties_text(o, (n - 1) as nat) + trait_property_text(
            o.properties[n - 1].0,
            o.properties[n - 1].1,
        )
    }
}

/// Writes what the trait asks for one property: getters for an object,
/// else a getter and, where the property can be written, a setter.
fn write_trait_property(r: &mut String, name: &str, p: &Property)
    requires
        snake_ready(),
    ensures
        final(r)@ == old(r)@ + trait_property_text(name@, p@),
{
    broadcast use group_concat;

    let lc = snake_case(name).as_str().to_lowercase();
    if p.is_object() {
        emit2(r, TRAIT_OBJECT_GETTER, lc.as_str(), rust_type(p).as_str());
        emit2(r, TRAIT_OBJECT_GETTER_MUT, lc.as_str(), rust_type(p).as_str());
    } else {
        if p.rust_by_function {
            emit2(r, TRAIT_GETTER_BY_FUNCTION, lc.as_str(), rust_return_type(p).as_str());
        } else {
            emit2(r, TRAIT_GETTER, lc.as_str(), rust_return_type(p).as_str());
        }
        if p.write {
            if p.name_of_type().eq("QByteArray") {
                if p.optional {
                    emit1(r, TRAIT_SETTER_OPTIONAL_BYTES, lc.as_str());
                } else {
                    emit1(r, TRAIT_SETTER_BYTES, lc.as_str());
                }
            } else {
                emit2(r, TRAIT_SETTER, lc.as_str(), rust_type(p).as_str());
            }
        }
    }
}

/// Writes what the trait asks for the properties.
fn write_trait_properties(r: &mut String, o: &Object)
    requires
        snake_ready(),
    ensures
        final(r)@ == old(r)@ + trait_properties_text(o@, o@.properties.len()),
{
    broadcast use group_concat;

    let ghost r0 = r@;
    let mut i: usize = 0;
    while i < o.properties.len()
        invariant
            i <= o.properties.len(),
            snake_ready(),
            r@ == r0 + trait_properties_text(o@, i as nat),
        decreases o.properties.len() - i,
    {
        write_trait_property(r, o.properties[i].0.as_str(), &o.properties[i].1);
        i = i + 1;
    }
}

/// The first `n` arguments as parameters of a function of the trait;
/// bytes come as a slice.
pub open spec fn trait_function_arguments_text(f: FunctionView, n: nat) -> Seq<char>
    decreases n,
{
    if n == 0 {
        empty()
    } else {
        let a = f.arguments[n - 1];
        trait_function_arguments_text(f, (n - 1) as nat) + fill(
            TRAIT_FUNCTION_ARGUMENT@,
            seq![a.name, if simple_name(a.argument_type) == "QByteArray"@ {
                "&[u8]"@
            } else {
                simple_rust_type(a.argument_type)
            }],
        )
    }
}

/// What the trait asks for one function.
pub open spec fn trait_function_text(name: Seq<char>, f: FunctionView) -> Seq<char> {
    fill(
        TRAIT_FUNCTION@,
        seq![
            snake_case_text(name),
            if f.mutable {
                "mut "@
            } else {
                ""@
            },
            trait_function_arguments_text(f, f.arguments.len()),
            simple_rust_type(f.return_type),
        ],
    )
}

/// What the trait asks for the first `n` functions.
pub open spec fn trait_functions_text(o: ObjectView, n: nat) -> Seq<char>
    decreases n,
{
    if n == 0 {
        empty()
    } else {
        trait_functions_text(o, (n - 1) as nat) + trait_function_text(
            o.functions[n - 1].0,
            o.functions[n - 1].1,
        )
    }
}

/// The first `n` arguments as parameters of a function of the trait;
/// bytes come as a slice.
fn trait_function_arguments(f: &Function) -> (r: String)
    ensures
        r@ == trait_function_arguments_text(f@, f@.arguments.len()),
{
    broadcast use group_concat;

    let mut s = String::new();
    let mut i: usize = 0;
    while i < f.arguments.len()
        invariant
            i <= f.arguments.len(),
            s@ == trait_function_arguments_text(f@, i as nat),
        decreases f.arguments.len() - i,
    {
        let a = &f.arguments[i];
        let t = if a.argument_type.name().eq("QByteArray") {
            "&[u8]"
        } else {
            a.argument_type.rust_type()
        };
        emit2(&mut s, TRAIT_FUNCTION_ARGUMENT, a.name.as_str(), t);
        i = i + 1;
    }
    s
}

/// Writes what the trait asks for the functions.
fn write_trait_functions(r: &mut String, o: &Object)
    requires
        snake_ready(),
    ensures
        final(r)@ == old(r)@ + trait_functions_text(o@, o@.functions.len()),
{
    broadcast use group_concat;

    let ghost r0 = r@;
    let mut i: usize = 0;
    while i < o.functions.len()
        invariant
            i <= o.functions.len(),
            snake_ready(),
            r@ == r0 + trait_functions_text(o@, i as nat),
        decreases o.functions.len() - i,
    {
        let f = &o.functions[i].1;
        emit4(
            r,
            TRAIT_FUNCTION,
            snake_case(o.functions[i].0.as_str()).as_str(),
            if f.mutable { "mut " } else { "" },
            trait_function_arguments(f).as_str(),
            f.return_type.rust_type(),
        );
        i = i + 1;
    }
}

/// What the trait asks for one item property.
pub open spec fn trait_item_text(name: Seq<char>, p: ItemPropertyView) -> Seq<char> {
    let lc = snake_case_text(name);
    fill(TRAIT_ITEM_GETTER@, seq![lc, rust_item_return_type_text(p)]) + (if p.write {
        if simple_name(p.item_property_type) == "QByteArray"@ {
            fill(
                if p.optional {
                    TRAIT_ITEM_SETTER_OPTIONAL_BYTES@
                } else {
                    TRAIT_ITEM_SETTER_BYTES@
                },
                seq![lc],
            )
        } else {
            fill(TRAIT_ITEM_SETTER@, seq![lc, rust_item_type_text(p)])
        }
    } else {
        empty()
    })
}

/// What the trait asks for the first `n` item properties.
pub open spec fn trait_items_text(o: ObjectView, n: nat) -> Seq<char>
    decreases n,
{
    if n == 0 {
        empty()
    } else {
        trait_items_text(o, (n - 1) as nat) + trait_item_text(
            o.item_properties[n - 1].0,
            o.item_properties[n - 1].1,
        )
    }
}

/// What the trait asks of a list or tree as a model.
pub open spec fn trait_model_text(o: ObjectView) -> Seq<char> {
    (if o.object_type == ObjectType::List {
        TRAIT_LIST@
    } else if o.object_type == ObjectType::Tree {
        TRAIT_TREE@
    } else {
        empty()
    }) + (if o.object_type != ObjectType::Object {
        trait_items_text(o, o.item_properties.len())
    } else {
        empty()
    })
}

/// Writes what the trait asks for one item property.
fn write_trait_item(r: &mut String, name: &str, ip: &ItemProperty)
    requires
        snake_ready(),
    ensures
        final(r)@ == old(r)@ + trait_item_text(name@, ip@),
{
    broadcast use group_concat;

    let lc = snake_case(name);
    emit2(r, TRAIT_ITEM_GETTER, lc.as_str(), rust_return_type_(ip).as_str());
    if ip.write {
        if ip.item_property_type.name().eq("QByteArray") {
            if ip.optional {
                emit1(r, TRAIT_ITEM_SETTER_OPTIONAL_BYTES, lc.as_str());
            } else {
                emit1(r, TRAIT_ITEM_SETTER_BYTES, lc.as_str());
            }
        } else {
            emit2(r, TRAIT_ITEM_SETTER, lc.as_str(), rust_type_(ip).as_str());
        }
    }
}

/// Writes what the trait asks of a list or tree as a model.
fn write_trait_model(r: &mut String, o: &Object)
    requires
        snake_ready(),
    ensures
        final(r)@ == old(r)@ + trait_model_text(o@),
{
    broadcast use group_concat;

    if o.object_type == ObjectType::List {
        emit(r, TRAIT_LIST);
    } else if o.object_type == ObjectType::Tree {
        emit(r, TRAIT_TREE);
    }
    if o.object_type != ObjectType::Object {
        let ghost r0 = r@;
        let mut i: usize = 0;
        while i < o.item_properties.len()
            invariant
                i <= o.item_properties.len(),
                snake_ready(),
                r@ == r0 + trait_items_text(o@, i as nat),
            decreases o.item_properties.len() - i,
        {
            write_trait_item(r, o.item_properties[i].0.as_str(), &o.item_properties[i].1);
            i = i + 1;
        }
    }
}

/// The trait that an implementation of the object fulfils.
pub open spec fn trait_text(o: ObjectView) -> Seq<char> {
    trait_open_text(o) + trait_properties_text(o, o.properties.len()) + trait_functions_text(
        o,
        o.functions.len(),
    ) + trait_model_text(o)
}

/// The C functions that make and free the object.
pub open spec fn new_and_free_text(o: ObjectView) -> Seq<char> {
    let lcname = snake_case_text(o.name);
    fill(NEW_OPEN@, seq![lcname]) + r_constructor_args_decl_text(lcname, o) + fill(
        NEW_RETURN@,
        seq![o.name],
    ) + r_constructor_args_text(lcname, o) + fill(NEW_CLOSE_AND_FREE@, seq![lcname, o.name])
}

/// Writes the C functions that make and free the object.
fn write_new_and_free(r: &mut String, o: &Object, conf: &Config)
    requires
        snake_ready(),
    ensures
        final(r)@ == old(r)@ + new_and_free_text(o@),
{
    broadcast use group_concat;

    let lcname = snake_case(o.name.as_str());
    emit1(r, NEW_OPEN, lcname.as_str());
    r_constructor_args_decl(r, lcname.as_str(), o, conf);
    emit1(r, NEW_RETURN, o.name.as_str());
    r_constructor_args(r, lcname.as_str(), o, conf);
    emit2(r, NEW_CLOSE_AND_FREE, lcname.as_str(), o.name.as_str());
}

/// The C functions that set a property whose value is text or bytes.
pub open spec fn complex_setter_text(
    string: Seq<char>,
    bytes: Seq<char>,
    p: PropertyView,
    base: Seq<char>,
    o: ObjectView,
    lc: Seq<char>,
) -> Seq<char> {
    if p.write && type_name_text(p.property_type) == "QString"@ {
        fill(string, seq![base, o.name, lc])
    } else if p.write {
        fill(bytes, seq![base, o.name, lc])
    } else {
        empty()
    }
}

/// The C functions that get and set one property.
pub open spec fn property_accessors_text(
    name: Seq<char>,
    p: PropertyView,
    o: ObjectView,
) -> Seq<char> {
    let base = base_name_text(snake_case_text(o.name), name);
    let lc = snake_case_text(name);
    let tname = type_name_text(p.property_type);
    (if p.property_type is Object {
        fill(GET_OBJECT@, seq![base, o.name, rust_type_text(p), lc])
    } else if type_is_complex(p.property_type) && !p.optional {
        fill(
            if p.rust_by_function {
                GET_COMPLEX_BY_FUNCTION@
            } else {
                GET_COMPLEX@
            },
            seq![base, o.name, tname, lc],
        ) + complex_setter_text(SET_STRING@, SET_BYTES@, p, base, o, lc)
    } else if type_is_complex(p.property_type) {
        fill(GET_OPTIONAL_COMPLEX@, seq![base, o.name, tname, lc]) + complex_setter_text(
            SET_OPTIONAL_STRING@,
            SET_OPTIONAL_BYTES@,
            p,
            base,
            o,
            lc,
        )
    } else if p.optional {
        fill(GET_OPTIONAL@, seq![base, o.name, type_rust_type(p.property_type), lc]) + (if p.write {
            fill(SET_OPTIONAL@, seq![base, o.name, type_rust_type(p.property_type), lc])
        } else {
            empty()
        })
    } else {
        fill(GET_VALUE@, seq![base, o.name, rust_type_text(p), lc]) + (if p.write {
            fill(SET_VALUE@, seq![base, o.name, rust_type_text(p), lc])
        } else {
            empty()
        })
    }) + (if p.write && p.optional {
        fill(SET_NONE@, seq![base, o.name, lc])
    } else {
        empty()
    })
}

/// The accessors of the first `n` properties.
pub open spec fn properties_accessors_text(o: ObjectView, n: nat) -> Seq<char>
    decreases n,
{
    if n == 0 {
        empty()
    } else {
        properties_accessors_text(o, (n - 1) as nat) + property_accessors_text(
            o.properties[n - 1].0,
            o.properties[n - 1].1,
            o,
        )
    }
}

/// Writes the C functions that set a property whose value is text or
/// bytes.
fn write_complex_setter(
    r: &mut String,
    string: &str,
    bytes: &str,
    p: &Property,
    base: &str,
    o: &Object,
    lc: &str,
)
    ensures
        final(r)@ == old(r)@ + complex_setter_text(string@, bytes@, p@, base@, o@, lc@),
{
    broadcast use group_concat;

    if p.write && p.name_of_type().eq("QString") {
        emit3(r, string, base, o.name.as_str(), lc);
    } else if p.write {
        emit3(r, bytes, base, o.name.as_str(), lc);
    }
}

/// Writes the C functions that get and set one property.
fn write_property_accessors(r: &mut String, name: &str, p: &Property, o: &Object)
    requires
        snake_ready(),
    ensures
        final(r)@ == old(r)@ + property_accessors_text(name@, p@, o@),
{
    broadcast use group_concat;

    let base = base_name(snake_case(o.name.as_str()).as_str(), name);
    let lc = snake_case(name);
    if p.is_object() {
        emit4(r, GET_OBJECT, base.as_str(), o.name.as_str(), rust_type(p).as_str(), lc.as_str());
    } else if p.is_complex() && !p.optional {
        if p.rust_by_function {
            emit4(
                r,
                GET_COMPLEX_BY_FUNCTION,
                base.as_str(),
                o.name.as_str(),
                p.name_of_type(),
                lc.as_str(),
            );
        } else {
            emit4(r, GET_COMPLEX, base.as_str(), o.name.as_str(), p.name_of_type(), lc.as_str());
        }
        write_complex_setter(r, SET_STRING, SET_BYTES, p, base.as_str(), o, lc.as_str());
    } else if p.is_complex() {
        emit4(
            r,
            GET_OPTIONAL_COMPLEX,
            base.as_str(),
            o.name.as_str(),
            p.name_of_type(),
            lc.as_str(),
        );
        write_complex_setter(
            r,
            SET_OPTIONAL_STRING,
            SET_OPTIONAL_BYTES,
            p,
            base.as_str(),
            o,
            lc.as_str(),
        );
    } else if p.optional {
        emit4(
            r,
            GET_OPTIONAL,
            base.as_str(),
            o.name.as_str(),
            p.property_type.rust_type(),
            lc.as_str(),
        );
        if p.write {
            emit4(
                r,
                SET_OPTIONAL,
                base.as_str(),
                o.name.as_str(),
                p.property_type.rust_type(),
                lc.as_str(),
            );
        }
    } else {
        emit4(r, GET_VALUE, base.as_str(), o.name.as_str(), rust_type(p).as_str(), lc.as_str());
        if p.write {
            emit4(r, SET_VALUE, base.as_str(), o.name.as_str(), rust_type(p).as_str(), lc.as_str());
        }
    }
    if p.write && p.optional {
        emit3(r, SET_NONE, base.as_str(), o.name.as_str(), lc.as_str());
    }
}

/// Writes the accessors of the properties.
fn write_properties_accessors(r: &mut String, o: &Object)
    requires
        snake_ready(),
    ensures
        final(r)@ == old(r)@ + properties_accessors_text(o@, o@.properties.len()),
{
    let ghost r0 = r@;
    let mut i: usize = 0;
    proof {
        lemma_concat_empty_right(r0);
    }
    while i < o.properties.len()
        invariant
            i <= o.properties.len(),
            snake_ready(),
            r@ == r0 + properties_accessors_text(o@, i as nat),
        decreases o.properties.len() - i,
    {
        write_property_accessors(r, o.properties[i].0.as_str(), &o.properties[i].1, o);
        proof {
            lemma_concat_assoc(
                r0,
                properties_accessors_text(o@, i as nat),
                property_accessors_text(o@.properties[i as int].0, o@.properties[i as int].1, o@),
            );
        }
        i = i + 1;
    }
}

/// The C functions behind the first `n` functions.
pub open spec fn functions_text(o: ObjectView, n: nat) -> Seq<char>
    decreases n,
{
    if n == 0 {
        empty()
    } else {
        functions_text(o, (n - 1) as nat) + function_text(
            o.functions[n - 1].0,
            o.functions[n - 1].1,
            snake_case_text(o.name),
            o,
        )
    }
}

/// Writes the C functions behind the functions.
fn write_functions(r: &mut String, o: &Object)
    requires
        snake_ready(),
    ensures
        final(r)@ == old(r)@ + functions_text(o@, o@.functions.len()),
{
    let lcname = snake_case(o.name.as_str());
    let ghost r0 = r@;
    let mut i: usize = 0;
    proof {
        lemma_concat_empty_right(r0);
    }
    while i < o.functions.len()
        invariant
            i <= o.functions.len(),
            snake_ready(),
            lcname@ == snake_case_text(o@.name),
            r@ == r0 + functions_text(o@, i as nat),
        decreases o.functions.len() - i,
    {
        write_function(r, o.functions[i].0.as_str(), &o.functions[i].1, lcname.as_str(), o);
        proof {
            lemma_concat_assoc(
                r0,
                functions_text(o@, i as nat),
                function_text(o@.functions[i as int].0, o@.functions[i as int].1, lcname@, o@),
            );
        }
        i = i + 1;
    }
}

/// How the C functions of an item declare the parameter that tells
/// which item is meant.
pub open spec fn item_parameter_text(o: ObjectView) -> Seq<char> {
    if o.object_type == ObjectType::Tree {
        ", index: usize"@
    } else {
        ", row: c_int"@
    }
}

/// How the C functions of an item hand that parameter on.
pub open spec fn item_argument_text(o: ObjectView) -> Seq<char> {
    if o.object_type == ObjectType::Tree {
        "index"@
    } else {
        "to_usize(row)"@
    }
}

/// The C function that sets the value of an item property.
pub open spec fn item_setter_text(
    name: Seq<char>,
    p: ItemPropertyView,
    o: ObjectView,
) -> Seq<char> {
    let lcname = snake_case_text(o.name);
    let lc = snake_case_text(name);
    let tname = simple_name(p.item_property_type);
    let index_decl = item_parameter_text(o);
    let index = item_argument_text(o);
    if tname == "QString"@ {
        fill(
            SET_DATA_STRING@,
            seq![lcname, lc, o.name, index_decl, index, if p.optional {
                "Some(v)"@
            } else {
                "v"@
            }],
        )
    } else if tname == "QByteArray"@ {
        fill(
            SET_DATA_BYTES@,
            seq![lcname, lc, o.name, index_decl, index, if p.optional {
                "Some(slice)"@
            } else {
                "slice"@
            }],
        )
    } else {
        fill(
            SET_DATA_VALUE@,
            seq![
                lcname,
                lc,
                o.name,
                index_decl,
                simple_rust_type(p.item_property_type),
                index,
                if p.optional {
                    "Some(v)"@
                } else {
                    "v"@
                },
            ],
        )
    }
}

/// The C functions that get and set the value of one item property.
pub open spec fn item_accessors_text(
    name: Seq<char>,
    p: ItemPropertyView,
    o: ObjectView,
) -> Seq<char> {
    let lcname = snake_case_text(o.name);
    let lc = snake_case_text(name);
    let tname = simple_name(p.item_property_type);
    let index_decl = item_parameter_text(o);
    let index = item_argument_text(o);
    (if simple_is_complex(p.item_property_type) && !p.optional {
        fill(DATA_COMPLEX@, seq![lcname, lc, o.name, index_decl, tname, index])
    } else if simple_is_complex(p.item_property_type) {
        fill(DATA_OPTIONAL_COMPLEX@, seq![lcname, lc, o.name, index_decl, tname, index])
    } else {
        fill(
            DATA_VALUE@,
            seq![lcname, lc, o.name, index_decl, rust_c_type_text(p), index, if p.optional {
                ".into()"@
            } else {
                ""@
            }],
        )
    }) + (if p.write {
        item_setter_text(name, p, o)
    } else {
        empty()
    }) + (if p.write && p.optional {
        fill(SET_DATA_NONE@, seq![lcname, lc, o.name, index_decl, index])
    } else {
        empty()
    })
}

/// The accessors of the first `n` item properties.
pub open spec fn items_accessors_text(o: ObjectView, n: nat) -> Seq<char>
    decreases n,
{
    if n == 0 {
        empty()
    } else {
        items_accessors_text(o, (n - 1) as nat) + item_accessors_text(
            o.item_properties[n - 1].0,
            o.item_properties[n - 1].1,
            o,
        )
    }
}

/// The C functions of a list or tree as a model.
pub open spec fn model_functions_text(o: ObjectView) -> Seq<char> {
    (if o.object_type == ObjectType::List {
        fill(LIST_FUNCTIONS@, seq![o.name, snake_case_text(o.name)])
    } else if o.object_type == ObjectType::Tree {
        fill(TREE_FUNCTIONS@, seq![o.name, snake_case_text(o.name)])
    } else {
        empty()
    }) + (if o.object_type != ObjectType::Object {
        items_accessors_text(o, o.item_properties.len())
    } else {
        empty()
    })
}

/// Writes the C function that sets the value of an item property.
fn write_item_setter(r: &mut String, name: &str, ip: &ItemProperty, o: &Object)
    requires
        snake_ready(),
    ensures
        final(r)@ == old(r)@ + item_setter_text(name@, ip@, o@),
{
    broadcast use group_concat;

    let lcname = snake_case(o.name.as_str());
    let lc = snake_case(name);
    let tree = o.object_type == ObjectType::Tree;
    let index_decl = if tree { ", index: usize" } else { ", row: c_int" };
    let index = if tree { "index" } else { "to_usize(row)" };
    let val = if ip.optional { "Some(v)" } else { "v" };
    if ip.name_of_type().eq("QString") {
        emit6(
            r,
            SET_DATA_STRING,
            lcname.as_str(),
            lc.as_str(),
            o.name.as_str(),
            index_decl,
            index,
            val,
        );
    } else if ip.name_of_type().eq("QByteArray") {
        emit6(
            r,
            SET_DATA_BYTES,
            lcname.as_str(),
            lc.as_str(),
            o.name.as_str(),
            index_decl,
            index,
            if ip.optional { "Some(slice)" } else { "slice" },
        );
    } else {
        emit7(
            r,
            SET_DATA_VALUE,
            lcname.as_str(),
            lc.as_str(),
            o.name.as_str(),
            index_decl,
            ip.item_property_type.rust_type(),
            index,
            val,
        );
    }
}

/// Writes the C functions that get and set the value of one item
/// property.
fn write_item_accessors(r: &mut String, name: &str, ip: &ItemProperty, o: &Object)
    requires
        snake_ready(),
    ensures
        final(r)@ == old(r)@ + item_accessors_text(name@, ip@, o@),
{
    broadcast use group_concat;

    let lcname = snake_case(o.name.as_str());
    let lc = snake_case(name);
    let tree = o.object_type == ObjectType::Tree;
    let index_decl = if tree { ", index: usize" } else { ", row: c_int" };
    let index = if tree { "index" } else { "to_usize(row)" };
    if ip.is_complex() && !ip.optional {
        emit6(
            r,
            DATA_COMPLEX,
            lcname.as_str(),
            lc.as_str(),
            o.name.as_str(),
            index_decl,
            ip.name_of_type(),
            index,
        );
    } else if ip.is_complex() {
        emit6(
            r,
            DATA_OPTIONAL_COMPLEX,
            lcname.as_str(),
            lc.as_str(),
            o.name.as_str(),
            index_decl,
            ip.name_of_type(),
            index,
        );
    } else {
        emit7(
            r,
            DATA_VALUE,
            lcname.as_str(),
            lc.as_str(),
            o.name.as_str(),
            index_decl,
            rust_c_type(ip).as_str(),
            index,
            if ip.optional { ".into()" } else { "" },
        );
    }
    if ip.write {
        write_item_setter(r, name, ip, o);
    }
    if ip.write && ip.optional {
        emit5(r, SET_DATA_NONE, lcname.as_str(), lc.as_str(), o.name.as_str(), index_decl, index);
    }
}

/// Writes the accessors of the item properties.
fn write_items_accessors(r: &mut String, o: &Object)
    requires
        snake_ready(),
    ensures
        final(r)@ == old(r)@ + items_accessors_text(o@, o@.item_properties.len()),
{
    let ghost r0 = r@;
    let mut i: usize = 0;
    proof {
        lemma_concat_empty_right(r0);
    }
    while i < o.item_properties.len()
        invariant
            i <= o.item_properties.len(),
            snake_ready(),
            r@ == r0 + items_accessors_text(o@, i as nat),
        decreases o.item_properties.len() - i,
    {
        write_item_accessors(r, o.item_properties[i].0.as_str(), &o.item_properties[i].1, o);
        proof {
            lemma_concat_assoc(
                r0,
                items_accessors_text(o@, i as nat),
                item_accessors_text(
                    o@.item_properties[i as int].0,
                    o@.item_properties[i as int].1,
                    o@,
                ),
            );
        }
        i = i + 1;
    }
}

/// Writes the C functions of a list or tree as a model.
fn write_model_functions(r: &mut String, o: &Object)
    requires
        snake_ready(),
    ensures
        final(r)@ == old(r)@ + model_functions_text(o@),
{
    broadcast use group_concat;

    if o.object_type == ObjectType::List {
        emit2(r, LIST_FUNCTIONS, o.name.as_str(), snake_case(o.name.as_str()).as_str());
    } else if o.object_type == ObjectType::Tree {
        emit2(r, TREE_FUNCTIONS, o.name.as_str(), snake_case(o.name.as_str()).as_str());
    }
    if o.object_type != ObjectType::Object {
        write_items_accessors(r, o);
    }
}

/// Writes the trait that an implementation of the object fulfils.
fn write_trait(r: &mut String, o: &Object)
    requires
        snake_ready(),
    ensures
        final(r)@ == old(r)@ + trait_text(o@),
{
    broadcast use group_concat;

    write_trait_open(r, o);
    write_trait_properties(r, o);
    write_trait_functions(r, o);
    write_trait_model(r, o);
}

/// The Rust interface of one object.
pub open spec fn rust_interface_object_text(o: ObjectView) -> Seq<char> {
    emitter_struct_text(o) + emitter_impl_text(o) + model_struct_text(o) + trait_text(o)
        + new_and_free_text(o) + properties_accessors_text(o, o.properties.len()) + functions_text(
        o,
        o.functions.len(),
    ) + model_functions_text(o)
}

/// Writes the Rust interface of one object.
pub fn write_rust_interface_object(r: &mut String, o: &Object, conf: &Config)
    requires
        snake_ready(),
    ensures
        final(r)@ == old(r)@ + rust_interface_object_text(o@),
{
    broadcast use group_concat;

    write_emitter_struct(r, o);
    write_emitter_impl(r, o);
    write_model_struct(r, o);
    write_trait(r, o);
    write_new_and_free(r, o, conf);
    write_properties_accessors(r, o);
    write_functions(r, o);
    write_model_functions(r, o);
}

} // verus!
