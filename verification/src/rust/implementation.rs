//! The first implementation of an object, for its author to fill in.
use crate::configuration::{
    ItemProperty, ItemPropertyView, Object, ObjectType, ObjectView, Property, PropertyView,
    simple_is_complex, simple_rust_type, SimpleType, Type, type_is_complex, type_name_text,
    TypeView,
};
use crate::configuration_private::{
    ItemPropertyPrivate, PropertyPrivate, SimpleTypePrivate, TypeName,
};
use crate::rust::{
    rust_item_return_type_text, rust_item_type_text, rust_return_type, rust_return_type_,
    rust_return_type_text, rust_type, rust_type_, rust_type_init, rust_type_init_text,
    rust_type_text,
};
use crate::rust::templates::{
    BLOCK_CLOSE, IMPL_GETTER_BY_FUNCTION, IMPL_GETTER_CLOSE, IMPL_GETTER_COMPLEX, IMPL_GETTER_OPEN,
    IMPL_GETTER_OPTIONAL_COMPLEX, IMPL_GETTER_VALUE, IMPL_ITEM_GETTER_COMPLEX,
    IMPL_ITEM_GETTER_OPEN, IMPL_ITEM_GETTER_OPTIONAL_COMPLEX, IMPL_ITEM_GETTER_VALUE,
    IMPL_ITEM_SETTER, IMPL_ITEM_SETTER_BYTES, IMPL_ITEM_SETTER_OPTIONAL_BYTES, IMPL_OBJECT_GETTERS,
    IMPL_OPEN, IMPL_ROW_COUNT_LIST, IMPL_SETTER, IMPL_TREE, ITEM_DERIVE, ITEM_FIELD,
    ITEM_FIELD_OPTIONAL, ITEM_OPEN, LIST_FIELD, MODEL_FIELD_LIST, MODEL_FIELD_TREE,
    MODEL_PARAMETER_LIST, MODEL_PARAMETER_TREE, NEW_CLOSE_AND_EMIT, NEW_FIELD, NEW_LIST, NEW_MODEL,
    NEW_OBJECT_FIELD, OBJECT_FIELD, OBJECT_OPEN, OBJECT_PARAMETER, STRUCT_CLOSE,
};
use crate::text::{emit, emit1, emit2, emit3, empty, fill, group_concat};
use crate::util::{snake_case, snake_case_text, snake_ready};
use vstd::prelude::*;
use vstd::string::*;

verus! {

/// The fields of an item for the first `n` item properties.
pub open spec fn item_fields_text(o: ObjectView, n: nat) -> Seq<char>
    decreases n,
{
    if n == 0 {
        empty()
    } else {
        let p = o.item_properties[n - 1];
        item_fields_text(o, (n - 1) as nat) + fill(
            if p.1.optional {
                ITEM_FIELD_OPTIONAL@
            } else {
                ITEM_FIELD@
            },
            seq![snake_case_text(p.0), simple_rust_type(p.1.item_property_type)],
        )
    }
}

/// The structure that holds one row of a list or one node of a tree.
pub open spec fn item_struct_text(o: ObjectView) -> Seq<char> {
    if o.object_type != ObjectType::Object {
        ITEM_DERIVE@ + fill(ITEM_OPEN@, seq![o.name]) + item_fields_text(o, o.item_properties.len())
            + STRUCT_CLOSE@
    } else {
        empty()
    }
}

/// Writes the structure that holds one row of a list or one node of a
/// tree.
fn write_item_struct(r: &mut String, o: &Object)
    requires
        snake_ready(),
    ensures
        final(r)@ == old(r)@ + item_struct_text(o@),
{
    broadcast use group_concat;

    if o.object_type != ObjectType::Object {
        emit(r, ITEM_DERIVE);
        emit1(r, ITEM_OPEN, o.name.as_str());
        let ghost r0 = r@;
        let mut i: usize = 0;
        while i < o.item_properties.len()
            invariant
                i <= o.item_properties.len(),
                snake_ready(),
                r@ == r0 + item_fields_text(o@, i as nat),
            decreases o.item_properties.len() - i,
        {
            let ip = &o.item_properties[i].1;
            let lc = snake_case(o.item_properties[i].0.as_str());
            if ip.optional {
                emit2(r, ITEM_FIELD_OPTIONAL, lc.as_str(), ip.item_property_type.rust_type());
            } else {
                emit2(r, ITEM_FIELD, lc.as_str(), ip.item_property_type.rust_type());
            }
            i = i + 1;
        }
        emit(r, STRUCT_CLOSE);
    }
}

/// The fields of the object for the first `n` properties.
pub open spec fn object_fields_text(o: ObjectView, n: nat) -> Seq<char>
    decreases n,
{
    if n == 0 {
        empty()
    } else {
        let p = o.properties[n - 1];
        object_fields_text(o, (n - 1) as nat) + fill(
            OBJECT_FIELD@,
            seq![snake_case_text(p.0), rust_type_text(p.1)],
        )
    }
}

/// The structure of the object: its emitter, its model, a field for each
/// property and the items of a list or tree.
pub open spec fn object_struct_text(o: ObjectView) -> Seq<char> {
    fill(OBJECT_OPEN@, seq![o.name]) + (if o.object_type == ObjectType::List {
        fill(MODEL_FIELD_LIST@, seq![o.name])
    } else if o.object_type == ObjectType::Tree {
        fill(MODEL_FIELD_TREE@, seq![o.name])
    } else {
        empty()
    }) + object_fields_text(o, o.properties.len()) + (if o.object_type != ObjectType::Object {
        fill(LIST_FIELD@, seq![o.name])
    } else {
        empty()
    }) + STRUCT_CLOSE@
}

/// Writes the structure of the object: its emitter, its model, a field
/// for each property and the items of a list or tree.
fn write_object_struct(r: &mut String, o: &Object)
    requires
        snake_ready(),
    ensures
        final(r)@ == old(r)@ + object_struct_text(o@),
{
    broadcast use group_concat;

    emit1(r, OBJECT_OPEN, o.name.as_str());
    if o.object_type == ObjectType::List {
        emit1(r, MODEL_FIELD_LIST, o.name.as_str());
    } else if o.object_type == ObjectType::Tree {
        emit1(r, MODEL_FIELD_TREE, o.name.as_str());
    }
    let ghost r0 = r@;
    let mut i: usize = 0;
    while i < o.properties.len()
        invariant
            i <= o.properties.len(),
            snake_ready(),
            r@ == r0 + object_fields_text(o@, i as nat),
        decreases o.properties.len() - i,
    {
        let lc = snake_case(o.properties[i].0.as_str());
        emit2(r, OBJECT_FIELD, lc.as_str(), rust_type(&o.properties[i].1).as_str());
        i = i + 1;
    }
    if o.object_type != ObjectType::Object {
        emit1(r, LIST_FIELD, o.name.as_str());
    }
    emit(r, STRUCT_CLOSE);
}

/// The objects among the first `n` properties as parameters of `new`.
pub open spec fn object_parameters_text(o: ObjectView, n: nat) -> Seq<char>
    decreases n,
{
    if n == 0 {
        empty()
    } else {
        let p = o.properties[n - 1];
        object_parameters_text(o, (n - 1) as nat) + (if p.1.property_type is Object {
            fill(OBJECT_PARAMETER@, seq![p.0, type_name_text(p.1.property_type)])
        } else {
            empty()
        })
    }
}

/// What `new` takes besides the emitter: the model of a list or tree,
/// and the objects among the properties.
pub open spec fn new_parameters_text(o: ObjectView) -> Seq<char> {
    (if o.object_type == ObjectType::List {
        fill(MODEL_PARAMETER_LIST@, seq![o.name])
    } else if o.object_type == ObjectType::Tree {
        fill(MODEL_PARAMETER_TREE@, seq![o.name])
    } else {
        empty()
    }) + object_parameters_text(o, o.properties.len())
}

/// What `new` takes besides the emitter: the model of a list or tree,
/// and the objects among the properties.
fn new_parameters(o: &Object) -> (r: String)
    ensures
        r@ == new_parameters_text(o@),
{
    broadcast use group_concat;

    let mut s = String::new();
    if o.object_type == ObjectType::List {
        emit1(&mut s, MODEL_PARAMETER_LIST, o.name.as_str());
    } else if o.object_type == ObjectType::Tree {
        emit1(&mut s, MODEL_PARAMETER_TREE, o.name.as_str());
    }
    let ghost s0 = s@;
    let mut i: usize = 0;
    while i < o.properties.len()
        invariant
            i <= o.properties.len(),
            s@ == s0 + object_parameters_text(o@, i as nat),
        decreases o.properties.len() - i,
    {
        let p = &o.properties[i].1;
        if p.is_object() {
            emit2(&mut s, OBJECT_PARAMETER, o.properties[i].0.as_str(), p.name_of_type());
        }
        i = i + 1;
    }
    s
}

/// The fields as `new` fills them, for the first `n` properties.
pub open spec fn new_fields_text(o: ObjectView, n: nat) -> Seq<char>
    decreases n,
{
    if n == 0 {
        empty()
    } else {
        let p = o.properties[n - 1];
        new_fields_text(o, (n - 1) as nat) + (if p.1.property_type is Object {
            fill(NEW_OBJECT_FIELD@, seq![snake_case_text(p.0)])
        } else {
            fill(NEW_FIELD@, seq![snake_case_text(p.0), rust_type_init_text(p.1)])
        })
    }
}

/// The function `new` and the one that hands out the emitter.
pub open spec fn new_text(o: ObjectView) -> Seq<char> {
    fill(IMPL_OPEN@, seq![o.name, new_parameters_text(o)]) + (if o.object_type
        != ObjectType::Object {
        NEW_MODEL@ + NEW_LIST@
    } else {
        empty()
    }) + new_fields_text(o, o.properties.len()) + fill(NEW_CLOSE_AND_EMIT@, seq![o.name])
}

/// Writes the function `new` and the one that hands out the emitter.
fn write_new(r: &mut String, o: &Object)
    requires
        snake_ready(),
    ensures
        final(r)@ == old(r)@ + new_text(o@),
{
    broadcast use group_concat;

    emit2(r, IMPL_OPEN, o.name.as_str(), new_parameters(o).as_str());
    if o.object_type != ObjectType::Object {
        emit(r, NEW_MODEL);
        emit(r, NEW_LIST);
    }
    let ghost r0 = r@;
    let mut i: usize = 0;
    while i < o.properties.len()
        invariant
            i <= o.properties.len(),
            snake_ready(),
            r@ == r0 + new_fields_text(o@, i as nat),
        decreases o.properties.len() - i,
    {
        let p = &o.properties[i].1;
        let lc = snake_case(o.properties[i].0.as_str());
        if p.is_object() {
            emit1(r, NEW_OBJECT_FIELD, lc.as_str());
        } else {
            emit2(r, NEW_FIELD, lc.as_str(), rust_type_init(p));
        }
        i = i + 1;
    }
    emit1(r, NEW_CLOSE_AND_EMIT, o.name.as_str());
}

/// Whether the values of the property are bytes.
pub open spec fn is_bytes(p: PropertyView) -> bool {
    p.property_type == TypeView::Simple(SimpleType::QByteArray)
}

/// Whether the values of the property are bytes.
fn property_is_bytes(p: &Property) -> (r: bool)
    ensures
        r == is_bytes(p@),
{
    match &p.property_type {
        Type::Simple(SimpleType::QByteArray) => true,
        _ => false,
    }
}

/// The getter of a property.
pub open spec fn property_getter_text(lc: Seq<char>, p: PropertyView) -> Seq<char> {
    if p.property_type is Object {
        fill(IMPL_OBJECT_GETTERS@, seq![lc, rust_return_type_text(p)])
    } else if p.rust_by_function {
        fill(IMPL_GETTER_BY_FUNCTION@, seq![lc, rust_return_type_text(p)])
    } else {
        fill(IMPL_GETTER_OPEN@, seq![lc, rust_return_type_text(p)]) + fill(
            if type_is_complex(p.property_type) {
                if p.optional {
                    IMPL_GETTER_OPTIONAL_COMPLEX@
                } else {
                    IMPL_GETTER_COMPLEX@
                }
            } else {
                IMPL_GETTER_VALUE@
            },
            seq![lc],
        ) + IMPL_GETTER_CLOSE@
    }
}

/// The setter of a property; bytes are taken as a slice and copied.
pub open spec fn property_setter_text(lc: Seq<char>, p: PropertyView) -> Seq<char> {
    if !(p.property_type is Object) && p.write {
        fill(
            IMPL_SETTER@,
            if is_bytes(p) && p.optional {
                seq![lc, "Option<&[u8]>"@, ".map(|v| v.to_vec())"@]
            } else if is_bytes(p) {
                seq![lc, "&[u8]"@, ".to_vec()"@]
            } else {
                seq![lc, rust_type_text(p), ""@]
            },
        )
    } else {
        empty()
    }
}

/// The accessors of the first `n` properties.
pub open spec fn property_accessors_text(o: ObjectView, n: nat) -> Seq<char>
    decreases n,
{
    if n == 0 {
        empty()
    } else {
        let p = o.properties[n - 1];
        property_accessors_text(o, (n - 1) as nat) + property_getter_text(
            snake_case_text(p.0),
            p.1,
        ) + property_setter_text(snake_case_text(p.0), p.1)
    }
}

/// Writes the getter of a property.
fn write_property_getter(r: &mut String, lc: &str, p: &Property)
    ensures
        final(r)@ == old(r)@ + property_getter_text(lc@, p@),
{
    broadcast use group_concat;

    if p.is_object() {
        emit2(r, IMPL_OBJECT_GETTERS, lc, rust_return_type(p).as_str());
    } else if p.rust_by_function {
        emit2(r, IMPL_GETTER_BY_FUNCTION, lc, rust_return_type(p).as_str());
    } else {
        emit2(r, IMPL_GETTER_OPEN, lc, rust_return_type(p).as_str());
        if p.is_complex() {
            if p.optional {
                emit1(r, IMPL_GETTER_OPTIONAL_COMPLEX, lc);
            } else {
                emit1(r, IMPL_GETTER_COMPLEX, lc);
            }
        } else {
            emit1(r, IMPL_GETTER_VALUE, lc);
        }
        emit(r, IMPL_GETTER_CLOSE);
    }
}

/// Writes the setter of a property; bytes are taken as a slice and
/// copied.
fn write_property_setter(r: &mut String, lc: &str, p: &Property)
    ensures
        final(r)@ == old(r)@ + property_setter_text(lc@, p@),
{
    broadcast use group_concat;

    if !p.is_object() && p.write {
        let bytearray = property_is_bytes(p);
        if bytearray && p.optional {
            emit3(r, IMPL_SETTER, lc, "Option<&[u8]>", ".map(|v| v.to_vec())");
        } else if bytearray {
            emit3(r, IMPL_SETTER, lc, "&[u8]", ".to_vec()");
        } else {
            emit3(r, IMPL_SETTER, lc, rust_type(p).as_str(), "");
        }
    }
}

/// Writes the C functions that get and set one property.
fn write_property_accessors(r: &mut String, o: &Object)
    requires
        snake_ready(),
    ensures
        final(r)@ == old(r)@ + property_accessors_text(o@, o@.properties.len()),
{
    broadcast use group_concat;

    let ghost r0 = r@;
    let mut i: usize = 0;
    while i < o.properties.len()
        invariant
            i <= o.properties.len(),
            snake_ready(),
            r@ == r0 + property_accessors_text(o@, i as nat),
        decreases o.properties.len() - i,
    {
        let lc = snake_case(o.properties[i].0.as_str());
        write_property_getter(r, lc.as_str(), &o.properties[i].1);
        write_property_setter(r, lc.as_str(), &o.properties[i].1);
        i = i + 1;
    }
}

/// The accessors of one item property.
pub open spec fn item_accessors_text(lc: Seq<char>, p: ItemPropertyView) -> Seq<char> {
    let bytes = p.item_property_type == SimpleType::QByteArray;
    fill(IMPL_ITEM_GETTER_OPEN@, seq![lc, rust_item_return_type_text(p)]) + fill(
        if simple_is_complex(p.item_property_type) && p.optional {
            IMPL_ITEM_GETTER_OPTIONAL_COMPLEX@
        } else if simple_is_complex(p.item_property_type) {
            IMPL_ITEM_GETTER_COMPLEX@
        } else {
            IMPL_ITEM_GETTER_VALUE@
        },
        seq![lc],
    ) + IMPL_GETTER_CLOSE@ + (if p.write && bytes && p.optional {
        fill(IMPL_ITEM_SETTER_OPTIONAL_BYTES@, seq![lc])
    } else if p.write && bytes {
        fill(IMPL_ITEM_SETTER_BYTES@, seq![lc])
    } else if p.write {
        fill(IMPL_ITEM_SETTER@, seq![lc, rust_item_type_text(p)])
    } else {
        empty()
    })
}

/// The accessors of the first `n` item properties.
pub open spec fn items_accessors_text(o: ObjectView, n: nat) -> Seq<char>
    decreases n,
{
    if n == 0 {
        empty()
    } else {
        let p = o.item_properties[n - 1];
        items_accessors_text(o, (n - 1) as nat) + item_accessors_text(snake_case_text(p.0), p.1)
    }
}

/// The functions of a list or tree as a model, from its items.
pub open spec fn model_text(o: ObjectView) -> Seq<char> {
    (if o.object_type == ObjectType::List {
        IMPL_ROW_COUNT_LIST@
    } else if o.object_type == ObjectType::Tree {
        IMPL_TREE@
    } else {
        empty()
    }) + (if o.object_type != ObjectType::Object {
        items_accessors_text(o, o.item_properties.len())
    } else {
        empty()
    })
}

/// Writes the C functions that get and set the value of one item
/// property.
fn write_item_accessors(r: &mut String, lc: &str, ip: &ItemProperty)
    ensures
        final(r)@ == old(r)@ + item_accessors_text(lc@, ip@),
{
    broadcast use group_concat;

    emit2(r, IMPL_ITEM_GETTER_OPEN, lc, rust_return_type_(ip).as_str());
    if ip.is_complex() && ip.optional {
        emit1(r, IMPL_ITEM_GETTER_OPTIONAL_COMPLEX, lc);
    } else if ip.is_complex() {
        emit1(r, IMPL_ITEM_GETTER_COMPLEX, lc);
    } else {
        emit1(r, IMPL_ITEM_GETTER_VALUE, lc);
    }
    emit(r, IMPL_GETTER_CLOSE);
    let bytearray = ip.item_property_type == SimpleType::QByteArray;
    if ip.write && bytearray && ip.optional {
        emit1(r, IMPL_ITEM_SETTER_OPTIONAL_BYTES, lc);
    } else if ip.write && bytearray {
        emit1(r, IMPL_ITEM_SETTER_BYTES, lc);
    } else if ip.write {
        emit2(r, IMPL_ITEM_SETTER, lc, rust_type_(ip).as_str());
    }
}

/// Writes the functions of a list or tree as a model, from its items.
fn write_model(r: &mut String, o: &Object)
    requires
        snake_ready(),
    ensures
        final(r)@ == old(r)@ + model_text(o@),
{
    broadcast use group_concat;

    if o.object_type == ObjectType::List {
        emit(r, IMPL_ROW_COUNT_LIST);
    } else if o.object_type == ObjectType::Tree {
        emit(r, IMPL_TREE);
    }
    if o.object_type != ObjectType::Object {
        let ghost r0 = r@;
        let mut i: usize = 0;
        while i < o.item_properties.len()
            invariant
                i <= o.item_properties.len(),
                snake_ready(),
                r@ == r0 + items_accessors_text(o@, i as nat),
            decreases o.item_properties.len() - i,
        {
            let lc = snake_case(o.item_properties[i].0.as_str());
            write_item_accessors(r, lc.as_str(), &o.item_properties[i].1);
            i = i + 1;
        }
    }
}

/// The first implementation of one object.
pub open spec fn rust_implementation_object_text(o: ObjectView) -> Seq<char> {
    item_struct_text(o) + object_struct_text(o) + new_text(o) + property_accessors_text(
        o,
        o.properties.len(),
    ) + model_text(o) + BLOCK_CLOSE@
}

/// Writes the first implementation of one object.
pub fn write_rust_implementation_object(r: &mut String, o: &Object)
    requires
        snake_ready(),
    ensures
        final(r)@ == old(r)@ + rust_implementation_object_text(o@),
{
    broadcast use group_concat;

    write_item_struct(r, o);
    write_object_struct(r, o);
    write_new(r, o);
    write_property_accessors(r, o);
    write_model(r, o);
    emit(r, BLOCK_CLOSE);
}

} // verus!
