//! The C++ header: the declaration of one class for each object.
use crate::configuration::{
    Config, ConfigView, contains_object, Function, FunctionView, ItemPropertyView, Object,
    ObjectType, ObjectView, Property, PropertyView, simple_cpp_set_type, simple_name,
    type_cpp_set_type, type_is_complex, type_name_text,
};
use crate::configuration_private::{
    ItemPropertyPrivate, ObjectPrivate, PropertyPrivate, SimpleTypePrivate, TypeName, TypePrivate,
};
use crate::cpp::{
    base_type, base_type_text, model_is_writable, model_is_writable_spec, property_type,
    property_type_text, setter_type, setter_type_text, upper_initial, upper_initial_text,
    write_property, write_property_text,
};
use crate::cpp::templates::{
    CHANGED_SIGNAL, CLASS_CLOSE, CLASS_OPEN, CLASS_PRIVATE, CONSTRUCTORS, DECLARED_FUNCTION_OPEN,
    FRIEND_CLASS, FUNCTION_ARGUMENT, LIST_ITEM_GETTER, LIST_ITEM_SETTER, MEMBER_OBJECT,
    MEMBER_PRIVATE, MODEL_DECLARATIONS, MODEL_SET_DATA, MODEL_SIGNALS, OBJECT_GETTER,
    OBJECT_GETTER_CONST, PROPERTY_DECLARATION, SIGNALS, TREE_ITEM_GETTER, TREE_ITEM_SETTER,
    VALUE_GETTER, VALUE_SETTER,
};
use crate::text::{emit, emit1, emit2, emit3, empty, fill, group_concat};
use vstd::prelude::*;
use vstd::string::*;

verus! {

/// The declarations of the getter and the setter of one item property.
pub open spec fn item_accessors_text(
    list: bool,
    name: Seq<char>,
    p: ItemPropertyView,
) -> Seq<char> {
    if list {
        fill(LIST_ITEM_GETTER@, seq![property_type_text(p), name]) + (if p.write {
            fill(LIST_ITEM_SETTER@, seq![upper_initial_text(name), setter_type_text(p)])
        } else {
            empty()
        })
    } else {
        fill(TREE_ITEM_GETTER@, seq![property_type_text(p), name]) + (if p.write {
            fill(TREE_ITEM_SETTER@, seq![upper_initial_text(name), setter_type_text(p)])
        } else {
            empty()
        })
    }
}

/// The declarations of the accessors of the first `n` item properties.
pub open spec fn items_accessors_text(o: ObjectView, n: nat) -> Seq<char>
    decreases n,
{
    if n == 0 {
        empty()
    } else {
        items_accessors_text(o, (n - 1) as nat) + item_accessors_text(
            o.object_type == ObjectType::List,
            o.item_properties[n - 1].0,
            o.item_properties[n - 1].1,
        )
    }
}

/// What the class of a list or tree declares as a model.
pub open spec fn header_item_model_text(o: ObjectView) -> Seq<char> {
    MODEL_DECLARATIONS@ + (if model_is_writable_spec(o) {
        MODEL_SET_DATA@
    } else {
        empty()
    }) + items_accessors_text(o, o.item_properties.len()) + MODEL_SIGNALS@
}

/// Writes what the class of a list or tree declares as a model.
pub fn write_header_item_model(h: &mut String, o: &Object)
    ensures
        final(h)@ == old(h)@ + header_item_model_text(o@),
{
    broadcast use group_concat;

    let ghost h0 = h@;
    emit(h, MODEL_DECLARATIONS);
    if model_is_writable(o) {
        emit(h, MODEL_SET_DATA);
    }
    let ghost h1 = h@;
    let list = o.object_type == ObjectType::List;
    let mut i: usize = 0;
    while i < o.item_properties.len()
        invariant
            i <= o.item_properties.len(),
            list == (o@.object_type == ObjectType::List),
            h@ == h1 + items_accessors_text(o@, i as nat),
        decreases o.item_properties.len() - i,
    {
        let name = o.item_properties[i].0.as_str();
        let ip = &o.item_properties[i].1;
        let r = property_type(ip);
        if list {
            emit2(h, LIST_ITEM_GETTER, r.as_str(), name);
            if ip.write {
                emit2(h, LIST_ITEM_SETTER, upper_initial(name).as_str(), setter_type(ip).as_str());
            }
        } else {
            emit2(h, TREE_ITEM_GETTER, r.as_str(), name);
            if ip.write {
                emit2(h, TREE_ITEM_SETTER, upper_initial(name).as_str(), setter_type(ip).as_str());
            }
        }
        i = i + 1;
    }
    emit(h, MODEL_SIGNALS);
}

/// The declarations of the classes that may look into the class of `o`:
/// those among the first `n` objects that hold an object, but for `o`
/// itself.
pub open spec fn friends_text(
    o: ObjectView,
    objects: Seq<(Seq<char>, ObjectView)>,
    n: nat,
) -> Seq<char>
    decreases n,
{
    if n == 0 {
        empty()
    } else {
        let other = objects[n - 1].1;
        friends_text(o, objects, (n - 1) as nat) + (if contains_object(other) && o.name
            != other.name {
            fill(FRIEND_CLASS@, seq![other.name])
        } else {
            empty()
        })
    }
}

/// The members that point to the objects among the first `n` properties.
pub open spec fn member_objects_text(o: ObjectView, n: nat) -> Seq<char>
    decreases n,
{
    if n == 0 {
        empty()
    } else {
        let p = o.properties[n - 1];
        member_objects_text(o, (n - 1) as nat) + (if p.1.property_type is Object {
            fill(MEMBER_OBJECT@, seq![type_name_text(p.1.property_type), p.0])
        } else {
            empty()
        })
    }
}

/// The C++ type under which a property is seen: a variant where the value
/// is optional and of a fixed size, else the type itself.
pub open spec fn property_cpp_type_text(p: PropertyView) -> Seq<char> {
    if p.optional && !type_is_complex(p.property_type) {
        "QVariant"@
    } else {
        type_name_text(p.property_type)
    }
}

/// The declaration of one property.
pub open spec fn property_declaration_text(name: Seq<char>, p: PropertyView) -> Seq<char> {
    fill(
        PROPERTY_DECLARATION@,
        seq![
            property_cpp_type_text(p) + (if p.property_type is Object {
                "*"@
            } else {
                empty()
            }),
            name,
            if p.write {
                write_property_text(name)
            } else {
                empty()
            },
        ],
    )
}

/// The declarations of the first `n` properties.
pub open spec fn property_declarations_text(o: ObjectView, n: nat) -> Seq<char>
    decreases n,
{
    if n == 0 {
        empty()
    } else {
        property_declarations_text(o, (n - 1) as nat) + property_declaration_text(
            o.properties[n - 1].0,
            o.properties[n - 1].1,
        )
    }
}

/// The declarations of the getters and the setter of one property.
pub open spec fn property_accessors_text(name: Seq<char>, p: PropertyView) -> Seq<char> {
    if p.property_type is Object {
        fill(OBJECT_GETTER_CONST@, seq![type_name_text(p.property_type), name]) + fill(
            OBJECT_GETTER@,
            seq![type_name_text(p.property_type), name],
        )
    } else {
        fill(VALUE_GETTER@, seq![property_cpp_type_text(p), name]) + (if p.write {
            fill(
                VALUE_SETTER@,
                seq![
                    upper_initial_text(name),
                    if p.optional && !type_is_complex(p.property_type) {
                        "const QVariant&"@
                    } else {
                        type_cpp_set_type(p.property_type)
                    },
                ],
            )
        } else {
            empty()
        })
    }
}

/// The declarations of the accessors of the first `n` properties.
pub open spec fn properties_accessors_text(o: ObjectView, n: nat) -> Seq<char>
    decreases n,
{
    if n == 0 {
        empty()
    } else {
        properties_accessors_text(o, (n - 1) as nat) + property_accessors_text(
            o.properties[n - 1].0,
            o.properties[n - 1].1,
        )
    }
}

/// The first `n` arguments of a function as C++ parameters, with commas
/// between them.
pub open spec fn parameters_text(f: FunctionView, n: nat) -> Seq<char>
    decreases n,
{
    if n == 0 {
        empty()
    } else {
        let a = f.arguments[n - 1];
        parameters_text(f, (n - 1) as nat) + (if n != 1 {
            ", "@
        } else {
            empty()
        }) + fill(FUNCTION_ARGUMENT@, seq![simple_cpp_set_type(a.argument_type), a.name])
    }
}

/// The declaration of one function.
pub open spec fn function_declaration_text(name: Seq<char>, f: FunctionView) -> Seq<char> {
    fill(DECLARED_FUNCTION_OPEN@, seq![simple_name(f.return_type), name]) + parameters_text(
        f,
        f.arguments.len(),
    ) + (if f.mutable {
        ");\n"@
    } else {
        ") const;\n"@
    })
}

/// The declarations of the first `n` functions.
pub open spec fn function_declarations_text(o: ObjectView, n: nat) -> Seq<char>
    decreases n,
{
    if n == 0 {
        empty()
    } else {
        function_declarations_text(o, (n - 1) as nat) + function_declaration_text(
            o.functions[n - 1].0,
            o.functions[n - 1].1,
        )
    }
}

/// The signals that tell of a change of one of the first `n` properties.
pub open spec fn changed_signals_text(o: ObjectView, n: nat) -> Seq<char>
    decreases n,
{
    if n == 0 {
        empty()
    } else {
        changed_signals_text(o, (n - 1) as nat) + fill(CHANGED_SIGNAL@, seq![o.properties[n - 1].0])
    }
}

/// The declaration of the class of an object.
pub open spec fn header_object_text(o: ObjectView, conf: ConfigView) -> Seq<char> {
    fill(CLASS_OPEN@, seq![o.name, base_type_text(o)]) + friends_text(
        o,
        conf.objects,
        conf.objects.len(),
    ) + CLASS_PRIVATE@ + member_objects_text(o, o.properties.len()) + MEMBER_PRIVATE@
        + property_declarations_text(o, o.properties.len()) + fill(CONSTRUCTORS@, seq![o.name])
        + properties_accessors_text(o, o.properties.len()) + function_declarations_text(
        o,
        o.functions.len(),
    ) + (if o.object_type != ObjectType::Object {
        header_item_model_text(o)
    } else {
        empty()
    }) + SIGNALS@ + changed_signals_text(o, o.properties.len()) + CLASS_CLOSE@
}

/// Writes the declarations of the classes that may look into the class
/// of `o`: those among the objects that hold an object, but for `o`
/// itself.
fn write_friends(h: &mut String, o: &Object, conf: &Config)
    ensures
        final(h)@ == old(h)@ + friends_text(o@, conf@.objects, conf@.objects.len()),
{
    broadcast use group_concat;

    let ghost h0 = h@;
    let mut i: usize = 0;
    while i < conf.objects.len()
        invariant
            i <= conf.objects.len(),
            h@ == h0 + friends_text(o@, conf@.objects, i as nat),
        decreases conf.objects.len() - i,
    {
        let object = &conf.objects[i].1;
        assert(conf@.objects[i as int].1 == object@);
        if object.contains_object() && !o.name.as_str().eq(object.name.as_str()) {
            emit1(h, FRIEND_CLASS, object.name.as_str());
        }
        i = i + 1;
    }
}

/// Writes the members that point to the objects among the properties.
fn write_member_objects(h: &mut String, o: &Object)
    ensures
        final(h)@ == old(h)@ + member_objects_text(o@, o@.properties.len()),
{
    broadcast use group_concat;

    let ghost h0 = h@;
    let mut i: usize = 0;
    while i < o.properties.len()
        invariant
            i <= o.properties.len(),
            h@ == h0 + member_objects_text(o@, i as nat),
        decreases o.properties.len() - i,
    {
        let p = &o.properties[i].1;
        if p.is_object() {
            emit2(h, MEMBER_OBJECT, p.name_of_type(), o.properties[i].0.as_str());
        }
        i = i + 1;
    }
}

/// The C++ type under which a property is seen: a variant where the
/// value is optional and of a fixed size, else the type itself.
pub fn property_cpp_type(p: &Property) -> (r: &str)
    ensures
        r@ == property_cpp_type_text(p@),
{
    if p.optional && !p.is_complex() {
        "QVariant"
    } else {
        p.name_of_type()
    }
}

/// Writes the declarations of the properties.
fn write_property_declarations(h: &mut String, o: &Object)
    ensures
        final(h)@ == old(h)@ + property_declarations_text(o@, o@.properties.len()),
{
    broadcast use group_concat;

    let ghost h0 = h@;
    let mut i: usize = 0;
    while i < o.properties.len()
        invariant
            i <= o.properties.len(),
            h@ == h0 + property_declarations_text(o@, i as nat),
        decreases o.properties.len() - i,
    {
        let name = o.properties[i].0.as_str();
        let p = &o.properties[i].1;
        let mut t = String::from_str(property_cpp_type(p));
        if p.is_object() {
            t.append("*");
        }
        let write = if p.write {
            write_property(name)
        } else {
            String::new()
        };
        emit3(h, PROPERTY_DECLARATION, t.as_str(), name, write.as_str());
        i = i + 1;
    }
}

/// Writes the accessors of the properties.
fn write_properties_accessors(h: &mut String, o: &Object)
    ensures
        final(h)@ == old(h)@ + properties_accessors_text(o@, o@.properties.len()),
{
    broadcast use group_concat;

    let ghost h0 = h@;
    let mut i: usize = 0;
    while i < o.properties.len()
        invariant
            i <= o.properties.len(),
            h@ == h0 + properties_accessors_text(o@, i as nat),
        decreases o.properties.len() - i,
    {
        let name = o.properties[i].0.as_str();
        let p = &o.properties[i].1;
        if p.is_object() {
            emit2(h, OBJECT_GETTER_CONST, p.name_of_type(), name);
            emit2(h, OBJECT_GETTER, p.name_of_type(), name);
        } else {
            emit2(h, VALUE_GETTER, property_cpp_type(p), name);
            if p.write {
                let t2 = if p.optional && !p.is_complex() {
                    "const QVariant&"
                } else {
                    p.property_type.cpp_set_type()
                };
                emit2(h, VALUE_SETTER, upper_initial(name).as_str(), t2);
            }
        }
        i = i + 1;
    }
}

/// Writes the arguments of a function as C++ parameters.
pub fn write_parameters(h: &mut String, f: &Function)
    ensures
        final(h)@ == old(h)@ + parameters_text(f@, f@.arguments.len()),
{
    broadcast use group_concat;

    let ghost h0 = h@;
    let mut i: usize = 0;
    while i < f.arguments.len()
        invariant
            i <= f.arguments.len(),
            h@ == h0 + parameters_text(f@, i as nat),
        decreases f.arguments.len() - i,
    {
        let a = &f.arguments[i];
        if i != 0 {
            emit(h, ", ");
        }
        emit2(h, FUNCTION_ARGUMENT, a.argument_type.cpp_set_type(), a.name.as_str());
        i = i + 1;
    }
}

/// Writes the declarations of the functions.
fn write_function_declarations(h: &mut String, o: &Object)
    ensures
        final(h)@ == old(h)@ + function_declarations_text(o@, o@.functions.len()),
{
    broadcast use group_concat;

    let ghost h0 = h@;
    let mut i: usize = 0;
    while i < o.functions.len()
        invariant
            i <= o.functions.len(),
            h@ == h0 + function_declarations_text(o@, i as nat),
        decreases o.functions.len() - i,
    {
        let f = &o.functions[i].1;
        emit2(h, DECLARED_FUNCTION_OPEN, f.return_type.name(), o.functions[i].0.as_str());
        write_parameters(h, f);
        if f.mutable {
            emit(h, ");\n");
        } else {
            emit(h, ") const;\n");
        }
        i = i + 1;
    }
}

/// Writes the signals that tell of a change of one of the properties.
fn write_changed_signals(h: &mut String, o: &Object)
    ensures
        final(h)@ == old(h)@ + changed_signals_text(o@, o@.properties.len()),
{
    broadcast use group_concat;

    let ghost h0 = h@;
    let mut i: usize = 0;
    while i < o.properties.len()
        invariant
            i <= o.properties.len(),
            h@ == h0 + changed_signals_text(o@, i as nat),
        decreases o.properties.len() - i,
    {
        emit1(h, CHANGED_SIGNAL, o.properties[i].0.as_str());
        i = i + 1;
    }
}

/// Writes the declaration of the class of an object.
pub fn write_header_object(h: &mut String, o: &Object, conf: &Config)
    ensures
        final(h)@ == old(h)@ + header_object_text(o@, conf@),
{
    broadcast use group_concat;

    emit2(h, CLASS_OPEN, o.name.as_str(), base_type(o));
    write_friends(h, o, conf);
    emit(h, CLASS_PRIVATE);
    write_member_objects(h, o);
    emit(h, MEMBER_PRIVATE);
    write_property_declarations(h, o);
    emit1(h, CONSTRUCTORS, o.name.as_str());
    write_properties_accessors(h, o);
    write_function_declarations(h, o);
    if o.object_type != ObjectType::Object {
        write_header_item_model(h, o);
    }
    emit(h, SIGNALS);
    write_changed_signals(h, o);
    emit(h, CLASS_CLOSE);
}

} // verus!
