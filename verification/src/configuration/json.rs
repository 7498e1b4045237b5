//! The declarations as they are read, before the names of types are
//! resolved.
use crate::configuration::{
    Function, FunctionView, ItemProperty, ItemPropertyView, ObjectType, Rust, RustView,
};
use vstd::prelude::*;
use vstd::string::*;

verus! {

/// What a flag is where the declaration does not give it.
pub fn false_bool() -> (r: bool)
    ensures
        !r,
{
    false
}

/// A property whose type is given by name.
pub struct Property {
    pub optional: bool,
    pub property_type: String,
    pub rust_by_function: bool,
    pub write: bool,
}

pub struct PropertyView {
    pub optional: bool,
    pub property_type: Seq<char>,
    pub rust_by_function: bool,
    pub write: bool,
}

impl View for Property {
    type V = PropertyView;

    open spec fn view(&self) -> PropertyView {
        PropertyView {
            optional: self.optional,
            property_type: self.property_type@,
            rust_by_function: self.rust_by_function,
            write: self.write,
        }
    }
}

/// An object as it is declared.
pub struct Object {
    pub functions: Vec<(String, Function)>,
    pub item_properties: Vec<(String, ItemProperty)>,
    pub object_type: ObjectType,
    pub properties: Vec<(String, Property)>,
}

pub struct ObjectView {
    pub functions: Seq<(Seq<char>, FunctionView)>,
    pub item_properties: Seq<(Seq<char>, ItemPropertyView)>,
    pub object_type: ObjectType,
    pub properties: Seq<(Seq<char>, PropertyView)>,
}

/// The views of functions, each under its name.
pub open spec fn functions_view(functions: Seq<(String, Function)>) -> Seq<
    (Seq<char>, FunctionView),
> {
    Seq::new(functions.len(), |i: int| (functions[i].0@, functions[i].1@))
}

/// The views of item properties, each under its name.
pub open spec fn item_properties_view(items: Seq<(String, ItemProperty)>) -> Seq<
    (Seq<char>, ItemPropertyView),
> {
    Seq::new(items.len(), |i: int| (items[i].0@, items[i].1@))
}

impl View for Object {
    type V = ObjectView;

    open spec fn view(&self) -> ObjectView {
        ObjectView {
            functions: functions_view(self.functions@),
            item_properties: item_properties_view(self.item_properties@),
            object_type: self.object_type,
            properties: Seq::new(
                self.properties@.len(),
                |i: int| (self.properties@[i].0@, self.properties@[i].1@),
            ),
        }
    }
}

/// The views of declared objects, each under its name.
pub open spec fn objects_view(objects: Seq<(String, Object)>) -> Seq<(Seq<char>, ObjectView)> {
    Seq::new(objects.len(), |i: int| (objects[i].0@, objects[i].1@))
}

/// A configuration as it is declared.
pub struct Config {
    pub cpp_file: String,
    /// The objects, each under its name.
    pub objects: Vec<(String, Object)>,
    pub rust: Rust,
    pub overwrite_implementation: bool,
}

pub struct ConfigView {
    pub cpp_file: Seq<char>,
    pub objects: Seq<(Seq<char>, ObjectView)>,
    pub rust: RustView,
    pub overwrite_implementation: bool,
}

impl View for Config {
    type V = ConfigView;

    open spec fn view(&self) -> ConfigView {
        ConfigView {
            cpp_file: self.cpp_file@,
            objects: objects_view(self.objects@),
            rust: self.rust@,
            overwrite_implementation: self.overwrite_implementation,
        }
    }
}

} // verus!
