//! What the generators ask of the parts of a configuration.
use vstd::prelude::*;

verus! {

pub trait ConfigPrivate {
    /// The names of the types in use, in order and without repetition.
    fn types(&self) -> Vec<String>;

    /// The names of the types in use as optional values, in order and
    /// without repetition.
    fn optional_types(&self) -> Vec<String>;

    /// Whether one of the objects is a list or a tree.
    fn has_list_or_tree(&self) -> bool;
}

pub trait ObjectPrivate {
    /// Whether a property of the object is itself an object.
    fn contains_object(&self) -> bool;

    /// The number of columns of the object.
    fn column_count(&self) -> usize;
}

pub trait TypeName {
    /// The name of the type.
    fn name_of_type(&self) -> &str;
}

pub trait TypePrivate {
    /// Whether the type is a primitive one.
    spec fn is_simple(&self) -> bool;

    /// Whether the type is an object.
    fn is_object(&self) -> bool;

    /// Whether values of the type have a variable length and live on
    /// the heap.
    fn is_complex(&self) -> bool;

    /// The name of the type.
    fn name(&self) -> &str;

    /// The type of the parameter of a C++ setter.
    fn cpp_set_type(&self) -> &str;

    /// The type of the parameter of a setter in the C interface.
    fn c_set_type(&self) -> &str;

    /// The Rust type.
    fn rust_type(&self) -> &str;

    /// The Rust expression of the initial value, which only a primitive
    /// type has.
    fn rust_type_init(&self) -> &str
        requires
            self.is_simple(),
    ;
}

pub trait PropertyPrivate {
    /// Whether the type of the property is an object.
    fn is_object(&self) -> bool;

    /// Whether values of the property have a variable length and live
    /// on the heap.
    fn is_complex(&self) -> bool;

    /// The types of what a getter in the C interface takes besides the
    /// object: a pointer to the value and the function that sets it.
    fn c_get_type(&self) -> String;
}

pub trait SimpleTypePrivate {
    /// The keyword of the type, which is also its name in C++.
    fn name(&self) -> &str;

    /// The type of the parameter of a C++ setter.
    fn cpp_set_type(&self) -> &str;

    /// The type of the parameter of a setter in the C interface.
    fn c_set_type(&self) -> &str;

    /// The Rust type.
    fn rust_type(&self) -> &str;

    /// The Rust expression of the initial value.
    fn rust_type_init(&self) -> &str;

    /// Whether values of the type have a variable length and live on
    /// the heap.
    fn is_complex(&self) -> bool;
}

pub trait ItemPropertyPrivate {
    /// Whether values of the item property have a variable length and
    /// live on the heap.
    fn is_complex(&self) -> bool;

    /// The type of the parameter of the C++ setter.
    fn cpp_set_type(&self) -> String;

    /// The types of what a getter in the C interface takes besides the
    /// object: a pointer to the value and the function that sets it.
    fn c_get_type(&self) -> String;

    /// The type of the parameter of the setter in the C interface.
    fn c_set_type(&self) -> &str;
}

} // verus!
