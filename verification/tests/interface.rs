use rust_qt_binding_generator::configuration::json;
use rust_qt_binding_generator::configuration::{
    Argument, Config, Function, ItemProperty, ObjectType, Rust, RustEdition, SimpleType,
};
use rust_qt_binding_generator::manifest::Manifest;
use rust_qt_binding_generator::rust::{write_implementation, write_interface, Implementation};
use rust_qt_binding_generator::{generate_bindings, read_bindings_file};

fn property(type_text: &str, optional: bool, write: bool) -> json::Property {
    json::Property {
        optional,
        property_type: type_text.to_string(),
        rust_by_function: false,
        write,
    }
}

fn object(object_type: ObjectType, properties: Vec<(&str, json::Property)>) -> json::Object {
    json::Object {
        functions: Vec::new(),
        item_properties: Vec::new(),
        object_type,
        properties: properties.into_iter().map(|(n, p)| (n.to_string(), p)).collect(),
    }
}

fn declarations(objects: Vec<(&str, json::Object)>) -> json::Config {
    json::Config {
        cpp_file: "Bindings.cpp".to_string(),
        objects: objects.into_iter().map(|(n, o)| (n.to_string(), o)).collect(),
        rust: Rust {
            dir: "rust".to_string(),
            implementation_module: "implementation".to_string(),
            interface_module: "interface".to_string(),
        },
        overwrite_implementation: false,
    }
}

fn manifest(edition: &str) -> Manifest {
    Manifest::Text(format!("[package]\nname = \"x\"\nedition = \"{}\"\n", edition))
}

fn simple() -> Config {
    let json = declarations(vec![(
        "Simple",
        object(ObjectType::Object, vec![("message", property("QString", false, true))]),
    )]);
    match read_bindings_file("bindings.json", json, manifest("2015")) {
        Ok(config) => config,
        Err(e) => panic!("{}", e.message()),
    }
}

fn assert_same_text(found: &str, expected: &str) {
    let f: Vec<&str> = found.split('\n').collect();
    let e: Vec<&str> = expected.split('\n').collect();
    for i in 0..f.len().min(e.len()) {
        assert_eq!(f[i], e[i], "line {}", i + 1);
    }
    assert_eq!(f.len(), e.len());
}

#[test]
fn interface_of_an_object_with_a_text_property() {
    let config = simple();
    let text = write_interface(&config).unwrap();
    assert_same_text(&text, INTERFACE);
}

const INTERFACE: &str = "/* generated by rust_qt_binding_generator */
use libc::{c_char, c_ushort, c_int};
use std::slice;
use std::char::decode_utf16;

use std::sync::Arc;
use std::sync::atomic::{AtomicPtr, Ordering};
use std::ptr::null;

use implementation::*;


pub enum QString {}

fn set_string_from_utf16(s: &mut String, str: *const c_ushort, len: c_int) {
    let utf16 = unsafe { slice::from_raw_parts(str, to_usize(len)) };
    let characters = decode_utf16(utf16.iter().cloned())
        .map(|r| r.unwrap());
    s.clear();
    s.extend(characters);
}



fn to_usize(n: c_int) -> usize {
    if n < 0 {
        panic!(\"Cannot cast {} to usize\", n);
    }
    n as usize
}


fn to_c_int(n: usize) -> c_int {
    if n > c_int::max_value() as usize {
        panic!(\"Cannot cast {} to c_int\", n);
    }
    n as c_int
}


pub struct SimpleQObject {}

pub struct SimpleEmitter {
    qobject: Arc<AtomicPtr<SimpleQObject>>,
    message_changed: fn(*mut SimpleQObject),
}

unsafe impl Send for SimpleEmitter {}

impl SimpleEmitter {
    /// Clone the emitter
    ///
    /// The emitter can only be cloned when it is mutable. The emitter calls
    /// into C++ code which may call into Rust again. If emmitting is possible
    /// from immutable structures, that might lead to access to a mutable
    /// reference. That is undefined behaviour and forbidden.
    pub fn clone(&mut self) -> SimpleEmitter {
        SimpleEmitter {
            qobject: self.qobject.clone(),
            message_changed: self.message_changed,
        }
    }
    fn clear(&self) {
        let n: *const SimpleQObject = null();
        self.qobject.store(n as *mut SimpleQObject, Ordering::SeqCst);
    }
    pub fn message_changed(&mut self) {
        let ptr = self.qobject.load(Ordering::SeqCst);
        if !ptr.is_null() {
            (self.message_changed)(ptr);
        }
    }
}

pub trait SimpleTrait {
    fn new(emit: SimpleEmitter) -> Self;
    fn emit(&mut self) -> &mut SimpleEmitter;
    fn message(&self) -> &str;
    fn set_message(&mut self, value: String);
}

#[no_mangle]
pub extern \"C\" fn simple_new(
    simple: *mut SimpleQObject,
    simple_message_changed: fn(*mut SimpleQObject),
) -> *mut Simple {
    let simple_emit = SimpleEmitter {
        qobject: Arc::new(AtomicPtr::new(simple)),
        message_changed: simple_message_changed,
    };
    let d_simple = Simple::new(simple_emit);
    Box::into_raw(Box::new(d_simple))
}

#[no_mangle]
pub unsafe extern \"C\" fn simple_free(ptr: *mut Simple) {
    Box::from_raw(ptr).emit().clear();
}

#[no_mangle]
pub unsafe extern \"C\" fn simple_message_get(
    ptr: *const Simple,
    p: *mut QString,
    set: fn(*mut QString, *const c_char, c_int),
) {
    let o = &*ptr;
    let v = o.message();
    let s: *const c_char = v.as_ptr() as (*const c_char);
    set(p, s, to_c_int(v.len()));
}

#[no_mangle]
pub unsafe extern \"C\" fn simple_message_set(ptr: *mut Simple, v: *const c_ushort, len: c_int) {
    let o = &mut *ptr;
    let mut s = String::new();
    set_string_from_utf16(&mut s, v, len);
    o.set_message(s);
}
";
