//! The Rust code that is written, in pieces. In a piece `$0` to `$9` mark
//! where names and types are put in.
use vstd::prelude::*;

verus! {

pub const ARGUMENT_OBJECT: &'static str = "    $0: *mut $1QObject";

pub const ARGUMENT_SEPARATOR: &'static str = ",
";

pub const ARGUMENT_CHANGED: &'static str = ",
    $0_$1_changed: fn(*mut $2QObject)";

pub const ARGUMENT_NEW_DATA_LIST: &'static str = ",
    $0_new_data_ready: fn(*mut $1QObject)";

pub const ARGUMENT_NEW_DATA_TREE: &'static str = ",
    $0_new_data_ready: fn(*mut $1QObject, index: COption<usize>)";

pub const ARGUMENT_MODEL: &'static str = ",
    $2_layout_about_to_be_changed: fn(*mut $0QObject),
    $2_layout_changed: fn(*mut $0QObject),
    $2_data_changed: fn(*mut $0QObject, usize, usize),
    $2_begin_reset_model: fn(*mut $0QObject),
    $2_end_reset_model: fn(*mut $0QObject),
    $2_begin_insert_rows: fn(*mut $0QObject,$1 usize, usize),
    $2_end_insert_rows: fn(*mut $0QObject),
    $2_begin_move_rows: fn(*mut $0QObject,$1 usize, usize,$3 usize),
    $2_end_move_rows: fn(*mut $0QObject),
    $2_begin_remove_rows: fn(*mut $0QObject,$1 usize, usize),
    $2_end_remove_rows: fn(*mut $0QObject)";

pub const EMITTER_INIT_OPEN: &'static str = "    let $0_emit = $1Emitter {
        qobject: Arc::new(AtomicPtr::new($0)),
";

pub const EMITTER_INIT_CHANGED: &'static str = "        $0_changed: $1_$0_changed,
";

pub const EMITTER_INIT_NEW_DATA: &'static str = "        new_data_ready: $0_new_data_ready,
";

pub const MODEL_INIT: &'static str = "    };
    let model = $0$1 {
        qobject: $2,
        layout_about_to_be_changed: $2_layout_about_to_be_changed,
        layout_changed: $2_layout_changed,
        data_changed: $2_data_changed,
        begin_reset_model: $2_begin_reset_model,
        end_reset_model: $2_end_reset_model,
        begin_insert_rows: $2_begin_insert_rows,
        end_insert_rows: $2_end_insert_rows,
        begin_move_rows: $2_begin_move_rows,
        end_move_rows: $2_end_move_rows,
        begin_remove_rows: $2_begin_remove_rows,
        end_remove_rows: $2_end_remove_rows,
";

pub const OBJECT_INIT: &'static str = "    };
    let d_$0 = $1::new($0_emit$2";

pub const OBJECT_INIT_MEMBER: &'static str = ",
        d_$0";

pub const OBJECT_INIT_CLOSE: &'static str = ");
";

pub const FUNCTION_OPEN: &'static str = "
#[no_mangle]
pub unsafe extern \"C\" fn $0_$1(ptr: *$2 $3";

pub const FUNCTION_ARGUMENT_STRING: &'static str = "$0_str: *const c_ushort, $0_len: c_int";

pub const FUNCTION_ARGUMENT_BYTES: &'static str = "$0_str: *const c_char, $0_len: c_int";

pub const FUNCTION_ARGUMENT_VALUE: &'static str = "$0: $1";

pub const FUNCTION_RETURN_COMPLEX: &'static str = ", d: *mut $0, set: fn(*mut $0, str: *const c_char, len: c_int)) {
";

pub const FUNCTION_RETURN_VOID: &'static str = ") {
";

pub const FUNCTION_RETURN_VALUE: &'static str = ") -> $0 {
";

pub const FUNCTION_LOCAL_STRING: &'static str = "    let mut $0 = String::new();
    set_string_from_utf16(&mut $0, $0_str, $0_len);
";

pub const FUNCTION_LOCAL_BYTES: &'static str = "    let $0 = { slice::from_raw_parts($0_str as *const u8, to_usize($0_len)) };
";

pub const FUNCTION_OBJECT_MUT: &'static str = "    let o = &mut *ptr;
";

pub const FUNCTION_OBJECT: &'static str = "    let o = &*ptr;
";

pub const FUNCTION_CALL_COMPLEX: &'static str = "    let r = o.$0(";

pub const FUNCTION_CALL: &'static str = "    o.$0(";

pub const FUNCTION_SET_RESULT: &'static str = "    let s: *const c_char = r.as_ptr() as (*const c_char);
    set(d, s, r.len() as i32);
";

pub const BLOCK_CLOSE: &'static str = "}
";

pub const EMITTER_OPEN: &'static str = "
pub struct $0QObject {}

pub struct $0Emitter {
    qobject: Arc<AtomicPtr<$0QObject>>,
";

pub const EMITTER_CHANGED: &'static str = "    $0_changed: fn(*mut $1QObject),
";

pub const EMITTER_NEW_DATA_LIST: &'static str = "    new_data_ready: fn(*mut $0QObject),
";

pub const EMITTER_NEW_DATA_TREE: &'static str = "    new_data_ready: fn(*mut $0QObject, index: COption<usize>),
";

pub const EMITTER_CLONE_OPEN: &'static str = "}

unsafe impl Send for $0Emitter {}

impl $0Emitter {
    /// Clone the emitter
    ///
    /// The emitter can only be cloned when it is mutable. The emitter calls
    /// into C++ code which may call into Rust again. If emmitting is possible
    /// from immutable structures, that might lead to access to a mutable
    /// reference. That is undefined behaviour and forbidden.
    pub fn clone(&mut self) -> $0Emitter {
        $0Emitter {
            qobject: self.qobject.clone(),
";

pub const EMITTER_CLONE_CHANGED: &'static str = "            $0_changed: self.$0_changed,
";

pub const EMITTER_CLONE_NEW_DATA: &'static str = "            new_data_ready: self.new_data_ready,
";

pub const EMITTER_CLEAR: &'static str = "        }
    }
    fn clear(&self) {
        let n: *const $0QObject = null();
        self.qobject.store(n as *mut $0QObject, Ordering::SeqCst);
    }
";

pub const EMITTER_CHANGED_FN: &'static str = "    pub fn $0_changed(&mut self) {
        let ptr = self.qobject.load(Ordering::SeqCst);
        if !ptr.is_null() {
            (self.$0_changed)(ptr);
        }
    }
";

pub const EMITTER_NEW_DATA_FN_LIST: &'static str = "    pub fn new_data_ready(&mut self) {
        let ptr = self.qobject.load(Ordering::SeqCst);
        if !ptr.is_null() {
            (self.new_data_ready)(ptr);
        }
    }
";

pub const EMITTER_NEW_DATA_FN_TREE: &'static str = "    pub fn new_data_ready(&mut self, item: Option<usize>) {
        let ptr = self.qobject.load(Ordering::SeqCst);
        if !ptr.is_null() {
            (self.new_data_ready)(ptr, item.into());
        }
    }
";

pub const MODEL_PARAMETER: &'static str = ", model: $0$1";

pub const MODEL_STRUCT: &'static str = "}

#[derive(Clone)]
pub struct $0$1 {
    qobject: *mut $0QObject,
    layout_about_to_be_changed: fn(*mut $0QObject),
    layout_changed: fn(*mut $0QObject),
    data_changed: fn(*mut $0QObject, usize, usize),
    begin_reset_model: fn(*mut $0QObject),
    end_reset_model: fn(*mut $0QObject),
    begin_insert_rows: fn(*mut $0QObject,$4 usize, usize),
    end_insert_rows: fn(*mut $0QObject),
    begin_move_rows: fn(*mut $0QObject,$4 usize, usize,$7 usize),
    end_move_rows: fn(*mut $0QObject),
    begin_remove_rows: fn(*mut $0QObject,$4 usize, usize),
    end_remove_rows: fn(*mut $0QObject),
}

impl $0$1 {
    pub fn layout_about_to_be_changed(&mut self) {
        (self.layout_about_to_be_changed)(self.qobject);
    }
    pub fn layout_changed(&mut self) {
        (self.layout_changed)(self.qobject);
    }
    pub fn data_changed(&mut self, first: usize, last: usize) {
        (self.data_changed)(self.qobject, first, last);
    }
    pub fn begin_reset_model(&mut self) {
        (self.begin_reset_model)(self.qobject);
    }
    pub fn end_reset_model(&mut self) {
        (self.end_reset_model)(self.qobject);
    }
    pub fn begin_insert_rows(&mut self,$2 first: usize, last: usize) {
        (self.begin_insert_rows)(self.qobject,$3 first, last);
    }
    pub fn end_insert_rows(&mut self) {
        (self.end_insert_rows)(self.qobject);
    }
    pub fn begin_move_rows(&mut self,$2 first: usize, last: usize,$5 destination: usize) {
        (self.begin_move_rows)(self.qobject,$3 first, last,$6 destination);
    }
    pub fn end_move_rows(&mut self) {
        (self.end_move_rows)(self.qobject);
    }
    pub fn begin_remove_rows(&mut self,$2 first: usize, last: usize) {
        (self.begin_remove_rows)(self.qobject,$3 first, last);
    }
    pub fn end_remove_rows(&mut self) {
        (self.end_remove_rows)(self.qobject);
    }
";

pub const TRAIT_OPEN: &'static str = "}

pub trait $0Trait {
    fn new(emit: $0Emitter$1";

pub const TRAIT_NEW_OBJECT: &'static str = ",
        $0: $1";

pub const TRAIT_NEW_CLOSE: &'static str = ") -> Self;
    fn emit(&mut self) -> &mut $0Emitter;
";

pub const TRAIT_OBJECT_GETTER: &'static str = "    fn $0(&self) -> &$1;
";

pub const TRAIT_OBJECT_GETTER_MUT: &'static str = "    fn $0_mut(&mut self) -> &mut $1;
";

pub const TRAIT_GETTER_BY_FUNCTION: &'static str = "    fn $0<F>(&self, getter: F) where F: FnOnce($1);";

pub const TRAIT_GETTER: &'static str = "    fn $0(&self) -> $1;
";

pub const TRAIT_SETTER_OPTIONAL_BYTES: &'static str = "    fn set_$0(&mut self, value: Option<&[u8]>);
";

pub const TRAIT_SETTER_BYTES: &'static str = "    fn set_$0(&mut self, value: &[u8]);
";

pub const TRAIT_SETTER: &'static str = "    fn set_$0(&mut self, value: $1);
";

pub const TRAIT_FUNCTION_ARGUMENT: &'static str = ", $0: $1";

pub const TRAIT_FUNCTION: &'static str = "    fn $0(&$1self$2) -> $3;
";

pub const TRAIT_LIST: &'static str = "    fn row_count(&self) -> usize;
    fn insert_rows(&mut self, _row: usize, _count: usize) -> bool { false }
    fn remove_rows(&mut self, _row: usize, _count: usize) -> bool { false }
    fn can_fetch_more(&self) -> bool {
        false
    }
    fn fetch_more(&mut self) {}
    fn sort(&mut self, _: u8, _: SortOrder) {}
";

pub const TRAIT_TREE: &'static str = "    fn row_count(&self, _: Option<usize>) -> usize;
    fn can_fetch_more(&self, _: Option<usize>) -> bool {
        false
    }
    fn fetch_more(&mut self, _: Option<usize>) {}
    fn sort(&mut self, _: u8, _: SortOrder) {}
    fn check_row(&self, index: usize, row: usize) -> Option<usize>;
    fn index(&self, item: Option<usize>, row: usize) -> usize;
    fn parent(&self, index: usize) -> Option<usize>;
    fn row(&self, index: usize) -> usize;
";

pub const TRAIT_ITEM_GETTER: &'static str = "    fn $0(&self, index: usize) -> $1;
";

pub const TRAIT_ITEM_SETTER_OPTIONAL_BYTES: &'static str = "    fn set_$0(&mut self, index: usize, _: Option<&[u8]>) -> bool;
";

pub const TRAIT_ITEM_SETTER_BYTES: &'static str = "    fn set_$0(&mut self, index: usize, _: &[u8]) -> bool;
";

pub const TRAIT_ITEM_SETTER: &'static str = "    fn set_$0(&mut self, index: usize, _: $1) -> bool;
";

pub const NEW_OPEN: &'static str = "}

#[no_mangle]
pub extern \"C\" fn $0_new(
";

pub const NEW_RETURN: &'static str = ",
) -> *mut $0 {
";

pub const NEW_CLOSE_AND_FREE: &'static str = "    Box::into_raw(Box::new(d_$0))
}

#[no_mangle]
pub unsafe extern \"C\" fn $0_free(ptr: *mut $1) {
    Box::from_raw(ptr).emit().clear();
}
";

pub const GET_OBJECT: &'static str = "
#[no_mangle]
pub unsafe extern \"C\" fn $0_get(ptr: *mut $1) -> *mut $2 {
    (&mut *ptr).$3_mut()
}
";

pub const GET_COMPLEX_BY_FUNCTION: &'static str = "
#[no_mangle]
pub unsafe extern \"C\" fn $0_get(
    ptr: *const $1,
    p: *mut $2,
    set: fn(*mut $2, *const c_char, c_int),
) {
    let o = &*ptr;
    o.$3(|v| {
        let s: *const c_char = v.as_ptr() as (*const c_char);
        set(p, s, to_c_int(v.len()));
    });
}
";

pub const GET_COMPLEX: &'static str = "
#[no_mangle]
pub unsafe extern \"C\" fn $0_get(
    ptr: *const $1,
    p: *mut $2,
    set: fn(*mut $2, *const c_char, c_int),
) {
    let o = &*ptr;
    let v = o.$3();
    let s: *const c_char = v.as_ptr() as (*const c_char);
    set(p, s, to_c_int(v.len()));
}
";

pub const SET_STRING: &'static str = "
#[no_mangle]
pub unsafe extern \"C\" fn $0_set(ptr: *mut $1, v: *const c_ushort, len: c_int) {
    let o = &mut *ptr;
    let mut s = String::new();
    set_string_from_utf16(&mut s, v, len);
    o.set_$2(s);
}
";

pub const SET_BYTES: &'static str = "
#[no_mangle]
pub unsafe extern \"C\" fn $0_set(ptr: *mut $1, v: *const c_char, len: c_int) {
    let o = &mut *ptr;
    let v = slice::from_raw_parts(v as *const u8, to_usize(len));
    o.set_$2(v);
}
";

pub const GET_OPTIONAL_COMPLEX: &'static str = "
#[no_mangle]
pub unsafe extern \"C\" fn $0_get(
    ptr: *const $1,
    p: *mut $2,
    set: fn(*mut $2, *const c_char, c_int),
) {
    let o = &*ptr;
    let v = o.$3();
    if let Some(v) = v {
        let s: *const c_char = v.as_ptr() as (*const c_char);
        set(p, s, to_c_int(v.len()));
    }
}
";

pub const SET_OPTIONAL_STRING: &'static str = "
#[no_mangle]
pub unsafe extern \"C\" fn $0_set(ptr: *mut $1, v: *const c_ushort, len: c_int) {
    let o = &mut *ptr;
    let mut s = String::new();
    set_string_from_utf16(&mut s, v, len);
    o.set_$2(Some(s));
}
";

pub const SET_OPTIONAL_BYTES: &'static str = "
#[no_mangle]
pub unsafe extern \"C\" fn $0_set(ptr: *mut $1, v: *const c_char, len: c_int) {
    let o = &mut *ptr;
    let v = slice::from_raw_parts(v as *const u8, to_usize(len));
    o.set_$2(Some(v.into()));
}
";

pub const GET_OPTIONAL: &'static str = "
#[no_mangle]
pub unsafe extern \"C\" fn $0_get(ptr: *const $1) -> COption<$2> {
    match (&*ptr).$3() {
        Some(value) => COption { data: value, some: true },
        None => COption { data: $2::default(), some: false}
    }
}
";

pub const SET_OPTIONAL: &'static str = "
#[no_mangle]
pub unsafe extern \"C\" fn $0_set(ptr: *mut $1, v: $2) {
    (&mut *ptr).set_$3(Some(v));
}
";

pub const GET_VALUE: &'static str = "
#[no_mangle]
pub unsafe extern \"C\" fn $0_get(ptr: *const $1) -> $2 {
    (&*ptr).$3()
}
";

pub const SET_VALUE: &'static str = "
#[no_mangle]
pub unsafe extern \"C\" fn $0_set(ptr: *mut $1, v: $2) {
    (&mut *ptr).set_$3(v);
}
";

pub const SET_NONE: &'static str = "
#[no_mangle]
pub unsafe extern \"C\" fn $0_set_none(ptr: *mut $1) {
    let o = &mut *ptr;
    o.set_$2(None);
}
";

pub const LIST_FUNCTIONS: &'static str = "
#[no_mangle]
pub unsafe extern \"C\" fn $1_row_count(ptr: *const $0) -> c_int {
    to_c_int((&*ptr).row_count())
}
#[no_mangle]
pub unsafe extern \"C\" fn $1_insert_rows(ptr: *mut $0, row: c_int, count: c_int) -> bool {
    (&mut *ptr).insert_rows(to_usize(row), to_usize(count))
}
#[no_mangle]
pub unsafe extern \"C\" fn $1_remove_rows(ptr: *mut $0, row: c_int, count: c_int) -> bool {
    (&mut *ptr).remove_rows(to_usize(row), to_usize(count))
}
#[no_mangle]
pub unsafe extern \"C\" fn $1_can_fetch_more(ptr: *const $0) -> bool {
    (&*ptr).can_fetch_more()
}
#[no_mangle]
pub unsafe extern \"C\" fn $1_fetch_more(ptr: *mut $0) {
    (&mut *ptr).fetch_more()
}
#[no_mangle]
pub unsafe extern \"C\" fn $1_sort(
    ptr: *mut $0,
    column: u8,
    order: SortOrder,
) {
    (&mut *ptr).sort(column, order)
}
";

pub const TREE_FUNCTIONS: &'static str = "
#[no_mangle]
pub unsafe extern \"C\" fn $1_row_count(
    ptr: *const $0,
    index: COption<usize>,
) -> c_int {
    to_c_int((&*ptr).row_count(index.into()))
}
#[no_mangle]
pub unsafe extern \"C\" fn $1_can_fetch_more(
    ptr: *const $0,
    index: COption<usize>,
) -> bool {
    (&*ptr).can_fetch_more(index.into())
}
#[no_mangle]
pub unsafe extern \"C\" fn $1_fetch_more(ptr: *mut $0, index: COption<usize>) {
    (&mut *ptr).fetch_more(index.into())
}
#[no_mangle]
pub unsafe extern \"C\" fn $1_sort(
    ptr: *mut $0,
    column: u8,
    order: SortOrder
) {
    (&mut *ptr).sort(column, order)
}
#[no_mangle]
pub unsafe extern \"C\" fn $1_check_row(
    ptr: *const $0,
    index: usize,
    row: c_int,
) -> COption<usize> {
    (&*ptr).check_row(index, to_usize(row)).into()
}
#[no_mangle]
pub unsafe extern \"C\" fn $1_index(
    ptr: *const $0,
    index: COption<usize>,
    row: c_int,
) -> usize {
    (&*ptr).index(index.into(), to_usize(row))
}
#[no_mangle]
pub unsafe extern \"C\" fn $1_parent(ptr: *const $0, index: usize) -> QModelIndex {
    if let Some(parent) = (&*ptr).parent(index) {
        QModelIndex {
            row: to_c_int((&*ptr).row(parent)),
            internal_id: parent,
        }
    } else {
        QModelIndex {
            row: -1,
            internal_id: 0,
        }
    }
}
#[no_mangle]
pub unsafe extern \"C\" fn $1_row(ptr: *const $0, index: usize) -> c_int {
    to_c_int((&*ptr).row(index))
}
";

pub const DATA_COMPLEX: &'static str = "
#[no_mangle]
pub unsafe extern \"C\" fn $0_data_$1(
    ptr: *const $2$3,
    d: *mut $4,
    set: fn(*mut $4, *const c_char, len: c_int),
) {
    let o = &*ptr;
    let data = o.$1($5);
    let s: *const c_char = data.as_ptr() as (*const c_char);
    set(d, s, to_c_int(data.len()));
}
";

pub const DATA_OPTIONAL_COMPLEX: &'static str = "
#[no_mangle]
pub unsafe extern \"C\" fn $0_data_$1(
    ptr: *const $2$3,
    d: *mut $4,
    set: fn(*mut $4, *const c_char, len: c_int),
) {
    let o = &*ptr;
    let data = o.$1($5);
    if let Some(data) = data {
        let s: *const c_char = data.as_ptr() as (*const c_char);
        set(d, s, to_c_int(data.len()));
    }
}
";

pub const DATA_VALUE: &'static str = "
#[no_mangle]
pub unsafe extern \"C\" fn $0_data_$1(ptr: *const $2$3) -> $4 {
    let o = &*ptr;
    o.$1($5)$6
}
";

pub const SET_DATA_STRING: &'static str = "
#[no_mangle]
pub unsafe extern \"C\" fn $0_set_data_$1(
    ptr: *mut $2$3,
    s: *const c_ushort, len: c_int,
) -> bool {
    let o = &mut *ptr;
    let mut v = String::new();
    set_string_from_utf16(&mut v, s, len);
    o.set_$1($4, $5)
}
";

pub const SET_DATA_BYTES: &'static str = "
#[no_mangle]
pub unsafe extern \"C\" fn $0_set_data_$1(
    ptr: *mut $2$3,
    s: *const c_char, len: c_int,
) -> bool {
    let o = &mut *ptr;
    let slice = ::std::slice::from_raw_parts(s as *const u8, to_usize(len));
    o.set_$1($4, $5)
}
";

pub const SET_DATA_VALUE: &'static str = "
#[no_mangle]
pub unsafe extern \"C\" fn $0_set_data_$1(
    ptr: *mut $2$3,
    v: $4,
) -> bool {
    (&mut *ptr).set_$1($5, $6)
}
";

pub const SET_DATA_NONE: &'static str = "
#[no_mangle]
pub unsafe extern \"C\" fn $0_set_data_$1_none(ptr: *mut $2$3) -> bool {
    (&mut *ptr).set_$1($4, None)
}
";

pub const OPTION_TYPE: &'static str = "

#[repr(C)]
pub struct COption<T> {
    data: T,
    some: bool,
}

impl<T> COption<T> {
    #![allow(dead_code)]
    fn into(self) -> Option<T> {
        if self.some {
            Some(self.data)
        } else {
            None
        }
    }
}

impl<T> From<Option<T>> for COption<T>
where
    T: Default,
{
    fn from(t: Option<T>) -> COption<T> {
        if let Some(v) = t {
            COption {
                data: v,
                some: true,
            }
        } else {
            COption {
                data: T::default(),
                some: false,
            }
        }
    }
}
";

pub const STRING_TYPE: &'static str = "

pub enum QString {}

fn set_string_from_utf16(s: &mut String, str: *const c_ushort, len: c_int) {
    let utf16 = unsafe { slice::from_raw_parts(str, to_usize(len)) };
    let characters = decode_utf16(utf16.iter().cloned())
        .map(|r| r.unwrap());
    s.clear();
    s.extend(characters);
}

";

pub const BYTES_TYPE: &'static str = "

pub enum QByteArray {}
";

pub const MODEL_TYPES: &'static str = "

#[repr(C)]
#[derive(PartialEq, Eq, Debug)]
pub enum SortOrder {
    Ascending = 0,
    Descending = 1,
}

#[repr(C)]
pub struct QModelIndex {
    row: c_int,
    internal_id: usize,
}
";

pub const TO_USIZE: &'static str = "

fn to_usize(n: c_int) -> usize {
    if n < 0 {
        panic!(\"Cannot cast {} to usize\", n);
    }
    n as usize
}

";

pub const TO_C_INT: &'static str = "
fn to_c_int(n: usize) -> c_int {
    if n > c_int::max_value() as usize {
        panic!(\"Cannot cast {} to c_int\", n);
    }
    n as c_int
}

";

pub const INTERFACE_OPEN: &'static str = "/* generated by rust_qt_binding_generator */
use libc::{c_char, c_ushort, c_int};
use std::slice;
use std::char::decode_utf16;

use std::sync::Arc;
use std::sync::atomic::{AtomicPtr, Ordering};
use std::ptr::null;

use $0$1::*;
";

pub const ITEM_DERIVE: &'static str = "#[derive(Default, Clone)]
";

pub const ITEM_OPEN: &'static str = "struct $0Item {
";

pub const ITEM_FIELD_OPTIONAL: &'static str = "    $0: Option<$1>,
";

pub const ITEM_FIELD: &'static str = "    $0: $1,
";

pub const STRUCT_CLOSE: &'static str = "}

";

pub const OBJECT_OPEN: &'static str = "pub struct $0 {
    emit: $0Emitter,
";

pub const MODEL_PARAMETER_LIST: &'static str = ", model: $0List";

pub const MODEL_FIELD_LIST: &'static str = "    model: $0List,
";

pub const MODEL_PARAMETER_TREE: &'static str = ", model: $0Tree";

pub const MODEL_FIELD_TREE: &'static str = "    model: $0Tree,
";

pub const OBJECT_FIELD: &'static str = "    $0: $1,
";

pub const LIST_FIELD: &'static str = "    list: Vec<$0Item>,
";

pub const OBJECT_PARAMETER: &'static str = ", $0: $1";

pub const IMPL_OPEN: &'static str = "impl $0Trait for $0 {
    fn new(emit: $0Emitter$1) -> $0 {
        $0 {
            emit,
";

pub const NEW_MODEL: &'static str = "            model,
";

pub const NEW_LIST: &'static str = "            list: Vec::new(),
";

pub const NEW_OBJECT_FIELD: &'static str = "            $0,
";

pub const NEW_FIELD: &'static str = "            $0: $1,
";

pub const NEW_CLOSE_AND_EMIT: &'static str = "        }
    }
    fn emit(&mut self) -> &mut $0Emitter {
        &self.emit
    }
";

pub const IMPL_OBJECT_GETTERS: &'static str = "    fn $0(&self) -> &$1 {
        &self.$0
    }
    fn $0_mut(&mut self) -> &mut $1 {
        &mut self.$0
    }
";

pub const IMPL_GETTER_BY_FUNCTION: &'static str = "    fn $0<F>(&self, getter: F)
    where
        F: FnOnce($1),
    {
        getter(&self.$0)
    }
";

pub const IMPL_GETTER_OPEN: &'static str = "    fn $0(&self) -> $1 {
";

pub const IMPL_GETTER_OPTIONAL_COMPLEX: &'static str = "        self.$0.as_ref().map(|p| &p[..])
";

pub const IMPL_GETTER_COMPLEX: &'static str = "        &self.$0
";

pub const IMPL_GETTER_VALUE: &'static str = "        self.$0
";

pub const IMPL_GETTER_CLOSE: &'static str = "    }
";

pub const IMPL_SETTER: &'static str = "    fn set_$0(&mut self, value: $1) {
        self.$0 = value$2;
        self.emit.$0_changed();
    }
";

pub const IMPL_ROW_COUNT_LIST: &'static str = "    fn row_count(&self) -> usize {
        self.list.len()
    }
";

pub const IMPL_TREE: &'static str = "    fn row_count(&self, item: Option<usize>) -> usize {
        self.list.len()
    }
    fn index(&self, item: Option<usize>, row: usize) -> usize {
        0
    }
    fn parent(&self, index: usize) -> Option<usize> {
        None
    }
    fn row(&self, index: usize) -> usize {
        index
    }
    fn check_row(&self, index: usize, _row: usize) -> Option<usize> {
        if index < self.list.len() {
            Some(index)
        } else {
            None
        }
    }
";

pub const IMPL_ITEM_GETTER_OPEN: &'static str = "    fn $0(&self, index: usize) -> $1 {
";

pub const IMPL_ITEM_GETTER_OPTIONAL_COMPLEX: &'static str = "        self.list[index].$0.as_ref().map(|v| &v[..])
";

pub const IMPL_ITEM_GETTER_COMPLEX: &'static str = "        &self.list[index].$0
";

pub const IMPL_ITEM_GETTER_VALUE: &'static str = "        self.list[index].$0
";

pub const IMPL_ITEM_SETTER_OPTIONAL_BYTES: &'static str = "    fn set_$0(&mut self, index: usize, v: Option<&[u8]>) -> bool {
        self.list[index].$0 = v.map(|v| v.to_vec());
        true
    }
";

pub const IMPL_ITEM_SETTER_BYTES: &'static str = "    fn set_$0(&mut self, index: usize, v: &[u8]) -> bool {
        self.list[index].$0 = v.to_vec();
        true
    }
";

pub const IMPL_ITEM_SETTER: &'static str = "    fn set_$0(&mut self, index: usize, v: $1) -> bool {
        self.list[index].$0 = v;
        true
    }
";

pub const IMPLEMENTATION_OPEN: &'static str = "#![allow(unused_imports)]
#![allow(unused_variables)]
#![allow(dead_code)]
use $0$1::*;

";

} // verus!
