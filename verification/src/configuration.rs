//! The description of the objects for which bindings are generated.
//!
//! A [`Config`] names the files to write and holds the objects in the order
//! of their names. An object is a plain record, a list or a tree; it has
//! properties, and as a list or tree also item properties, one per field of
//! a row. Each type comes with a view, the mathematical value that the
//! contracts of this crate speak of.
use crate::configuration::json::{functions_view, item_properties_view};
use crate::configuration_private::{
    ConfigPrivate, ItemPropertyPrivate, ObjectPrivate, PropertyPrivate, SimpleTypePrivate, TypeName,
    TypePrivate,
};
use crate::names::{increasing, insert_name, lemma_with_name, names_view, with_name};
use crate::text::{group_concat, lowercase};
use std::rc::Rc;
use vstd::pervasive::unreached;
use vstd::prelude::*;
use vstd::string::*;

pub mod copies;
pub mod form;
pub mod json;
pub mod resolution;

verus! {

/// The edition of the crate that receives the generated Rust code.
#[derive(Clone, Copy, PartialEq, Eq, Structural, Debug)]
pub enum RustEdition {
    Rust2015,
    Rust2018,
    Rust2021,
    Unknown,
}

/// The edition that the text of a manifest's `edition` key stands for; a
/// manifest without the key is of the first edition.
pub open spec fn edition_of(text: Option<Seq<char>>) -> RustEdition {
    match text {
        None => RustEdition::Rust2015,
        Some(s) => if s == "2015"@ {
            RustEdition::Rust2015
        } else if s == "2018"@ {
            RustEdition::Rust2018
        } else if s == "2021"@ {
            RustEdition::Rust2021
        } else {
            RustEdition::Unknown
        },
    }
}

/// The view of an optional string slice.
pub open spec fn optional_text(s: Option<&str>) -> Option<Seq<char>> {
    match s {
        None => None,
        Some(s) => Some(s@),
    }
}

impl<'a> From<Option<&'a str>> for RustEdition {
    fn from(text: Option<&'a str>) -> (r: RustEdition) {
        match text {
            None => RustEdition::Rust2015,
            Some(s) => if s.eq("2015") {
                RustEdition::Rust2015
            } else if s.eq("2018") {
                RustEdition::Rust2018
            } else if s.eq("2021") {
                RustEdition::Rust2021
            } else {
                RustEdition::Unknown
            },
        }
    }
}

impl<'a> vstd::std_specs::convert::FromSpecImpl<Option<&'a str>> for RustEdition {
    open spec fn obeys_from_spec() -> bool {
        true
    }

    open spec fn from_spec(text: Option<&'a str>) -> RustEdition {
        edition_of(optional_text(text))
    }
}

/// Where the generated Rust code goes.
pub struct Rust {
    pub dir: String,
    pub implementation_module: String,
    pub interface_module: String,
}

pub struct RustView {
    pub dir: Seq<char>,
    pub implementation_module: Seq<char>,
    pub interface_module: Seq<char>,
}

impl View for Rust {
    type V = RustView;

    open spec fn view(&self) -> RustView {
        RustView {
            dir: self.dir@,
            implementation_module: self.implementation_module@,
            interface_module: self.interface_module@,
        }
    }
}

/// The kind of an object: a plain record, a flat list or a tree.
#[derive(Clone, Copy, PartialEq, Eq, Structural, Debug)]
pub enum ObjectType {
    Object,
    List,
    Tree,
}

/// The primitive types.
#[derive(Clone, Copy, PartialEq, Eq, Structural, Debug)]
pub enum SimpleType {
    QString,
    QByteArray,
    Bool,
    Float,
    Double,
    Void,
    Qint8,
    Qint16,
    Qint32,
    Qint64,
    QUint8,
    QUint16,
    QUint32,
    QUint64,
}

/// The keyword of a primitive type, which is also its name in C++.
pub open spec fn simple_name(t: SimpleType) -> Seq<char> {
    match t {
        SimpleType::QString => "QString"@,
        SimpleType::QByteArray => "QByteArray"@,
        SimpleType::Bool => "bool"@,
        SimpleType::Float => "float"@,
        SimpleType::Double => "double"@,
        SimpleType::Void => "void"@,
        SimpleType::Qint8 => "qint8"@,
        SimpleType::Qint16 => "qint16"@,
        SimpleType::Qint32 => "qint32"@,
        SimpleType::Qint64 => "qint64"@,
        SimpleType::QUint8 => "quint8"@,
        SimpleType::QUint16 => "quint16"@,
        SimpleType::QUint32 => "quint32"@,
        SimpleType::QUint64 => "quint64"@,
    }
}

/// Whether values of the type have a variable length and live on the heap.
pub open spec fn simple_is_complex(t: SimpleType) -> bool {
    t == SimpleType::QString || t == SimpleType::QByteArray
}

/// The type of the parameter of a C++ setter.
pub open spec fn simple_cpp_set_type(t: SimpleType) -> Seq<char> {
    match t {
        SimpleType::QString => "const QString&"@,
        SimpleType::QByteArray => "const QByteArray&"@,
        _ => simple_name(t),
    }
}

/// The type of the parameter of a setter in the C interface.
pub open spec fn simple_c_set_type(t: SimpleType) -> Seq<char> {
    match t {
        SimpleType::QString => "qstring_t"@,
        SimpleType::QByteArray => "qbytearray_t"@,
        _ => simple_name(t),
    }
}

/// The Rust type.
pub open spec fn simple_rust_type(t: SimpleType) -> Seq<char> {
    match t {
        SimpleType::QString => "String"@,
        SimpleType::QByteArray => "Vec<u8>"@,
        SimpleType::Bool => "bool"@,
        SimpleType::Float => "f32"@,
        SimpleType::Double => "f64"@,
        SimpleType::Void => "()"@,
        SimpleType::Qint8 => "i8"@,
        SimpleType::Qint16 => "i16"@,
        SimpleType::Qint32 => "i32"@,
        SimpleType::Qint64 => "i64"@,
        SimpleType::QUint8 => "u8"@,
        SimpleType::QUint16 => "u16"@,
        SimpleType::QUint32 => "u32"@,
        SimpleType::QUint64 => "u64"@,
    }
}

/// The Rust expression of the type's initial value.
pub open spec fn simple_rust_type_init(t: SimpleType) -> Seq<char> {
    match t {
        SimpleType::QString => "String::new()"@,
        SimpleType::QByteArray => "Vec::new()"@,
        SimpleType::Bool => "false"@,
        SimpleType::Float => "0.0"@,
        SimpleType::Double => "0.0"@,
        SimpleType::Void => "()"@,
        _ => "0"@,
    }
}

impl SimpleTypePrivate for SimpleType {
    /// The keyword of a primitive type, which is also its name in C++.
    fn name(&self) -> (r: &str)
        ensures
            r@ == simple_name(*self),
    {
        match self {
            SimpleType::QString => "QString",
            SimpleType::QByteArray => "QByteArray",
            SimpleType::Bool => "bool",
            SimpleType::Float => "float",
            SimpleType::Double => "double",
            SimpleType::Void => "void",
            SimpleType::Qint8 => "qint8",
            SimpleType::Qint16 => "qint16",
            SimpleType::Qint32 => "qint32",
            SimpleType::Qint64 => "qint64",
            SimpleType::QUint8 => "quint8",
            SimpleType::QUint16 => "quint16",
            SimpleType::QUint32 => "quint32",
            SimpleType::QUint64 => "quint64",
        }
    }

    /// The type of the parameter of a C++ setter.
    fn cpp_set_type(&self) -> (r: &str)
        ensures
            r@ == simple_cpp_set_type(*self),
    {
        match self {
            SimpleType::QString => "const QString&",
            SimpleType::QByteArray => "const QByteArray&",
            _ => self.name(),
        }
    }

    /// The type of the parameter of a setter in the C interface.
    fn c_set_type(&self) -> (r: &str)
        ensures
            r@ == simple_c_set_type(*self),
    {
        match self {
            SimpleType::QString => "qstring_t",
            SimpleType::QByteArray => "qbytearray_t",
            _ => self.name(),
        }
    }

    /// The Rust type.
    fn rust_type(&self) -> (r: &str)
        ensures
            r@ == simple_rust_type(*self),
    {
        match self {
            SimpleType::QString => "String",
            SimpleType::QByteArray => "Vec<u8>",
            SimpleType::Bool => "bool",
            SimpleType::Float => "f32",
            SimpleType::Double => "f64",
            SimpleType::Void => "()",
            SimpleType::Qint8 => "i8",
            SimpleType::Qint16 => "i16",
            SimpleType::Qint32 => "i32",
            SimpleType::Qint64 => "i64",
            SimpleType::QUint8 => "u8",
            SimpleType::QUint16 => "u16",
            SimpleType::QUint32 => "u32",
            SimpleType::QUint64 => "u64",
        }
    }

    /// The Rust expression of the type's initial value.
    fn rust_type_init(&self) -> (r: &str)
        ensures
            r@ == simple_rust_type_init(*self),
    {
        match self {
            SimpleType::QString => "String::new()",
            SimpleType::QByteArray => "Vec::new()",
            SimpleType::Bool => "false",
            SimpleType::Float | SimpleType::Double => "0.0",
            SimpleType::Void => "()",
            _ => "0",
        }
    }

    /// Whether values of the type have a variable length and live on the
    /// heap.
    fn is_complex(&self) -> (r: bool)
        ensures
            r == simple_is_complex(*self),
    {
        match self {
            SimpleType::QString | SimpleType::QByteArray => true,
            _ => false,
        }
    }
}

/// An argument of a function.
pub struct Argument {
    pub name: String,
    pub argument_type: SimpleType,
}

pub struct ArgumentView {
    pub name: Seq<char>,
    pub argument_type: SimpleType,
}

impl View for Argument {
    type V = ArgumentView;

    open spec fn view(&self) -> ArgumentView {
        ArgumentView { name: self.name@, argument_type: self.argument_type }
    }
}

impl TypeName for Argument {
    /// The keyword of a primitive type, which is also its name in C++.
    fn name_of_type(&self) -> (r: &str)
        ensures
            r@ == simple_name(self@.argument_type),
    {
        self.argument_type.name()
    }
}

/// A function that the interface offers.
pub struct Function {
    pub return_type: SimpleType,
    pub mutable: bool,
    pub arguments: Vec<Argument>,
}

pub struct FunctionView {
    pub return_type: SimpleType,
    pub mutable: bool,
    pub arguments: Seq<ArgumentView>,
}

impl View for Function {
    type V = FunctionView;

    open spec fn view(&self) -> FunctionView {
        FunctionView {
            return_type: self.return_type,
            mutable: self.mutable,
            arguments: Seq::new(self.arguments@.len(), |i: int| self.arguments@[i]@),
        }
    }
}

impl TypeName for Function {
    /// The keyword of a primitive type, which is also its name in C++.
    fn name_of_type(&self) -> (r: &str)
        ensures
            r@ == simple_name(self@.return_type),
    {
        self.return_type.name()
    }
}

/// The views of the roles of one column.
pub open spec fn column_roles_view(roles: Vec<String>) -> Seq<Seq<char>> {
    Seq::new(roles@.len(), |i: int| roles@[i]@)
}

/// A field of the rows of a list or of the nodes of a tree.
pub struct ItemProperty {
    pub item_property_type: SimpleType,
    pub optional: bool,
    pub roles: Vec<Vec<String>>,
    pub rust_by_value: bool,
    pub write: bool,
}

pub struct ItemPropertyView {
    pub item_property_type: SimpleType,
    pub optional: bool,
    /// For each column, the names of the display roles under which the
    /// field is shown there.
    pub roles: Seq<Seq<Seq<char>>>,
    pub rust_by_value: bool,
    pub write: bool,
}

impl View for ItemProperty {
    type V = ItemPropertyView;

    open spec fn view(&self) -> ItemPropertyView {
        ItemPropertyView {
            item_property_type: self.item_property_type,
            optional: self.optional,
            roles: Seq::new(self.roles@.len(), |i: int| column_roles_view(self.roles@[i])),
            rust_by_value: self.rust_by_value,
            write: self.write,
        }
    }
}

/// The C++ name of the type of a getter's extra parameters: a pointer to
/// the value and the function that sets it.
pub open spec fn c_get_type_text(name: Seq<char>) -> Seq<char> {
    name + "*, "@ + lowercase(name) + "_set"@
}

/// The type of the parameter of the C++ setter of an item property.
pub open spec fn item_cpp_set_type(p: ItemPropertyView) -> Seq<char> {
    if p.optional {
        "option_"@ + simple_cpp_set_type(p.item_property_type)
    } else {
        simple_cpp_set_type(p.item_property_type)
    }
}

impl TypeName for ItemProperty {
    /// The keyword of a primitive type, which is also its name in C++.
    fn name_of_type(&self) -> (r: &str)
        ensures
            r@ == simple_name(self@.item_property_type),
    {
        self.item_property_type.name()
    }
}

impl ItemPropertyPrivate for ItemProperty {
    /// Whether values of the type have a variable length and live on the
    /// heap.
    fn is_complex(&self) -> (r: bool)
        ensures
            r == simple_is_complex(self@.item_property_type),
    {
        self.item_property_type.is_complex()
    }

    /// The type of the parameter of the C++ setter of an item property.
    fn cpp_set_type(&self) -> (r: String)
        ensures
            r@ == item_cpp_set_type(self@),
    {
        broadcast use group_concat;

        let mut t = String::new();
        if self.optional {
            t.append("option_");
        }
        t.append(self.item_property_type.cpp_set_type());
        t
    }

    /// The C++ name of the type of a getter's extra parameters: a pointer
    /// to the value and the function that sets it.
    fn c_get_type(&self) -> (r: String)
        ensures
            r@ == c_get_type_text(simple_name(self@.item_property_type)),
    {
        let name = self.item_property_type.name();
        let mut t = String::from_str(name);
        t.append("*, ");
        t.append(name.to_lowercase().as_str());
        t.append("_set");
        t
    }

    /// The type of the parameter of a setter in the C interface.
    fn c_set_type(&self) -> (r: &str)
        ensures
            r@ == simple_c_set_type(self@.item_property_type),
    {
        self.item_property_type.c_set_type()
    }
}

/// The type of a property: a primitive type or an object.
pub enum Type {
    Simple(SimpleType),
    Object(Rc<Object>),
}

pub enum TypeView {
    Simple(SimpleType),
    Object(Box<ObjectView>),
}

/// A property of an object.
pub struct Property {
    pub optional: bool,
    pub property_type: Type,
    pub rust_by_function: bool,
    pub write: bool,
}

pub struct PropertyView {
    pub optional: bool,
    pub property_type: TypeView,
    pub rust_by_function: bool,
    pub write: bool,
}

/// An object for which a binding is generated.
pub struct Object {
    pub name: String,
    pub functions: Vec<(String, Function)>,
    pub item_properties: Vec<(String, ItemProperty)>,
    pub object_type: ObjectType,
    pub properties: Vec<(String, Property)>,
}

pub struct ObjectView {
    pub name: Seq<char>,
    pub functions: Seq<(Seq<char>, FunctionView)>,
    pub item_properties: Seq<(Seq<char>, ItemPropertyView)>,
    pub object_type: ObjectType,
    pub properties: Seq<(Seq<char>, PropertyView)>,
}

pub open spec fn type_view(t: Type) -> TypeView
    decreases t,
{
    match t {
        Type::Simple(s) => TypeView::Simple(s),
        Type::Object(o) => TypeView::Object(Box::new(object_view(*o))),
    }
}

pub open spec fn property_view(p: Property) -> PropertyView
    decreases p,
{
    PropertyView {
        optional: p.optional,
        property_type: type_view(p.property_type),
        rust_by_function: p.rust_by_function,
        write: p.write,
    }
}

pub open spec fn object_view(o: Object) -> ObjectView
    decreases o,
{
    ObjectView {
        name: o.name@,
        functions: functions_view(o.functions@),
        item_properties: item_properties_view(o.item_properties@),
        object_type: o.object_type,
        properties: Seq::new(
            o.properties@.len(),
            |i: int|
                if 0 <= i < o.properties@.len() {
                    (o.properties@[i].0@, property_view(o.properties@[i].1))
                } else {
                    arbitrary()
                },
        ),
    }
}

impl View for Type {
    type V = TypeView;

    open spec fn view(&self) -> TypeView {
        type_view(*self)
    }
}

impl View for Property {
    type V = PropertyView;

    open spec fn view(&self) -> PropertyView {
        property_view(*self)
    }
}

impl View for Object {
    type V = ObjectView;

    open spec fn view(&self) -> ObjectView {
        object_view(*self)
    }
}

/// The name of a type.
pub open spec fn type_name_text(t: TypeView) -> Seq<char> {
    match t {
        TypeView::Simple(s) => simple_name(s),
        TypeView::Object(o) => o.name,
    }
}

/// The type of the parameter of a C++ setter.
pub open spec fn type_cpp_set_type(t: TypeView) -> Seq<char> {
    match t {
        TypeView::Simple(s) => simple_cpp_set_type(s),
        TypeView::Object(o) => o.name,
    }
}

/// The type of the parameter of a setter in the C interface.
pub open spec fn type_c_set_type(t: TypeView) -> Seq<char> {
    match t {
        TypeView::Simple(s) => simple_c_set_type(s),
        TypeView::Object(o) => o.name,
    }
}

/// The Rust type.
pub open spec fn type_rust_type(t: TypeView) -> Seq<char> {
    match t {
        TypeView::Simple(s) => simple_rust_type(s),
        TypeView::Object(o) => o.name,
    }
}

/// Whether values of the type have a variable length and live on the heap.
pub open spec fn type_is_complex(t: TypeView) -> bool {
    match t {
        TypeView::Simple(s) => simple_is_complex(s),
        TypeView::Object(_) => false,
    }
}

impl TypePrivate for Type {
    open spec fn is_simple(&self) -> bool {
        self is Simple
    }

    fn is_object(&self) -> (r: bool)
        ensures
            r == (self@ is Object),
    {
        match self {
            Type::Object(_) => true,
            Type::Simple(_) => false,
        }
    }

    /// Whether values of the type have a variable length and live on the
    /// heap.
    fn is_complex(&self) -> (r: bool)
        ensures
            r == type_is_complex(self@),
    {
        match self {
            Type::Simple(simple) => simple.is_complex(),
            Type::Object(_) => false,
        }
    }

    /// The name of a type.
    fn name(&self) -> (r: &str)
        ensures
            r@ == type_name_text(self@),
    {
        match self {
            Type::Simple(s) => s.name(),
            Type::Object(o) => {
                assert(o@.name == o.name@);
                o.name.as_str()
            },
        }
    }

    /// The type of the parameter of a C++ setter.
    fn cpp_set_type(&self) -> (r: &str)
        ensures
            r@ == type_cpp_set_type(self@),
    {
        match self {
            Type::Simple(s) => s.cpp_set_type(),
            Type::Object(o) => {
                assert(o@.name == o.name@);
                o.name.as_str()
            },
        }
    }

    /// The type of the parameter of a setter in the C interface.
    fn c_set_type(&self) -> (r: &str)
        ensures
            r@ == type_c_set_type(self@),
    {
        match self {
            Type::Simple(s) => s.c_set_type(),
            Type::Object(o) => {
                assert(o@.name == o.name@);
                o.name.as_str()
            },
        }
    }

    /// The Rust type.
    fn rust_type(&self) -> (r: &str)
        ensures
            r@ == type_rust_type(self@),
    {
        match self {
            Type::Simple(s) => s.rust_type(),
            Type::Object(o) => {
                assert(o@.name == o.name@);
                o.name.as_str()
            },
        }
    }

    /// The Rust expression of the type's initial value.
    fn rust_type_init(&self) -> (r: &str)
        ensures
            self@ matches TypeView::Simple(s) && r@ == simple_rust_type_init(s),
    {
        match self {
            Type::Simple(s) => s.rust_type_init(),
            Type::Object(_) => unreached(),
        }
    }
}

impl PropertyPrivate for Property {
    fn is_object(&self) -> (r: bool)
        ensures
            r == (self@.property_type is Object),
    {
        self.property_type.is_object()
    }

    /// Whether values of the type have a variable length and live on the
    /// heap.
    fn is_complex(&self) -> (r: bool)
        ensures
            r == type_is_complex(self@.property_type),
    {
        self.property_type.is_complex()
    }

    /// The C++ name of the type of a getter's extra parameters: a pointer
    /// to the value and the function that sets it.
    fn c_get_type(&self) -> (r: String)
        ensures
            r@ == c_get_type_text(type_name_text(self@.property_type)),
    {
        let name = self.property_type.name();
        let mut t = String::from_str(name);
        t.append("*, ");
        t.append(name.to_lowercase().as_str());
        t.append("_set");
        t
    }
}

impl TypeName for Property {
    /// The name of a type.
    fn name_of_type(&self) -> (r: &str)
        ensures
            r@ == type_name_text(self@.property_type),
    {
        self.property_type.name()
    }
}

/// Whether a property of the object is itself an object.
pub open spec fn contains_object(o: ObjectView) -> bool {
    exists|i: int| 0 <= i < o.properties.len() && (#[trigger] o.properties[i]).1.property_type is Object
}

/// The greatest number of columns for which one of the first `n` item
/// properties lists roles, and 1 at least.
pub open spec fn widest_roles(items: Seq<(Seq<char>, ItemPropertyView)>, n: nat) -> nat
    decreases n,
{
    if n == 0 {
        1
    } else {
        let before = widest_roles(items, (n - 1) as nat);
        let here = items[n - 1].1.roles.len();
        if here > before {
            here
        } else {
            before
        }
    }
}

/// The number of columns of the object.
pub open spec fn column_count(o: ObjectView) -> nat {
    widest_roles(o.item_properties, o.item_properties.len())
}

/// Whether the item property at position `i` lists roles for `column`,
/// be it none.
pub open spec fn lists_column(o: ObjectView, i: int, column: int) -> bool {
    0 <= i < o.item_properties.len() && 0 <= column < o.item_properties[i].1.roles.len()
}

proof fn lemma_widest_roles(items: Seq<(Seq<char>, ItemPropertyView)>, n: nat)
    requires
        n <= items.len(),
    ensures
        widest_roles(items, n) >= 1,
        forall|i: int| 0 <= i < n ==> (#[trigger] items[i]).1.roles.len() <= widest_roles(items, n),
        widest_roles(items, n) > 1 ==> exists|i: int|
            0 <= i < n && (#[trigger] items[i]).1.roles.len() == widest_roles(items, n),
    decreases n,
{
    if n > 0 {
        lemma_widest_roles(items, (n - 1) as nat);
        let before = widest_roles(items, (n - 1) as nat);
        if widest_roles(items, n) > 1 {
            if items[n - 1].1.roles.len() > before {
                assert(items[n - 1].1.roles.len() == widest_roles(items, n));
            } else {
                let i = choose|i: int| 0 <= i < n - 1 && (#[trigger] items[i]).1.roles.len() == before;
                assert(items[i].1.roles.len() == widest_roles(items, n));
            }
        }
    }
}

/// An object has one column at least. Every column for which an item
/// property lists roles is one of its columns, and where it has more than
/// one column, some item property lists roles for the last of them: the
/// number of columns is one more than the highest column that is named.
pub proof fn lemma_column_count(o: ObjectView)
    ensures
        column_count(o) >= 1,
        forall|i: int, column: int| #[trigger] lists_column(o, i, column) ==> column < column_count(o),
        column_count(o) > 1 ==> exists|i: int|
            0 <= i < o.item_properties.len() && (#[trigger] o.item_properties[i]).1.roles.len()
                == column_count(o),
{
    lemma_widest_roles(o.item_properties, o.item_properties.len());
}

impl ObjectPrivate for Object {
    /// Whether a property of the object is itself an object.
    fn contains_object(&self) -> (r: bool)
        ensures
            r == contains_object(self@),
    {
        let mut i: usize = 0;
        while i < self.properties.len()
            invariant
                i <= self.properties.len(),
                forall|k: int| 0 <= k < i ==> !((#[trigger] self@.properties[k]).1.property_type is Object),
            decreases self.properties.len() - i,
        {
            if self.properties[i].1.is_object() {
                assert(self@.properties[i as int].1.property_type is Object);
                return true;
            }
            i = i + 1;
        }
        false
    }

    /// The number of columns of the object.
    fn column_count(&self) -> (r: usize)
        ensures
            r == column_count(self@),
            r >= 1,
    {
        let mut count: usize = 1;
        let mut i: usize = 0;
        while i < self.item_properties.len()
            invariant
                i <= self.item_properties.len(),
                count == widest_roles(self@.item_properties, i as nat),
            decreases self.item_properties.len() - i,
        {
            let here = self.item_properties[i].1.roles.len();
            if here > count {
                count = here;
            }
            i = i + 1;
        }
        proof {
            lemma_column_count(self@);
        }
        count
    }
}

/// All that is generated: the files to write and the objects.
pub struct Config {
    pub config_file: String,
    pub cpp_file: String,
    /// The objects, each under its name.
    pub objects: Vec<(String, Rc<Object>)>,
    pub rust: Rust,
    pub rust_edition: RustEdition,
    pub overwrite_implementation: bool,
}

pub struct ConfigView {
    pub config_file: Seq<char>,
    pub cpp_file: Seq<char>,
    pub objects: Seq<(Seq<char>, ObjectView)>,
    pub rust: RustView,
    pub rust_edition: RustEdition,
    pub overwrite_implementation: bool,
}

/// The views of objects, each under its name.
pub open spec fn made_view(made: Seq<(String, Rc<Object>)>) -> Seq<(Seq<char>, ObjectView)> {
    Seq::new(made.len(), |i: int| (made[i].0@, object_view(*made[i].1)))
}

impl View for Config {
    type V = ConfigView;

    open spec fn view(&self) -> ConfigView {
        ConfigView {
            config_file: self.config_file@,
            cpp_file: self.cpp_file@,
            objects: made_view(self.objects@),
            rust: self.rust@,
            rust_edition: self.rust_edition,
            overwrite_implementation: self.overwrite_implementation,
        }
    }
}

/// Whether one of the objects is a list or a tree.
pub open spec fn has_list_or_tree(conf: ConfigView) -> bool {
    exists|i: int| 0 <= i < conf.objects.len() && (#[trigger] conf.objects[i]).1.object_type != ObjectType::Object
}

/// `names` with the names of the types of the first `n` properties.
pub open spec fn property_type_names(
    names: Seq<Seq<char>>,
    properties: Seq<(Seq<char>, PropertyView)>,
    n: nat,
) -> Seq<Seq<char>>
    decreases n,
{
    if n == 0 {
        names
    } else {
        with_name(
            property_type_names(names, properties, (n - 1) as nat),
            type_name_text(properties[n - 1].1.property_type),
        )
    }
}

/// `names` with the names of the types of the first `n` item properties.
pub open spec fn item_type_names(
    names: Seq<Seq<char>>,
    items: Seq<(Seq<char>, ItemPropertyView)>,
    n: nat,
) -> Seq<Seq<char>>
    decreases n,
{
    if n == 0 {
        names
    } else {
        with_name(
            item_type_names(names, items, (n - 1) as nat),
            simple_name(items[n - 1].1.item_property_type),
        )
    }
}

/// `names` with the names of the types of the first `n` arguments.
pub open spec fn argument_type_names(
    names: Seq<Seq<char>>,
    arguments: Seq<ArgumentView>,
    n: nat,
) -> Seq<Seq<char>>
    decreases n,
{
    if n == 0 {
        names
    } else {
        with_name(
            argument_type_names(names, arguments, (n - 1) as nat),
            simple_name(arguments[n - 1].argument_type),
        )
    }
}

/// `names` with the names of the types that the first `n` functions
/// return and take.
pub open spec fn function_type_names(
    names: Seq<Seq<char>>,
    functions: Seq<(Seq<char>, FunctionView)>,
    n: nat,
) -> Seq<Seq<char>>
    decreases n,
{
    if n == 0 {
        names
    } else {
        let f = functions[n - 1].1;
        argument_type_names(
            with_name(
                function_type_names(names, functions, (n - 1) as nat),
                simple_name(f.return_type),
            ),
            f.arguments,
            f.arguments.len(),
        )
    }
}

/// `names` with the names of the types that the object uses.
pub open spec fn object_type_names(names: Seq<Seq<char>>, o: ObjectView) -> Seq<Seq<char>> {
    function_type_names(
        item_type_names(
            property_type_names(names, o.properties, o.properties.len()),
            o.item_properties,
            o.item_properties.len(),
        ),
        o.functions,
        o.functions.len(),
    )
}

/// The names of the types that the first `n` objects use.
pub open spec fn type_names(objects: Seq<(Seq<char>, ObjectView)>, n: nat) -> Seq<Seq<char>>
    decreases n,
{
    if n == 0 {
        Seq::empty()
    } else {
        object_type_names(type_names(objects, (n - 1) as nat), objects[n - 1].1)
    }
}

/// `names` with the names of the types of the optional ones among the
/// first `n` properties.
pub open spec fn optional_property_type_names(
    names: Seq<Seq<char>>,
    properties: Seq<(Seq<char>, PropertyView)>,
    n: nat,
) -> Seq<Seq<char>>
    decreases n,
{
    if n == 0 {
        names
    } else {
        let before = optional_property_type_names(names, properties, (n - 1) as nat);
        if properties[n - 1].1.optional {
            with_name(before, type_name_text(properties[n - 1].1.property_type))
        } else {
            before
        }
    }
}

/// `names` with the names of the types of the optional ones among the
/// first `n` item properties.
pub open spec fn optional_item_type_names(
    names: Seq<Seq<char>>,
    items: Seq<(Seq<char>, ItemPropertyView)>,
    n: nat,
) -> Seq<Seq<char>>
    decreases n,
{
    if n == 0 {
        names
    } else {
        let before = optional_item_type_names(names, items, (n - 1) as nat);
        if items[n - 1].1.optional {
            with_name(before, simple_name(items[n - 1].1.item_property_type))
        } else {
            before
        }
    }
}

/// `names` with the names of the types that the object uses as optional
/// values; a list or a tree uses optional row identifiers.
pub open spec fn optional_object_type_names(names: Seq<Seq<char>>, o: ObjectView) -> Seq<
    Seq<char>,
> {
    let used = optional_item_type_names(
        optional_property_type_names(names, o.properties, o.properties.len()),
        o.item_properties,
        o.item_properties.len(),
    );
    if o.object_type != ObjectType::Object {
        with_name(used, "quintptr"@)
    } else {
        used
    }
}

/// The names of the types that the first `n` objects use as optional
/// values.
pub open spec fn optional_type_names(objects: Seq<(Seq<char>, ObjectView)>, n: nat) -> Seq<
    Seq<char>,
>
    decreases n,
{
    if n == 0 {
        Seq::empty()
    } else {
        optional_object_type_names(optional_type_names(objects, (n - 1) as nat), objects[n - 1].1)
    }
}

/// Writes `names` with the names of the types that the object uses.
fn add_object_types(names: &mut Vec<String>, o: &Object)
    ensures
        names_view(final(names)@) == object_type_names(names_view(old(names)@), o@),
{
    let ghost start = names_view(names@);
    let mut i: usize = 0;
    while i < o.properties.len()
        invariant
            i <= o.properties.len(),
            names_view(names@) == property_type_names(start, o@.properties, i as nat),
        decreases o.properties.len() - i,
    {
        insert_name(names, o.properties[i].1.name_of_type());
        i = i + 1;
    }
    let ghost with_properties = names_view(names@);
    let mut i: usize = 0;
    while i < o.item_properties.len()
        invariant
            i <= o.item_properties.len(),
            names_view(names@) == item_type_names(with_properties, o@.item_properties, i as nat),
        decreases o.item_properties.len() - i,
    {
        insert_name(names, o.item_properties[i].1.name_of_type());
        i = i + 1;
    }
    let ghost with_items = names_view(names@);
    let mut i: usize = 0;
    while i < o.functions.len()
        invariant
            i <= o.functions.len(),
            names_view(names@) == function_type_names(with_items, o@.functions, i as nat),
        decreases o.functions.len() - i,
    {
        let f = &o.functions[i].1;
        insert_name(names, f.return_type.name());
        let ghost with_return = names_view(names@);
        let mut k: usize = 0;
        while k < f.arguments.len()
            invariant
                k <= f.arguments.len(),
                names_view(names@) == argument_type_names(with_return, f@.arguments, k as nat),
            decreases f.arguments.len() - k,
        {
            insert_name(names, f.arguments[k].name_of_type());
            k = k + 1;
        }
        i = i + 1;
    }
}

/// Writes `names` with the names of the types that the object uses as
/// optional values; a list or a tree uses optional row identifiers.
fn add_optional_object_types(names: &mut Vec<String>, o: &Object)
    ensures
        names_view(final(names)@) == optional_object_type_names(names_view(old(names)@), o@),
{
    let ghost start = names_view(names@);
    let mut i: usize = 0;
    while i < o.properties.len()
        invariant
            i <= o.properties.len(),
            names_view(names@) == optional_property_type_names(start, o@.properties, i as nat),
        decreases o.properties.len() - i,
    {
        if o.properties[i].1.optional {
            insert_name(names, o.properties[i].1.name_of_type());
        }
        i = i + 1;
    }
    let ghost with_properties = names_view(names@);
    let mut i: usize = 0;
    while i < o.item_properties.len()
        invariant
            i <= o.item_properties.len(),
            names_view(names@) == optional_item_type_names(
                with_properties,
                o@.item_properties,
                i as nat,
            ),
        decreases o.item_properties.len() - i,
    {
        if o.item_properties[i].1.optional {
            insert_name(names, o.item_properties[i].1.name_of_type());
        }
        i = i + 1;
    }
    match o.object_type {
        ObjectType::Object => {},
        _ => {
            insert_name(names, "quintptr");
        },
    }
}

/// The names of the types in use come in order, each once.
pub proof fn lemma_type_names_increasing(objects: Seq<(Seq<char>, ObjectView)>, n: nat)
    ensures
        increasing(type_names(objects, n)),
    decreases n,
{
    if n > 0 {
        lemma_type_names_increasing(objects, (n - 1) as nat);
        let o = objects[n - 1].1;
        let a = type_names(objects, (n - 1) as nat);
        lemma_property_type_names_increasing(a, o.properties, o.properties.len());
        let b = property_type_names(a, o.properties, o.properties.len());
        lemma_item_type_names_increasing(b, o.item_properties, o.item_properties.len());
        let c = item_type_names(b, o.item_properties, o.item_properties.len());
        lemma_function_type_names_increasing(c, o.functions, o.functions.len());
    }
}

proof fn lemma_property_type_names_increasing(
    names: Seq<Seq<char>>,
    properties: Seq<(Seq<char>, PropertyView)>,
    n: nat,
)
    requires
        increasing(names),
    ensures
        increasing(property_type_names(names, properties, n)),
    decreases n,
{
    if n > 0 {
        lemma_property_type_names_increasing(names, properties, (n - 1) as nat);
        lemma_with_name(
            property_type_names(names, properties, (n - 1) as nat),
            type_name_text(properties[n - 1].1.property_type),
        );
    }
}

proof fn lemma_item_type_names_increasing(
    names: Seq<Seq<char>>,
    items: Seq<(Seq<char>, ItemPropertyView)>,
    n: nat,
)
    requires
        increasing(names),
    ensures
        increasing(item_type_names(names, items, n)),
    decreases n,
{
    if n > 0 {
        lemma_item_type_names_increasing(names, items, (n - 1) as nat);
        lemma_with_name(
            item_type_names(names, items, (n - 1) as nat),
            simple_name(items[n - 1].1.item_property_type),
        );
    }
}

proof fn lemma_argument_type_names_increasing(
    names: Seq<Seq<char>>,
    arguments: Seq<ArgumentView>,
    n: nat,
)
    requires
        increasing(names),
    ensures
        increasing(argument_type_names(names, arguments, n)),
    decreases n,
{
    if n > 0 {
        lemma_argument_type_names_increasing(names, arguments, (n - 1) as nat);
        lemma_with_name(
            argument_type_names(names, arguments, (n - 1) as nat),
            simple_name(arguments[n - 1].argument_type),
        );
    }
}

proof fn lemma_function_type_names_increasing(
    names: Seq<Seq<char>>,
    functions: Seq<(Seq<char>, FunctionView)>,
    n: nat,
)
    requires
        increasing(names),
    ensures
        increasing(function_type_names(names, functions, n)),
    decreases n,
{
    if n > 0 {
        lemma_function_type_names_increasing(names, functions, (n - 1) as nat);
        let f = functions[n - 1].1;
        let before = function_type_names(names, functions, (n - 1) as nat);
        lemma_with_name(before, simple_name(f.return_type));
        lemma_argument_type_names_increasing(
            with_name(before, simple_name(f.return_type)),
            f.arguments,
            f.arguments.len(),
        );
    }
}

/// The names of the types in use as optional values come in order, each
/// once.
pub proof fn lemma_optional_type_names_increasing(objects: Seq<(Seq<char>, ObjectView)>, n: nat)
    ensures
        increasing(optional_type_names(objects, n)),
    decreases n,
{
    if n > 0 {
        lemma_optional_type_names_increasing(objects, (n - 1) as nat);
        let o = objects[n - 1].1;
        let a = optional_type_names(objects, (n - 1) as nat);
        lemma_optional_property_type_names_increasing(a, o.properties, o.properties.len());
        let b = optional_property_type_names(a, o.properties, o.properties.len());
        lemma_optional_item_type_names_increasing(b, o.item_properties, o.item_properties.len());
        let c = optional_item_type_names(b, o.item_properties, o.item_properties.len());
        lemma_with_name(c, "quintptr"@);
    }
}

proof fn lemma_optional_property_type_names_increasing(
    names: Seq<Seq<char>>,
    properties: Seq<(Seq<char>, PropertyView)>,
    n: nat,
)
    requires
        increasing(names),
    ensures
        increasing(optional_property_type_names(names, properties, n)),
    decreases n,
{
    if n > 0 {
        lemma_optional_property_type_names_increasing(names, properties, (n - 1) as nat);
        lemma_with_name(
            optional_property_type_names(names, properties, (n - 1) as nat),
            type_name_text(properties[n - 1].1.property_type),
        );
    }
}

proof fn lemma_optional_item_type_names_increasing(
    names: Seq<Seq<char>>,
    items: Seq<(Seq<char>, ItemPropertyView)>,
    n: nat,
)
    requires
        increasing(names),
    ensures
        increasing(optional_item_type_names(names, items, n)),
    decreases n,
{
    if n > 0 {
        lemma_optional_item_type_names_increasing(names, items, (n - 1) as nat);
        lemma_with_name(
            optional_item_type_names(names, items, (n - 1) as nat),
            simple_name(items[n - 1].1.item_property_type),
        );
    }
}

impl ConfigPrivate for Config {
    /// The names of the types that the objects use.
    fn types(&self) -> (r: Vec<String>)
        ensures
            names_view(r@) == type_names(self@.objects, self@.objects.len()),
            increasing(names_view(r@)),
    {
        let mut names: Vec<String> = Vec::new();
        assert(names_view(names@) =~= Seq::empty());
        let mut i: usize = 0;
        while i < self.objects.len()
            invariant
                i <= self.objects.len(),
                names_view(names@) == type_names(self@.objects, i as nat),
            decreases self.objects.len() - i,
        {
            add_object_types(&mut names, &self.objects[i].1);
            i = i + 1;
        }
        proof {
            lemma_type_names_increasing(self@.objects, self@.objects.len());
        }
        names
    }

    /// The names of the types that the objects use as optional values.
    fn optional_types(&self) -> (r: Vec<String>)
        ensures
            names_view(r@) == optional_type_names(self@.objects, self@.objects.len()),
            increasing(names_view(r@)),
    {
        let mut names: Vec<String> = Vec::new();
        assert(names_view(names@) =~= Seq::empty());
        let mut i: usize = 0;
        while i < self.objects.len()
            invariant
                i <= self.objects.len(),
                names_view(names@) == optional_type_names(self@.objects, i as nat),
            decreases self.objects.len() - i,
        {
            add_optional_object_types(&mut names, &self.objects[i].1);
            i = i + 1;
        }
        proof {
            lemma_optional_type_names_increasing(self@.objects, self@.objects.len());
        }
        names
    }

    /// Whether one of the objects is a list or a tree.
    fn has_list_or_tree(&self) -> (r: bool)
        ensures
            r == has_list_or_tree(self@),
    {
        let mut i: usize = 0;
        while i < self.objects.len()
            invariant
                i <= self.objects.len(),
                forall|k: int| 0 <= k < i ==> (#[trigger] self@.objects[k]).1.object_type == ObjectType::Object,
            decreases self.objects.len() - i,
        {
            match self.objects[i].1.object_type {
                ObjectType::Object => {},
                _ => {
                    assert(self@.objects[i as int].1.object_type != ObjectType::Object);
                    return true;
                },
            }
            i = i + 1;
        }
        false
    }
}

} // verus!
