//! What can be wrong with a configuration.
use crate::text::{emit, emit1, emit2, emit3, fill};
use vstd::prelude::*;
use vstd::string::*;

verus! {

pub const UNKNOWN_TYPE: &'static str = "Type $2 of property $1 of object $0 cannot be found.";

pub const CYCLIC_TYPE: &'static str = "Object $0 contains itself.";

pub const MISNAMED_OBJECT: &'static str = "Object $0 has no name or stands out of order.";

pub const MISNAMED_PROPERTY: &'static str =
    "Property $1 of object $0 has no name or stands out of order.";

pub const MISNAMED_FUNCTION: &'static str =
    "Function $1 of object $0 has no name or stands out of order.";

pub const MISNAMED_ITEM: &'static str =
    "Item property $1 of object $0 has no name or stands out of order.";

pub const UNKNOWN_ROLE: &'static str = "Role $2 of item property $1 of object $0 is not known.";

pub const MANIFEST_MISSING: &'static str = "$0 does not exist.";

pub const MANIFEST_WITHOUT_PACKAGE: &'static str = "The manifest has no package.";

/// The part of a declaration with which something is wrong.
pub enum Part {
    /// The name of the object itself.
    Name,
    /// The property of this name.
    Property { name: String },
    /// The function of this name.
    Function { name: String },
    /// The item property of this name.
    Item { name: String },
    /// The role, as it is written, of the item property `item`.
    Role { item: String, role: String },
}

/// Why no configuration could be made of the declarations.
pub enum ConfigError {
    /// The type of a property is neither a primitive type nor an object
    /// that is declared.
    UnknownType { object: String, property: String, type_text: String },
    /// An object has itself among its properties, or among those of the
    /// objects that are its properties, and so on.
    CyclicType { object: String },
    /// The object, or the property, function or item property that is
    /// named, has no name or does not stand in the order of the names, or
    /// an item property of a list or tree is shown under a role that is
    /// not known.
    Malformed { object: String, part: Part },
    /// There is no manifest at the path.
    ManifestMissing { path: String },
    /// The manifest could not be read.
    ManifestUnreadable { message: String },
    /// The manifest is no TOML document.
    ManifestInvalid { message: String },
    /// The manifest has no table `package`.
    ManifestWithoutPackage,
}

/// The message of an error.
pub open spec fn message_text(e: ConfigError) -> Seq<char> {
    match e {
        ConfigError::UnknownType { object, property, type_text } => fill(
            UNKNOWN_TYPE@,
            seq![object@, property@, type_text@],
        ),
        ConfigError::CyclicType { object } => fill(CYCLIC_TYPE@, seq![object@]),
        ConfigError::Malformed { object, part } => match part {
            Part::Name => fill(MISNAMED_OBJECT@, seq![object@]),
            Part::Property { name } => fill(MISNAMED_PROPERTY@, seq![object@, name@]),
            Part::Function { name } => fill(MISNAMED_FUNCTION@, seq![object@, name@]),
            Part::Item { name } => fill(MISNAMED_ITEM@, seq![object@, name@]),
            Part::Role { item, role } => fill(UNKNOWN_ROLE@, seq![object@, item@, role@]),
        },
        ConfigError::ManifestMissing { path } => fill(MANIFEST_MISSING@, seq![path@]),
        ConfigError::ManifestUnreadable { message } => message@,
        ConfigError::ManifestInvalid { message } => message@,
        ConfigError::ManifestWithoutPackage => MANIFEST_WITHOUT_PACKAGE@,
    }
}

impl ConfigError {
    /// The message that tells a user of the error.
    pub fn message(&self) -> (r: String)
        ensures
            r@ == message_text(*self),
    {
        broadcast use crate::text::group_concat;

        let mut s = String::new();
        match self {
            ConfigError::UnknownType { object, property, type_text } => {
                emit3(&mut s, UNKNOWN_TYPE, object.as_str(), property.as_str(), type_text.as_str());
            },
            ConfigError::CyclicType { object } => {
                emit1(&mut s, CYCLIC_TYPE, object.as_str());
            },
            ConfigError::Malformed { object, part } => match part {
                Part::Name => {
                    emit1(&mut s, MISNAMED_OBJECT, object.as_str());
                },
                Part::Property { name } => {
                    emit2(&mut s, MISNAMED_PROPERTY, object.as_str(), name.as_str());
                },
                Part::Function { name } => {
                    emit2(&mut s, MISNAMED_FUNCTION, object.as_str(), name.as_str());
                },
                Part::Item { name } => {
                    emit2(&mut s, MISNAMED_ITEM, object.as_str(), name.as_str());
                },
                Part::Role { item, role } => {
                    emit3(&mut s, UNKNOWN_ROLE, object.as_str(), item.as_str(), role.as_str());
                },
            },
            ConfigError::ManifestMissing { path } => {
                emit1(&mut s, MANIFEST_MISSING, path.as_str());
            },
            ConfigError::ManifestUnreadable { message } => {
                emit(&mut s, message.as_str());
            },
            ConfigError::ManifestInvalid { message } => {
                emit(&mut s, message.as_str());
            },
            ConfigError::ManifestWithoutPackage => {
                emit(&mut s, MANIFEST_WITHOUT_PACKAGE);
            },
        }
        s
    }
}

} // verus!
