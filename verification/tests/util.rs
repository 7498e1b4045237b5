use rust_qt_binding_generator::configuration::{Object, ObjectType};
use rust_qt_binding_generator::cpp::{
    base_type, changed_f, lower_initial, role_name, upper_initial, write_property,
};
use rust_qt_binding_generator::util::{checked_snake_case, snake_case_ready, split_initial};

fn named(name: &str, object_type: ObjectType) -> Object {
    Object {
        name: name.to_string(),
        functions: Vec::new(),
        item_properties: Vec::new(),
        object_type,
        properties: Vec::new(),
    }
}

#[test]
fn names_in_snake_case() {
    assert!(snake_case_ready());
    assert_eq!(checked_snake_case("fileName"), Some("file_name".to_string()));
    assert_eq!(checked_snake_case("FileSystemTree"), Some("file_system_tree".to_string()));
    assert_eq!(checked_snake_case("person"), Some("person".to_string()));
    assert_eq!(checked_snake_case("A"), Some("a".to_string()));
    assert_eq!(checked_snake_case("userID"), Some("user_i_d".to_string()));
    assert_eq!(checked_snake_case("file_name"), Some("file_name".to_string()));
    assert_eq!(checked_snake_case(""), Some("".to_string()));
}

#[test]
fn a_name_is_parted_behind_its_first_character() {
    assert_eq!(split_initial("name"), ("n", "ame"));
    assert_eq!(split_initial("n"), ("n", ""));
    assert_eq!(split_initial(""), ("", ""));
    assert_eq!(split_initial("\u{e4}b"), ("\u{e4}", "b"));
}

#[test]
fn initials() {
    assert_eq!(upper_initial("userName"), "UserName");
    assert_eq!(upper_initial("UserName"), "UserName");
    assert_eq!(upper_initial("x"), "X");
    assert_eq!(lower_initial("UserName"), "userName");
    assert_eq!(lower_initial("userName"), "userName");
    assert_eq!(upper_initial(""), "");
}

#[test]
fn the_setter_in_a_property_declaration() {
    assert_eq!(write_property("userName"), "WRITE setUserName ");
}

#[test]
fn the_function_that_tells_of_a_change() {
    assert_eq!(changed_f(&named("Person", ObjectType::Object), "userName"), "personUserNameChanged");
}

#[test]
fn the_base_class() {
    assert_eq!(base_type(&named("A", ObjectType::Object)), "QObject");
    assert_eq!(base_type(&named("A", ObjectType::List)), "QAbstractItemModel");
    assert_eq!(base_type(&named("A", ObjectType::Tree)), "QAbstractItemModel");
}

#[test]
fn the_names_of_the_roles() {
    assert_eq!(role_name("display"), "DisplayRole");
    assert_eq!(role_name("decoration"), "DecorationRole");
    assert_eq!(role_name("edit"), "EditRole");
    assert_eq!(role_name("toolTip"), "ToolTipRole");
    assert_eq!(role_name("statustip"), "StatusTipRole");
    assert_eq!(role_name("whatsthis"), "WhatsThisRole");
}
