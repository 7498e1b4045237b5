use rust_qt_binding_generator::configuration::RustEdition;
use rust_qt_binding_generator::error::ConfigError;
use rust_qt_binding_generator::manifest::{
    edition_entry, find_key, is_shallow, manifest_edition, rust_edition, EditionEntry, Manifest,
};

#[test]
fn editions_by_their_text() {
    assert!(matches!(RustEdition::from(None), RustEdition::Rust2015));
    assert!(matches!(RustEdition::from(Some("2015")), RustEdition::Rust2015));
    assert!(matches!(RustEdition::from(Some("2018")), RustEdition::Rust2018));
    assert!(matches!(RustEdition::from(Some("2021")), RustEdition::Rust2021));
    assert!(matches!(RustEdition::from(Some("2024")), RustEdition::Unknown));
    assert!(matches!(RustEdition::from(Some("")), RustEdition::Unknown));
}

#[test]
fn the_edition_is_found_in_the_package() {
    match edition_entry("[package]\nname = \"demo\"\nedition = \"2018\"\n") {
        EditionEntry::Found(Some(text)) => assert_eq!(text, "2018"),
        _ => panic!("no edition found"),
    }
    assert!(matches!(edition_entry("[package]\nname = \"demo\"\n"), EditionEntry::Found(None)));
    assert!(matches!(edition_entry("[package]\nedition = 2018\n"), EditionEntry::Found(None)));
    assert!(matches!(edition_entry("package = 3\n"), EditionEntry::Found(None)));
}

#[test]
fn a_manifest_without_package_or_sense() {
    assert!(matches!(edition_entry("[workspace]\nmembers = []\n"), EditionEntry::WithoutPackage));
    assert!(matches!(edition_entry(""), EditionEntry::WithoutPackage));
    match edition_entry("[package\nname = ") {
        EditionEntry::Invalid { message } => assert!(!message.is_empty()),
        _ => panic!("the text was taken for a document"),
    }
}

#[test]
fn entries_become_editions_or_errors() {
    assert!(matches!(rust_edition(EditionEntry::Found(None)), Ok(RustEdition::Rust2015)));
    assert!(matches!(
        rust_edition(EditionEntry::Found(Some("2021".to_string()))),
        Ok(RustEdition::Rust2021)
    ));
    assert!(matches!(
        rust_edition(EditionEntry::WithoutPackage),
        Err(ConfigError::ManifestWithoutPackage)
    ));
    match rust_edition(EditionEntry::Invalid { message: "bad".to_string() }) {
        Err(ConfigError::ManifestInvalid { message }) => assert_eq!(message, "bad"),
        _ => panic!("no error"),
    }
}

#[test]
fn manifests() {
    assert!(matches!(
        manifest_edition(Manifest::Text("[package]\nedition = \"2018\"\n".to_string())),
        Ok(RustEdition::Rust2018)
    ));
    match manifest_edition(Manifest::Missing { path: "rust/Cargo.toml".to_string() }) {
        Err(e) => assert_eq!(e.message(), "rust/Cargo.toml does not exist."),
        Ok(_) => panic!("no error"),
    }
    match manifest_edition(Manifest::Unreadable { message: "denied".to_string() }) {
        Err(e) => assert_eq!(e.message(), "denied"),
        Ok(_) => panic!("no error"),
    }
    match manifest_edition(Manifest::Text("[dependencies]\n".to_string())) {
        Err(e) => assert_eq!(e.message(), "The manifest has no package."),
        Ok(_) => panic!("no error"),
    }
}

#[test]
fn the_edition_is_looked_for_in_the_package_only() {
    let text = "edition = \"2015\"\n[dependencies]\nedition = \"2018\"\n[package]\nname = \"n\"\nedition = \"2021\"\n[zoo]\nedition = \"2024\"\n";
    match edition_entry(text) {
        EditionEntry::Found(Some(text)) => assert_eq!(text, "2021"),
        _ => panic!("no edition found"),
    }
    assert!(matches!(edition_entry("package = \"2018\"\n"), EditionEntry::Found(None)));
    assert!(matches!(edition_entry("[package.edition]\nyear = \"2018\"\n"), EditionEntry::Found(None)));
    assert!(matches!(edition_entry("[[package]]\nedition = \"2018\"\n"), EditionEntry::Found(None)));
    assert!(matches!(edition_entry("[Package]\nedition = \"2018\"\n"), EditionEntry::WithoutPackage));
    match edition_entry("[package]\nedition = \"\"\n") {
        EditionEntry::Found(Some(text)) => assert_eq!(text, ""),
        _ => panic!("no edition found"),
    }
}

#[test]
fn the_first_entry_under_a_key() {
    let entries: Vec<(String, u8)> =
        vec![("a".to_string(), 1), ("b".to_string(), 2), ("a".to_string(), 3)];
    assert_eq!(find_key(&entries, "a"), Some(0));
    assert_eq!(find_key(&entries, "b"), Some(1));
    assert_eq!(find_key(&entries, "c"), None);
    assert_eq!(find_key(&Vec::<(String, u8)>::new(), "a"), None);
}

#[test]
fn a_flat_manifest_is_shallow_however_long() {
    assert!(is_shallow(""));
    assert!(is_shallow("[package]\nname = \"x\"\nversion = \"1.0.0\"\nauthors = [\"a.b@c.d\"]\n"));
    assert!(is_shallow(&"[]\n".repeat(1000)));
    assert!(is_shallow(&"[[bin]]\nname = \"a\"\n".repeat(1000)));
    assert!(is_shallow(&"x = { a = [1.5, 2.5], b = { c = \"d\" } }\n".repeat(1000)));
    assert!(is_shallow(&format!("a = [{}]\n", "1.5, ".repeat(1000))));
    assert!(is_shallow(&format!("a = [{}]\n", "[1], ".repeat(1000))));
    assert!(is_shallow(&format!("a = \"{}\"\n", "[{.".repeat(1000))));
    assert!(is_shallow(&format!("a = '{}'\n", "[{.\"\\".repeat(1000))));
    assert!(is_shallow(&format!("a = \"\"\"\n{}\n\"\"\"\n", "[{.\n\"\"'".repeat(1000))));
    assert!(is_shallow(&format!("a = '''\n{}\n'''\n", "[{.\n''\"\\".repeat(1000))));
    assert!(is_shallow(&format!("a = 1 # {}\n", "[{.\"'".repeat(1000))));
    assert!(is_shallow(&format!("a = \"{}\"\n", "\\\"[".repeat(1000))));
}

#[test]
fn brackets_that_are_open_at_once_are_counted() {
    assert!(is_shallow(&format!("a = {}{}", "[".repeat(254), "]".repeat(254))));
    assert!(!is_shallow(&format!("a = {}{}", "[".repeat(255), "]".repeat(255))));
    assert!(is_shallow(&"{".repeat(254)));
    assert!(is_shallow(&format!("{}{}", "[".repeat(127), "{".repeat(127))));
    assert!(!is_shallow(&format!("{}{}", "[".repeat(128), "{".repeat(127))));
    assert!(is_shallow(&format!("{}]{}", "[".repeat(254), "[")));
    assert!(!is_shallow(&format!("{}]{}", "[".repeat(254), "[[")));
    assert!(is_shallow(&"[[1, 2], [3, [4, 5]]]\n".repeat(1000)));
    assert!(!is_shallow(&format!("a = [\"{}\", {}", "]".repeat(1000), "[".repeat(254))));
    assert!(!is_shallow(&format!("a = [ # {}\n{}", "]".repeat(1000), "[".repeat(254))));
    assert!(!is_shallow(&format!("a = ['{}', {}", "]".repeat(1000), "[".repeat(254))));
    assert!(!is_shallow(&format!("a = [\"\"\"{}\"\"\", {}", "]\n".repeat(1000), "[".repeat(254))));
    assert!(!is_shallow(&format!("a = [\"\\\"{}\", {}", "]".repeat(1000), "[".repeat(254))));
    assert!(!is_shallow(&format!("a = \"\" {}", "[".repeat(255))));
    assert!(!is_shallow(&format!("a = \"\"\"x\"\"\"\"\" {}", "[".repeat(255))));
    assert!(is_shallow(&format!("a = \"\"\"x\"\"\"\"\"\" {}", "[".repeat(255))));
    assert!(!is_shallow(&format!("a = \"x\"\r\n{}", "[".repeat(255))));
    assert!(!is_shallow(&format!("# x\r\n{}", "[".repeat(255))));
    assert!(!is_shallow(&format!("# x\r{}", "[".repeat(255))));
    assert!(is_shallow(&format!("# x\t{}", "[".repeat(255))));
}

#[test]
fn the_periods_of_one_key_are_counted() {
    assert!(is_shallow(&format!("a{} = 1", ".a".repeat(127))));
    assert!(!is_shallow(&format!("a{} = 1", ".a".repeat(128))));
    assert!(is_shallow(&format!("[a{}]", ". \"b\" ".repeat(84))));
    assert!(!is_shallow(&format!("[a{}]", ". \"b\" ".repeat(85))));
    assert!(is_shallow(&format!("x = {{ a{} = 1 }}", ".'b'".repeat(84))));
    assert!(!is_shallow(&format!("x = {{ a{} = 1 }}", ".'b'".repeat(85))));
    assert!(is_shallow(&"a.b = 1.5\n".repeat(1000)));
    assert!(is_shallow(&format!("a = [{}]", "1.5, ".repeat(1000))));
    assert!(is_shallow(&format!("a = \"{}\"", ".".repeat(1000))));
    assert!(is_shallow(&format!("{}={}", ".".repeat(127), ".".repeat(127))));
}

#[test]
fn brackets_count_for_more_behind_a_key_of_many_parts() {
    assert!(is_shallow(&format!("a.b.c.d = {}", "[".repeat(62))));
    assert!(!is_shallow(&format!("a.b.c.d = {}", "[".repeat(63))));
    assert!(is_shallow(&format!("a.b.c.d = 1\nx = {}", "[".repeat(62))));
    assert!(!is_shallow(&format!("a.b.c.d = 1\nx = {}", "[".repeat(63))));
    assert!(is_shallow(&format!("x = {}1{}\na.b.c.d = 1\n", "[".repeat(254), "]".repeat(254))));
    assert!(is_shallow(&format!("x = \"a.b.c.d\" # a.b.c.d\ny = {}", "[".repeat(254))));
}

#[test]
fn a_manifest_that_is_nested_deep_is_not_read() {
    let deep = [
        format!("a = {}{}\n", "[".repeat(100000), "]".repeat(100000)),
        format!("a = {}1{}\n", "{ a = ".repeat(100000), " }".repeat(100000)),
        format!("[a{}]\nx = 1\n", ".a".repeat(100000)),
        format!("a{} = 1\n", ".a".repeat(100000)),
        "[".repeat(100000),
        format!("a = [\"{}\", {}1{}]\n", "]".repeat(100000), "[".repeat(100000), "]".repeat(100000)),
        format!("[package]\nedition = \"2018\"\na = {}{}\n", "[".repeat(255), "]".repeat(255)),
        format!("x = {}1{}\n", format!("{{ a{} = ", ".a".repeat(31)).repeat(32), " }".repeat(32)),
    ];
    for text in deep {
        match edition_entry(&text) {
            EditionEntry::Invalid { message } => {
                assert_eq!(message, "The manifest is nested too deep.")
            }
            _ => panic!("the manifest was read"),
        }
        match manifest_edition(Manifest::Text(text)) {
            Err(e) => assert_eq!(e.message(), "The manifest is nested too deep."),
            Ok(_) => panic!("the manifest was read"),
        }
    }
}

fn with_package(text: String) -> String {
    format!("[package]\nedition = \"2021\"\n{}\n", text)
}

fn is_read(text: String) -> bool {
    let text = with_package(text);
    is_shallow(&text)
        && matches!(edition_entry(&text), EditionEntry::Found(Some(e)) if e == "2021")
        && matches!(manifest_edition(Manifest::Text(text)), Ok(RustEdition::Rust2021))
}

#[test]
fn arrays_that_are_nested_as_deep_as_may_be_are_read() {
    assert!(is_read(format!("a = {}{}", "[".repeat(254), "]".repeat(254))));
    assert!(is_read(format!("a = {}1{}", "[".repeat(254), "]".repeat(254))));
}

#[test]
fn tables_that_are_nested_as_deep_as_may_be_are_read() {
    assert!(is_read(format!("a = {}1{}", "{ a = ".repeat(126), " }".repeat(126))));
    assert!(is_read(format!("a = {}1{}", "[ { a = ".repeat(63), " } ]".repeat(63))));
}

#[test]
fn keys_of_as_many_parts_as_may_be_are_read() {
    assert!(is_read(format!("a{} = 1", ".a".repeat(127))));
    assert!(is_read(format!("[a{}]\nx = 1", ".a".repeat(84))));
    assert!(is_read(format!("[[a{}]]\nx = 1", ".a".repeat(63))));
    assert!(is_read(format!("[a{}]\nb{} = 1", ".a".repeat(84), ".b".repeat(84))));
}

#[test]
fn keys_of_many_parts_in_tables_within_tables_are_read() {
    let nested = |parts: usize, braces: usize| {
        let key = format!("k{}", ".k".repeat(parts - 1));
        format!(
            "[h{}]\n{} = {}1{}",
            ".h".repeat(parts - 1),
            key,
            format!("{{ {} = ", key).repeat(braces),
            " }".repeat(braces)
        )
    };
    assert!(is_read(nested(16, 14)));
    assert!(is_read(nested(8, 30)));
    assert!(is_read(nested(32, 6)));
    assert!(is_read(nested(64, 2)));
    assert!(is_read(nested(2, 126)));
    assert!(!is_shallow(&nested(16, 15)));
    assert!(!is_shallow(&nested(17, 14)));
    assert!(is_read(format!("x = {}1{}", "[ { a.b.c = ".repeat(41), " } ]".repeat(41))));
    assert!(!is_shallow(&format!("x = {}1{}", "[ { a.b.c = ".repeat(42), " } ]".repeat(42))));
}

#[test]
fn a_long_flat_manifest_is_read() {
    let mut text = String::from("[package]\nname = \"x\" # [[[\nedition = \"2018\"\n");
    for i in 0..500 {
        text.push_str(&format!(
            "[dependencies.d{}]\nversion = \"1.2.3\"\nfeatures = [\"a.b\", \"c]\", ']']\nat = {{ x = [1.5, 2.5] }}\n",
            i
        ));
    }
    match edition_entry(&text) {
        EditionEntry::Found(Some(text)) => assert_eq!(text, "2018"),
        _ => panic!("no edition found"),
    }
    assert!(matches!(manifest_edition(Manifest::Text(text)), Ok(RustEdition::Rust2018)));
}

#[test]
fn many_tables_in_an_array_are_read() {
    let mut text = String::from("[package]\nedition = \"2018\"\n");
    for i in 0..1000 {
        text.push_str(&format!("[[bin]]\nname = \"b{}\"\npath = \"src/b.{}.rs\"\n[bin.more.of]\nit = [[{}], []]\n", i, i, i));
    }
    assert!(is_shallow(&text));
    match edition_entry(&text) {
        EditionEntry::Found(Some(text)) => assert_eq!(text, "2018"),
        _ => panic!("no edition found"),
    }
}
