//! The manifest of the crate that receives the generated Rust code: its
//! edition decides how the generated modules name each other.
use crate::configuration::{edition_of, RustEdition};
use crate::error::ConfigError;
use crate::text::chars_of;
use crate::validity::names_of;
use vstd::prelude::*;
use vstd::string::*;

verus! {

/// Why a text is no TOML document, `toml::de::Error`; nothing of it is
/// seen here.
#[verifier::external_type_specification]
#[verifier::external_body]
pub struct ExTomlError(toml::de::Error);

/// Reads a TOML document with `toml::Value::from_str` and hands out what
/// it holds two tables deep: its keys in their order, the keys of each
/// value that is a table, and the text of each of their values that is a
/// string. What comes back depends on the text alone: it is `toml_tables`
/// of the text, and an error exactly where the text is no TOML document.
/// The reader calls itself for each bracket that opens a value and for
/// each part of a dotted key, and what it builds lies one table or array
/// deeper with each of them, so a text is only read where it is shallow.
#[verifier::external_body]
fn read_document(text: &str) -> (r: Result<Option<Tables>, toml::de::Error>)
    requires
        shallow(text@),
    ensures
        match r {
            Ok(document) => toml_tables(text@) == Some(document_view(document)),
            Err(_) => toml_tables(text@) is None,
        },
{
    let texts = |v: toml::Value| match v {
        toml::Value::String(s) => Some(s),
        _ => None,
    };
    let tables = |v: toml::Value| match v {
        toml::Value::Table(t) => Some(t.into_iter().map(|(k, v)| (k, texts(v))).collect()),
        _ => None,
    };
    Ok(match text.parse::<toml::Value>()? {
        toml::Value::Table(t) => Some(t.into_iter().map(|(k, v)| (k, tables(v))).collect()),
        _ => None,
    })
}

/// The message of an error of `toml`, as it displays itself.
#[verifier::external_body]
fn error_text(e: &toml::de::Error) -> (r: String) {
    e.to_string()
}

/// What came of reading the manifest.
pub enum Manifest {
    /// There is no file at the path.
    Missing { path: String },
    /// The file could not be read.
    Unreadable { message: String },
    /// The text of the file.
    Text(String),
}

/// What came of looking for the edition in a manifest.
pub enum EditionEntry {
    /// The manifest is no TOML document.
    Invalid { message: String },
    /// The document has no table `package`.
    WithoutPackage,
    /// The text under the key `edition`, if there is one.
    Found(Option<String>),
}

/// The edition, or the error, that an entry stands for.
pub open spec fn edition_of_entry(entry: EditionEntry) -> Result<RustEdition, ConfigError> {
    match entry {
        EditionEntry::Invalid { message } => Err(ConfigError::ManifestInvalid { message }),
        EditionEntry::WithoutPackage => Err(ConfigError::ManifestWithoutPackage),
        EditionEntry::Found(None) => Ok(edition_of(None)),
        EditionEntry::Found(Some(text)) => Ok(edition_of(Some(text@))),
    }
}

/// The edition, or the error, that an entry stands for.
pub fn rust_edition(entry: EditionEntry) -> (r: Result<RustEdition, ConfigError>)
    ensures
        r == edition_of_entry(entry),
{
    match entry {
        EditionEntry::Invalid { message } => Err(ConfigError::ManifestInvalid { message }),
        EditionEntry::WithoutPackage => Err(ConfigError::ManifestWithoutPackage),
        EditionEntry::Found(None) => Ok(RustEdition::from(None)),
        EditionEntry::Found(Some(text)) => Ok(RustEdition::from(Some(text.as_str()))),
    }
}

/// Looks for the edition in the text of a manifest: under the key
/// `edition` of the table `package`. A text that is nested deep is not
/// read, and is invalid with a message of its own.
pub fn edition_entry(text: &str) -> (r: EditionEntry)
    ensures
        entry_fits(r, reading(text@)),
        !shallow(text@) ==> (r matches EditionEntry::Invalid { message } && message@ == TOO_DEEP@),
{
    if !is_shallow(text) {
        return EditionEntry::Invalid { message: String::from_str(TOO_DEEP) };
    }
    let tables = match read_document(text) {
        Err(e) => {
            return EditionEntry::Invalid { message: error_text(&e) };
        },
        Ok(None) => {
            return EditionEntry::WithoutPackage;
        },
        Ok(Some(tables)) => tables,
    };
    proof {
        assert(names_of(tables_view(tables)) =~= keys_of(tables@));
    }
    let package = match find_key(&tables, "package") {
        None => {
            return EditionEntry::WithoutPackage;
        },
        Some(i) => &tables[i].1,
    };
    match package {
        None => EditionEntry::Found(None),
        Some(texts) => {
            proof {
                assert(names_of(texts_view(*texts)) =~= keys_of(texts@));
            }
            match find_key(texts, "edition") {
                None => EditionEntry::Found(None),
                Some(j) => EditionEntry::Found(texts[j].1.clone()),
            }
        },
    }
}

/// How deep the values of a manifest may lie at most, reckoned from the
/// brackets that are open at once and the parts of the longest key.
pub const MAX_DEPTH: usize = 256;

/// The message for a manifest that is not read because it is nested too
/// deep.
pub const TOO_DEEP: &'static str = "The manifest is nested too deep.";

/// Where in a TOML text a character stands.
#[derive(Clone, Copy, PartialEq, Eq, Structural)]
pub enum Mode {
    /// Outside strings and comments.
    Plain,
    /// In a comment.
    Comment,
    /// Behind the mark that opens a string, or behind two of them.
    Opening { basic: bool, twice: bool },
    /// In a string of one line.
    Single { basic: bool },
    /// Behind a backslash in a basic string.
    Escape { multi: bool },
    /// In a string of many lines, behind so many marks in a row.
    Multi { basic: bool, marks: u8 },
    /// Behind the three marks that close a string of many lines, and so
    /// many more.
    Closing { basic: bool, more: u8 },
}

/// What is known of a TOML text at one of its characters: where the
/// character stands, how many brackets are open, how many periods the
/// key at hand holds, and how many the key with the most of them held
/// so far.
#[derive(Clone, Copy, PartialEq, Eq, Structural)]
pub struct Scan {
    pub mode: Mode,
    pub open: usize,
    pub periods: usize,
    pub widest: usize,
}

/// One more, as far as numbers go.
pub open spec fn more(n: usize) -> usize {
    if n < usize::MAX {
        (n + 1) as usize
    } else {
        n
    }
}

/// One less, but not below nothing.
pub open spec fn less(n: usize) -> usize {
    if n > 0 {
        (n - 1) as usize
    } else {
        n
    }
}

/// The mark of a string: a basic string stands between double quotes, a
/// literal one between single quotes.
pub open spec fn mark(basic: bool) -> char {
    if basic {
        '"'
    } else {
        '\''
    }
}

/// Whether a bare key can hold the character.
pub open spec fn keylike(c: char) -> bool {
    ('A' <= c && c <= 'Z') || ('a' <= c && c <= 'z') || ('0' <= c && c <= '9') || c == '-' || c
        == '_'
}

/// The scan behind a character that stands outside strings and
/// comments. A bracket opens or closes; a period belongs to the key at
/// hand, which goes on over bare keys, strings and blanks and ends with
/// anything else.
pub open spec fn plain(s: Scan, c: char) -> Scan {
    if c == '[' || c == '{' {
        Scan { mode: Mode::Plain, open: more(s.open), periods: 0, widest: s.widest }
    } else if c == ']' || c == '}' {
        Scan { mode: Mode::Plain, open: less(s.open), periods: 0, widest: s.widest }
    } else if c == '.' {
        Scan {
            mode: Mode::Plain,
            open: s.open,
            periods: more(s.periods),
            widest: if more(s.periods) > s.widest {
                more(s.periods)
            } else {
                s.widest
            },
        }
    } else if c == '"' {
        turned(s, Mode::Opening { basic: true, twice: false })
    } else if c == '\'' {
        turned(s, Mode::Opening { basic: false, twice: false })
    } else if c == ' ' || c == '\t' || keylike(c) {
        turned(s, Mode::Plain)
    } else if c == '#' {
        Scan { mode: Mode::Comment, open: s.open, periods: 0, widest: s.widest }
    } else {
        Scan { mode: Mode::Plain, open: s.open, periods: 0, widest: s.widest }
    }
}

/// The scan with another mode.
pub open spec fn turned(s: Scan, mode: Mode) -> Scan {
    Scan { mode, open: s.open, periods: s.periods, widest: s.widest }
}

/// The scan behind a character in a string of one line: the mark ends
/// the string, and so does the end of the line; a backslash in a basic
/// string takes the next character with it.
pub open spec fn single(s: Scan, basic: bool, c: char) -> Scan {
    if c == mark(basic) || c == '\n' {
        turned(s, Mode::Plain)
    } else if basic && c == '\\' {
        turned(s, Mode::Escape { multi: false })
    } else {
        turned(s, Mode::Single { basic })
    }
}

/// The scan behind the next character. A carriage return before a line
/// feed does not count. A comment goes up to a control character other
/// than the tabulator. One mark opens a string of one line, two an
/// empty string, three a string of many lines, which three marks in a
/// row close; up to two more marks behind these still belong to it.
pub open spec fn step(s: Scan, c: char, before_line_feed: bool) -> Scan {
    if c == '\r' && before_line_feed {
        s
    } else {
        match s.mode {
            Mode::Plain => plain(s, c),
            Mode::Comment => if c < ' ' && c != '\t' {
                plain(turned(s, Mode::Plain), c)
            } else {
                s
            },
            Mode::Opening { basic, twice } => if !twice {
                if c == mark(basic) {
                    turned(s, Mode::Opening { basic, twice: true })
                } else {
                    single(s, basic, c)
                }
            } else {
                if c == mark(basic) {
                    turned(s, Mode::Multi { basic, marks: 0 })
                } else {
                    plain(turned(s, Mode::Plain), c)
                }
            },
            Mode::Single { basic } => single(s, basic, c),
            Mode::Escape { multi } => if multi {
                turned(s, Mode::Multi { basic: true, marks: 0 })
            } else {
                turned(s, Mode::Single { basic: true })
            },
            Mode::Multi { basic, marks } => if c == mark(basic) {
                if marks >= 2 {
                    turned(s, Mode::Closing { basic, more: 0 })
                } else {
                    turned(s, Mode::Multi { basic, marks: (marks + 1) as u8 })
                }
            } else if basic && c == '\\' {
                turned(s, Mode::Escape { multi: true })
            } else {
                turned(s, Mode::Multi { basic, marks: 0 })
            },
            Mode::Closing { basic, more } => if c == mark(basic) && more < 2 {
                turned(s, Mode::Closing { basic, more: (more + 1) as u8 })
            } else {
                plain(turned(s, Mode::Plain), c)
            },
        }
    }
}

/// The scan before the first character.
pub open spec fn start() -> Scan {
    Scan { mode: Mode::Plain, open: 0, periods: 0, widest: 0 }
}

/// The scan behind the first `n` characters of the text.
pub open spec fn scan(text: Seq<char>, n: nat) -> Scan
    decreases n,
{
    if n == 0 {
        start()
    } else {
        step(scan(text, (n - 1) as nat), text[n - 1], n < text.len() && text[n as int] == '\n')
    }
}

/// How deep a value can lie at most where the scan stands. The header
/// of the table, the key of the entry and the key before each bracket
/// that is open put it one table deeper with each of their parts, and a
/// bracket that opens an array one deeper.
pub open spec fn depth(s: Scan) -> int {
    (s.open + 2) * (s.widest + 1)
}

/// Whether a value cannot lie too deep where the scan stands.
pub open spec fn within(s: Scan) -> bool {
    depth(s) <= MAX_DEPTH
}

/// Whether the text is not nested deep: at no character outside
/// strings and comments do the brackets that are open there and the
/// parts of the longest key up to there allow a value to lie deeper
/// than `MAX_DEPTH`.
pub open spec fn shallow(text: Seq<char>) -> bool {
    forall|n: nat| n <= text.len() ==> within(#[trigger] scan(text, n))
}

fn one_more(n: usize) -> (r: usize)
    ensures
        r == more(n),
{
    if n < usize::MAX {
        n + 1
    } else {
        n
    }
}

fn plain_scan(s: Scan, c: char) -> (r: Scan)
    ensures
        r == plain(s, c),
{
    if c == '[' || c == '{' {
        Scan { mode: Mode::Plain, open: one_more(s.open), periods: 0, widest: s.widest }
    } else if c == ']' || c == '}' {
        Scan {
            mode: Mode::Plain,
            open: if s.open > 0 {
                s.open - 1
            } else {
                0
            },
            periods: 0,
            widest: s.widest,
        }
    } else if c == '.' {
        let periods = one_more(s.periods);
        Scan {
            mode: Mode::Plain,
            open: s.open,
            periods,
            widest: if periods > s.widest {
                periods
            } else {
                s.widest
            },
        }
    } else if c == '"' {
        turn(s, Mode::Opening { basic: true, twice: false })
    } else if c == '\'' {
        turn(s, Mode::Opening { basic: false, twice: false })
    } else if c == ' ' || c == '\t' || ('A' <= c && c <= 'Z') || ('a' <= c && c <= 'z') || ('0'
        <= c && c <= '9') || c == '-' || c == '_' {
        turn(s, Mode::Plain)
    } else if c == '#' {
        Scan { mode: Mode::Comment, open: s.open, periods: 0, widest: s.widest }
    } else {
        Scan { mode: Mode::Plain, open: s.open, periods: 0, widest: s.widest }
    }
}

fn turn(s: Scan, mode: Mode) -> (r: Scan)
    ensures
        r == turned(s, mode),
{
    Scan { mode, open: s.open, periods: s.periods, widest: s.widest }
}

/// Tests whether a value cannot lie too deep where the scan stands.
pub fn is_within(s: Scan) -> (r: bool)
    ensures
        r == within(s),
{
    if s.open > MAX_DEPTH || s.widest > MAX_DEPTH {
        assert((s.open + 2) * (s.widest + 1) > 256) by (nonlinear_arith)
            requires
                s.open > 256 || s.widest > 256,
                s.open >= 0,
                s.widest >= 0,
        ;
        return false;
    }
    assert((s.open + 2) * (s.widest + 1) <= 258 * 257) by (nonlinear_arith)
        requires
            0 <= s.open <= 256,
            0 <= s.widest <= 256,
    ;
    (s.open + 2) * (s.widest + 1) <= MAX_DEPTH
}

fn mark_of(basic: bool) -> (r: char)
    ensures
        r == mark(basic),
{
    if basic {
        '"'
    } else {
        '\''
    }
}

fn single_scan(s: Scan, basic: bool, c: char) -> (r: Scan)
    ensures
        r == single(s, basic, c),
{
    if c == mark_of(basic) || c == '\n' {
        turn(s, Mode::Plain)
    } else if basic && c == '\\' {
        turn(s, Mode::Escape { multi: false })
    } else {
        turn(s, Mode::Single { basic })
    }
}

/// The scan behind the next character.
pub fn step_scan(s: Scan, c: char, before_line_feed: bool) -> (r: Scan)
    ensures
        r == step(s, c, before_line_feed),
{
    if c == '\r' && before_line_feed {
        return s;
    }
    match s.mode {
        Mode::Plain => plain_scan(s, c),
        Mode::Comment => if c < ' ' && c != '\t' {
            plain_scan(turn(s, Mode::Plain), c)
        } else {
            s
        },
        Mode::Opening { basic, twice } => if !twice {
            if c == mark_of(basic) {
                turn(s, Mode::Opening { basic, twice: true })
            } else {
                single_scan(s, basic, c)
            }
        } else {
            if c == mark_of(basic) {
                turn(s, Mode::Multi { basic, marks: 0 })
            } else {
                plain_scan(turn(s, Mode::Plain), c)
            }
        },
        Mode::Single { basic } => single_scan(s, basic, c),
        Mode::Escape { multi } => if multi {
            turn(s, Mode::Multi { basic: true, marks: 0 })
        } else {
            turn(s, Mode::Single { basic: true })
        },
        Mode::Multi { basic, marks } => if c == mark_of(basic) {
            if marks >= 2 {
                turn(s, Mode::Closing { basic, more: 0 })
            } else {
                turn(s, Mode::Multi { basic, marks: marks + 1 })
            }
        } else if basic && c == '\\' {
            turn(s, Mode::Escape { multi: true })
        } else {
            turn(s, Mode::Multi { basic, marks: 0 })
        },
        Mode::Closing { basic, more } => if c == mark_of(basic) && more < 2 {
            turn(s, Mode::Closing { basic, more: more + 1 })
        } else {
            plain_scan(turn(s, Mode::Plain), c)
        },
    }
}

/// Tests whether the text is not nested deep.
pub fn is_shallow(text: &str) -> (r: bool)
    ensures
        r == shallow(text@),
{
    let chars = chars_of(text);
    let mut s = Scan { mode: Mode::Plain, open: 0, periods: 0, widest: 0 };
    let mut i: usize = 0;
    while i < chars.len()
        invariant
            i <= chars.len(),
            chars@ == text@,
            s == scan(text@, i as nat),
            forall|n: nat| n <= i ==> within(#[trigger] scan(text@, n)),
        decreases chars.len() - i,
    {
        let before_line_feed = i + 1 < chars.len() && chars[i + 1] == '\n';
        s = step_scan(s, chars[i], before_line_feed);
        i = i + 1;
        if !is_within(s) {
            assert(!within(scan(text@, i as nat)));
            return false;
        }
    }
    true
}

/// What is made of the text of a manifest: what `toml` reads where the
/// text is shallow, and no document else.
pub open spec fn reading(text: Seq<char>) -> Option<Option<TablesView>> {
    if shallow(text) {
        toml_tables(text)
    } else {
        None
    }
}

/// The entries of a table whose values are looked at as texts: each key
/// with the text of its value, where the value is a string.
pub type Texts = Vec<(String, Option<String>)>;

/// The entries of a table whose values are looked at as tables: each key
/// with the entries of its value, where the value is a table.
pub type Tables = Vec<(String, Option<Texts>)>;

/// What a table holds as texts: each key with the text of its value,
/// where the value is a string.
pub type TextsView = Seq<(Seq<char>, Option<Seq<char>>)>;

/// What a table holds as tables: each key with what its value holds as
/// texts, where the value is a table.
pub type TablesView = Seq<(Seq<char>, Option<TextsView>)>;

/// What the TOML document `text` holds two tables deep, as the crate
/// `toml` reads it: nothing where the text is no TOML document, else the
/// keys of the document in their order, each with the keys of its value
/// where that is a table, and each of these with the text of its value
/// where that is a string.
pub uninterp spec fn toml_tables(text: Seq<char>) -> Option<Option<TablesView>>;

/// The view of a text that may be there.
pub open spec fn text_view(text: Option<String>) -> Option<Seq<char>> {
    match text {
        Some(s) => Some(s@),
        None => None,
    }
}

/// The views of the entries of a table, as texts.
pub open spec fn texts_view(texts: Texts) -> TextsView {
    Seq::new(texts@.len(), |i: int| (texts@[i].0@, text_view(texts@[i].1)))
}

/// The view of a value that may be a table.
pub open spec fn table_view(table: Option<Texts>) -> Option<TextsView> {
    match table {
        Some(texts) => Some(texts_view(texts)),
        None => None,
    }
}

/// The views of the entries of a table, as tables.
pub open spec fn tables_view(tables: Tables) -> TablesView {
    Seq::new(tables@.len(), |i: int| (tables@[i].0@, table_view(tables@[i].1)))
}

/// The view of a document, which may be a table.
pub open spec fn document_view(document: Option<Tables>) -> Option<TablesView> {
    match document {
        Some(tables) => Some(tables_view(tables)),
        None => None,
    }
}

/// The keys of entries.
pub open spec fn keys_of<T>(entries: Seq<(String, T)>) -> Seq<Seq<char>> {
    Seq::new(entries.len(), |i: int| entries[i].0@)
}

/// The position of the first key from `from` on that is `key`.
pub open spec fn key_from(keys: Seq<Seq<char>>, key: Seq<char>, from: int) -> Option<int>
    decreases keys.len() - from,
{
    if from < 0 || from >= keys.len() {
        None
    } else if keys[from] == key {
        Some(from)
    } else {
        key_from(keys, key, from + 1)
    }
}

/// The position of the first entry under `key`.
pub open spec fn key_position(keys: Seq<Seq<char>>, key: Seq<char>) -> Option<int> {
    key_from(keys, key, 0)
}

/// Finds the first entry under `key`.
pub fn find_key<T>(entries: &Vec<(String, T)>, key: &str) -> (r: Option<usize>)
    ensures
        match r {
            Some(i) => i < entries.len() && key_position(keys_of(entries@), key@) == Some(
                i as int,
            ),
            None => key_position(keys_of(entries@), key@) is None,
        },
{
    let ghost keys = keys_of(entries@);
    let mut i: usize = 0;
    while i < entries.len()
        invariant
            i <= entries.len(),
            keys == keys_of(entries@),
            key_from(keys, key@, i as int) == key_position(keys, key@),
        decreases entries.len() - i,
    {
        if entries[i].0.as_str().eq(key) {
            return Some(i);
        }
        i = i + 1;
    }
    None
}

/// The text under the key `edition` of the table `package` of a
/// document: nothing where the document has no entry `package`; no text
/// where that entry is no table, or has no entry `edition`, or one that
/// is no string.
pub open spec fn edition_in(document: Option<TablesView>) -> Option<Option<Seq<char>>> {
    match document {
        None => None,
        Some(tables) => match key_position(names_of(tables), "package"@) {
            None => None,
            Some(i) => match tables[i].1 {
                None => Some(None),
                Some(texts) => match key_position(names_of(texts), "edition"@) {
                    None => Some(None),
                    Some(j) => Some(texts[j].1),
                },
            },
        },
    }
}

/// Whether the entry is what looking for the edition gives for what
/// `toml` makes of a text: invalid where that is no document, else what
/// the document holds under `edition` in `package`.
pub open spec fn entry_fits(entry: EditionEntry, read: Option<Option<TablesView>>) -> bool {
    match read {
        None => entry is Invalid,
        Some(document) => match edition_in(document) {
            None => entry is WithoutPackage,
            Some(found) => entry matches EditionEntry::Found(text) && text_view(text) == found,
        },
    }
}

/// The edition that a manifest gives: none where it is missing or cannot
/// be read, where its text is no shallow TOML document, and where the
/// document has no entry `package`.
pub open spec fn edition_given(manifest: Manifest) -> Option<RustEdition> {
    match manifest {
        Manifest::Text(text) => match reading(text@) {
            Some(document) => match edition_in(document) {
                Some(found) => Some(edition_of(found)),
                None => None,
            },
            None => None,
        },
        _ => None,
    }
}

/// Whether the result is what the manifest calls for: the edition that
/// it gives, or the error that tells why it gives none.
pub open spec fn edition_fits(r: Result<RustEdition, ConfigError>, manifest: Manifest) -> bool {
    match manifest {
        Manifest::Missing { path } => r == Err::<RustEdition, ConfigError>(
            ConfigError::ManifestMissing { path },
        ),
        Manifest::Unreadable { message } => r == Err::<RustEdition, ConfigError>(
            ConfigError::ManifestUnreadable { message },
        ),
        Manifest::Text(text) => match reading(text@) {
            None => r matches Err(ConfigError::ManifestInvalid { message }) && (!shallow(text@)
                ==> message@ == TOO_DEEP@),
            Some(document) => match edition_in(document) {
                None => r == Err::<RustEdition, ConfigError>(ConfigError::ManifestWithoutPackage),
                Some(found) => r == Ok::<RustEdition, ConfigError>(edition_of(found)),
            },
        },
    }
}

/// The edition that a manifest asks for, or the error that tells why it
/// gives none.
pub fn manifest_edition(manifest: Manifest) -> (r: Result<RustEdition, ConfigError>)
    ensures
        edition_fits(r, manifest),
        r is Ok == edition_given(manifest) is Some,
{
    match manifest {
        Manifest::Missing { path } => Err(ConfigError::ManifestMissing { path }),
        Manifest::Unreadable { message } => Err(ConfigError::ManifestUnreadable { message }),
        Manifest::Text(text) => rust_edition(edition_entry(text.as_str())),
    }
}

} // verus!
