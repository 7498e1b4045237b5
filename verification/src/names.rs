//! Ordered sets of names.
//!
//! A set of names is kept as a sequence in which each name is less than
//! the next, in the order of `String`: by the first character in which two
//! names differ, and a proper prefix before its extensions.
use crate::text::chars_of;
use vstd::prelude::*;
use vstd::string::*;

verus! {

/// The order of strings.
pub open spec fn text_lt(a: Seq<char>, b: Seq<char>) -> bool
    decreases a.len(),
{
    if b.len() == 0 {
        false
    } else if a.len() == 0 {
        true
    } else if a[0] != b[0] {
        a[0] < b[0]
    } else {
        text_lt(a.skip(1), b.skip(1))
    }
}

/// No text is less than itself.
pub proof fn lemma_text_lt_irreflexive(a: Seq<char>)
    ensures
        !text_lt(a, a),
    decreases a.len(),
{
    if a.len() > 0 {
        lemma_text_lt_irreflexive(a.skip(1));
    }
}

/// Of two different texts one is less than the other.
pub proof fn lemma_text_lt_total(a: Seq<char>, b: Seq<char>)
    ensures
        a == b || text_lt(a, b) || text_lt(b, a),
    decreases a.len(),
{
    if a.len() == 0 || b.len() == 0 {
        if a.len() == 0 && b.len() == 0 {
            assert(a =~= b);
        }
    } else if a[0] == b[0] {
        lemma_text_lt_total(a.skip(1), b.skip(1));
        if a.skip(1) == b.skip(1) {
            assert(a =~= seq![a[0]] + a.skip(1));
            assert(b =~= seq![b[0]] + b.skip(1));
        }
    }
}

/// The order of texts is transitive.
pub proof fn lemma_text_lt_transitive(a: Seq<char>, b: Seq<char>, c: Seq<char>)
    requires
        text_lt(a, b),
        text_lt(b, c),
    ensures
        text_lt(a, c),
    decreases a.len(),
{
    if a.len() > 0 && a[0] == b[0] && b[0] == c[0] {
        lemma_text_lt_transitive(a.skip(1), b.skip(1), c.skip(1));
    }
}

/// Whether `a` comes before `b` in the order of strings.
pub fn str_lt(a: &str, b: &str) -> (r: bool)
    ensures
        r == text_lt(a@, b@),
{
    let x = chars_of(a);
    let y = chars_of(b);
    let mut i: usize = 0;
    assert(a@.skip(0) =~= a@ && b@.skip(0) =~= b@);
    while i < x.len() && i < y.len()
        invariant
            x@ == a@,
            y@ == b@,
            i <= x.len(),
            i <= y.len(),
            text_lt(a@, b@) == text_lt(a@.skip(i as int), b@.skip(i as int)),
        decreases x.len() - i,
    {
        let ghost s = a@.skip(i as int);
        let ghost t = b@.skip(i as int);
        assert(s[0] == x[i as int] && t[0] == y[i as int]);
        assert(s.skip(1) =~= a@.skip(i + 1) && t.skip(1) =~= b@.skip(i + 1));
        let c: char = x[i];
        let d: char = y[i];
        if c != d {
            return c < d;
        }
        i = i + 1;
    }
    i < y.len()
}

/// The views of a sequence of strings.
pub open spec fn names_view(names: Seq<String>) -> Seq<Seq<char>> {
    Seq::new(names.len(), |i: int| names[i]@)
}

/// Whether each name is less than the next.
pub open spec fn increasing(names: Seq<Seq<char>>) -> bool {
    forall|i: int, j: int| 0 <= i < j < names.len() ==> text_lt(#[trigger] names[i], #[trigger] names[j])
}

/// The position of the first name from `from` on that is not less than
/// `name`.
pub open spec fn first_not_less(names: Seq<Seq<char>>, name: Seq<char>, from: int) -> int
    decreases names.len() - from,
{
    if 0 <= from < names.len() && text_lt(names[from], name) {
        first_not_less(names, name, from + 1)
    } else {
        from
    }
}

/// The set with `name` added: unchanged where it holds the name, else
/// with the name before the first name that is not less.
pub open spec fn with_name(names: Seq<Seq<char>>, name: Seq<char>) -> Seq<Seq<char>> {
    let i = first_not_less(names, name, 0);
    if i < names.len() && names[i] == name {
        names
    } else {
        names.insert(i, name)
    }
}

proof fn lemma_first_not_less(names: Seq<Seq<char>>, name: Seq<char>, from: int)
    requires
        0 <= from <= names.len(),
    ensures
        from <= first_not_less(names, name, from) <= names.len(),
        forall|k: int|
            from <= k < first_not_less(names, name, from) ==> text_lt(#[trigger] names[k], name),
        first_not_less(names, name, from) < names.len() ==> !text_lt(
            names[first_not_less(names, name, from)],
            name,
        ),
    decreases names.len() - from,
{
    if from < names.len() && text_lt(names[from], name) {
        lemma_first_not_less(names, name, from + 1);
    }
}

/// Adding a name keeps the names in order, and holds the name and what
/// the set held before, nothing else.
pub proof fn lemma_with_name(names: Seq<Seq<char>>, name: Seq<char>)
    requires
        increasing(names),
    ensures
        increasing(with_name(names, name)),
        forall|s: Seq<char>|
            #[trigger] with_name(names, name).contains(s) <==> (s == name || names.contains(s)),
{
    let i = first_not_less(names, name, 0);
    lemma_first_not_less(names, name, 0);
    let r = with_name(names, name);
    if i < names.len() && names[i] == name {
        assert forall|s: Seq<char>| #[trigger] r.contains(s) <==> (s == name || names.contains(
            s,
        )) by {}
    } else {
        assert(r == names.insert(i, name));
        assert forall|a: int, b: int| 0 <= a < b < r.len() implies text_lt(
            #[trigger] r[a],
            #[trigger] r[b],
        ) by {
            if b == i {
                assert(r[a] == names[a]);
            } else if a == i {
                assert(r[b] == names[b - 1]);
                lemma_text_lt_total(names[i], name);
                if b - 1 > i {
                    lemma_text_lt_transitive(name, names[i], names[b - 1]);
                }
            } else {
                let a0 = if a < i { a } else { a - 1 };
                let b0 = if b < i { b } else { b - 1 };
                assert(r[a] == names[a0] && r[b] == names[b0]);
            }
        }
        assert forall|s: Seq<char>| #[trigger] r.contains(s) <==> (s == name || names.contains(
            s,
        )) by {
            if r.contains(s) {
                let k = choose|k: int| 0 <= k < r.len() && r[k] == s;
                if k < i {
                    assert(names[k] == s);
                } else if k > i {
                    assert(names[k - 1] == s);
                }
            }
            if s == name {
                assert(r[i] == s);
            }
            if names.contains(s) {
                let k = choose|k: int| 0 <= k < names.len() && names[k] == s;
                if k < i {
                    assert(r[k] == s);
                } else {
                    assert(r[k + 1] == s);
                }
            }
        }
    }
}

/// Adds `name` to the ordered set `names`.
pub fn insert_name(names: &mut Vec<String>, name: &str)
    ensures
        names_view(final(names)@) == with_name(names_view(old(names)@), name@),
{
    let ghost before = names_view(names@);
    let mut i: usize = 0;
    while i < names.len() && str_lt(names[i].as_str(), name)
        invariant
            i <= names.len(),
            before == names_view(names@),
            first_not_less(before, name@, i as int) == first_not_less(before, name@, 0),
        decreases names.len() - i,
    {
        i = i + 1;
    }
    if i < names.len() && names[i].as_str().eq(name) {
    } else {
        names.insert(i, String::from_str(name));
        assert(names_view(names@) =~= before.insert(i as int, name@));
    }
}

/// Whether the set `names` holds `name`.
pub fn has_name(names: &Vec<String>, name: &str) -> (r: bool)
    ensures
        r == names_view(names@).contains(name@),
{
    let mut i: usize = 0;
    while i < names.len()
        invariant
            i <= names.len(),
            forall|k: int| 0 <= k < i ==> names_view(names@)[k] != name@,
        decreases names.len() - i,
    {
        if names[i].as_str().eq(name) {
            assert(names_view(names@)[i as int] == name@);
            return true;
        }
        i = i + 1;
    }
    false
}

} // verus!
