//! Text building: concatenation facts, a small template language and
//! decimal numbers.
//!
//! All emitted code is described as a `Seq<char>`. A template is a string in
//! which `$0` to `$9` mark the places where arguments are inserted; every
//! other character stands for itself.
use vstd::prelude::*;
use vstd::string::*;

verus! {

/// The mark that starts a hole in a template.
pub const HOLE_MARK: char = '$';

/// String equality of std (`str::eq`): two strings are equal exactly when
/// they hold the same characters.
pub assume_specification[ <str as PartialEq>::eq ](a: &str, b: &str) -> (r: bool)
    ensures
        r == (a@ == b@),
;

/// The lowercase form of a text, as std computes it (`str::to_lowercase`).
pub uninterp spec fn lowercase(s: Seq<char>) -> Seq<char>;

/// The uppercase form of a text, as std computes it (`str::to_uppercase`).
pub uninterp spec fn uppercase(s: Seq<char>) -> Seq<char>;

/// `str::to_lowercase` returns the lowercase form of the string, which
/// depends on nothing but its characters.
pub assume_specification[ str::to_lowercase ](s: &str) -> (r: String)
    ensures
        r@ == lowercase(s@),
;

/// `str::to_uppercase` returns the uppercase form of the string, which
/// depends on nothing but its characters.
pub assume_specification[ str::to_uppercase ](s: &str) -> (r: String)
    ensures
        r@ == uppercase(s@),
;

/// The empty text.
pub open spec fn empty() -> Seq<char> {
    Seq::<char>::empty()
}

/// Concatenation of texts is associative.
pub broadcast proof fn lemma_concat_assoc(a: Seq<char>, b: Seq<char>, c: Seq<char>)
    ensures
        #[trigger] ((a + b) + c) == a + (b + c),
{
    assert((a + b) + c =~= a + (b + c));
}

/// The empty text is a right unit of concatenation.
pub broadcast proof fn lemma_concat_empty_right(a: Seq<char>)
    ensures
        #[trigger] (a + Seq::<char>::empty()) == a,
{
    assert(a + Seq::<char>::empty() =~= a);
}

/// The empty text is a left unit of concatenation.
pub broadcast proof fn lemma_concat_empty_left(a: Seq<char>)
    ensures
        #[trigger] (Seq::<char>::empty() + a) == a,
{
    assert(Seq::<char>::empty() + a =~= a);
}

pub broadcast group group_concat {
    lemma_concat_assoc,
    lemma_concat_empty_right,
    lemma_concat_empty_left,
}

/// Whether `c` is one of the digits that may follow the hole mark.
pub open spec fn is_hole_digit(c: char) -> bool {
    '0' <= c && c <= '9'
}

/// The argument position that the digit `c` names.
pub open spec fn hole_index(c: char) -> int {
    c as int - '0' as int
}

/// The argument at position `i`, or the empty text where there is none.
pub open spec fn arg_at(args: Seq<Seq<char>>, i: int) -> Seq<char> {
    if 0 <= i < args.len() {
        args[i]
    } else {
        empty()
    }
}

/// Whether a hole starts at position `i` of the template `t`.
pub open spec fn hole_at(t: Seq<char>, i: int) -> bool {
    0 <= i && i + 1 < t.len() && t[i] == HOLE_MARK && is_hole_digit(t[i + 1])
}

/// The template `t` with each hole replaced by the argument it names.
#[verifier::opaque]
pub open spec fn fill(t: Seq<char>, args: Seq<Seq<char>>) -> Seq<char>
    decreases t.len(),
{
    if t.len() == 0 {
        empty()
    } else if hole_at(t, 0) {
        arg_at(args, hole_index(t[1])) + fill(t.skip(2), args)
    } else {
        seq![t[0]] + fill(t.skip(1), args)
    }
}

/// The views of a sequence of string slices.
pub open spec fn views(args: Seq<&str>) -> Seq<Seq<char>> {
    Seq::new(args.len(), |i: int| args[i]@)
}

/// A stretch of a template that holds no hole is copied as it stands.
proof fn lemma_fill_plain(t: Seq<char>, args: Seq<Seq<char>>, from: int, to: int)
    requires
        0 <= from <= to <= t.len(),
        forall|k: int| from <= k < to ==> !hole_at(t, k),
    ensures
        fill(t.skip(from), args) == t.subrange(from, to) + fill(t.skip(to), args),
    decreases to - from,
{
    reveal_with_fuel(fill, 2);
    if from == to {
        assert(t.subrange(from, to) =~= empty());
        assert(empty() + fill(t.skip(to), args) =~= fill(t.skip(to), args));
    } else {
        let s = t.skip(from);
        assert(!hole_at(t, from));
        assert(!hole_at(s, 0)) by {
            if 1 < s.len() {
                assert(s[0] == t[from]);
                assert(s[1] == t[from + 1]);
            }
        }
        assert(s.skip(1) =~= t.skip(from + 1));
        lemma_fill_plain(t, args, from + 1, to);
        assert(seq![s[0]] + t.subrange(from + 1, to) =~= t.subrange(from, to));
        assert(seq![s[0]] + (t.subrange(from + 1, to) + fill(t.skip(to), args)) =~= (seq![s[0]]
            + t.subrange(from + 1, to)) + fill(t.skip(to), args));
    }
}

/// A hole is replaced by its argument.
proof fn lemma_fill_hole(t: Seq<char>, args: Seq<Seq<char>>, at: int)
    requires
        hole_at(t, at),
    ensures
        fill(t.skip(at), args) == arg_at(args, hole_index(t[at + 1])) + fill(t.skip(at + 2), args),
{
    reveal_with_fuel(fill, 2);
    let s = t.skip(at);
    assert(s[0] == t[at]);
    assert(s[1] == t[at + 1]);
    assert(hole_at(s, 0));
    assert(s.skip(2) =~= t.skip(at + 2));
}

/// The characters of a string, in order.
pub fn chars_of(s: &str) -> (r: Vec<char>)
    ensures
        r@ == s@,
{
    let mut v: Vec<char> = Vec::new();
    for c in it: s.chars()
        invariant
            it.seq() == s@,
            v@ == it.seq().take(it.index()),
    {
        v.push(c);
    }
    v
}

/// The argument position named by a digit, where `c` is one.
fn hole_digit(c: char) -> (r: Option<usize>)
    ensures
        r is Some == is_hole_digit(c),
        r matches Some(i) ==> i == hole_index(c),
{
    if '0' <= c && c <= '9' {
        Some((c as u32 - '0' as u32) as usize)
    } else {
        None
    }
}

/// Fills the holes of the template `t` from `args`.
pub fn fill_with(t: &str, args: &Vec<&str>) -> (r: String)
    ensures
        r@ == fill(t@, views(args@)),
{
    broadcast use group_concat;

    let chars = chars_of(t);
    let n = chars.len();
    let ghost a = views(args@);
    let mut out = String::new();
    let mut start: usize = 0;
    let mut i: usize = 0;
    assert(t@.skip(0) =~= t@);
    while i < n
        invariant
            n == chars.len(),
            chars@ == t@,
            a == views(args@),
            start <= i <= n,
            forall|k: int| start <= k < i ==> !hole_at(t@, k),
            out@ + fill(t@.skip(start as int), a) == fill(t@, a),
        decreases n - i,
    {
        let mut hole: Option<usize> = None;
        if chars[i] == HOLE_MARK && i + 1 < n {
            hole = hole_digit(chars[i + 1]);
        }
        match hole {
            Some(k) => {
                proof {
                    assert(hole_at(t@, i as int));
                    lemma_fill_plain(t@, a, start as int, i as int);
                    lemma_fill_hole(t@, a, i as int);
                }
                out.append(t.substring_char(start, i));
                if k < args.len() {
                    out.append(args[k]);
                }
                i = i + 2;
                start = i;
            },
            None => {
                assert(!hole_at(t@, i as int));
                i = i + 1;
            },
        }
    }
    proof {
        lemma_fill_plain(t@, a, start as int, n as int);
        assert(t@.skip(n as int) =~= empty());
        reveal_with_fuel(fill, 2);
    }
    out.append(t.substring_char(start, n));
    out
}

/// Appends plain text.
pub fn emit(w: &mut String, s: &str)
    ensures
        final(w)@ == old(w)@ + s@,
{
    w.append(s);
}

/// Appends the template `t` filled with one argument.
pub fn emit1(w: &mut String, t: &str, a: &str)
    ensures
        final(w)@ == old(w)@ + fill(t@, seq![a@]),
{
    let mut v: Vec<&str> = Vec::new();
    v.push(a);
    assert(views(v@) =~= seq![a@]);
    let r = fill_with(t, &v);
    w.append(r.as_str());
}

/// Appends the template `t` filled with two arguments.
pub fn emit2(w: &mut String, t: &str, a: &str, b: &str)
    ensures
        final(w)@ == old(w)@ + fill(t@, seq![a@, b@]),
{
    let mut v: Vec<&str> = Vec::new();
    v.push(a);
    v.push(b);
    assert(views(v@) =~= seq![a@, b@]);
    let r = fill_with(t, &v);
    w.append(r.as_str());
}

/// Appends the template `t` filled with three arguments.
pub fn emit3(w: &mut String, t: &str, a: &str, b: &str, c: &str)
    ensures
        final(w)@ == old(w)@ + fill(t@, seq![a@, b@, c@]),
{
    let mut v: Vec<&str> = Vec::new();
    v.push(a);
    v.push(b);
    v.push(c);
    assert(views(v@) =~= seq![a@, b@, c@]);
    let r = fill_with(t, &v);
    w.append(r.as_str());
}

/// Appends the template `t` filled with four arguments.
pub fn emit4(w: &mut String, t: &str, a: &str, b: &str, c: &str, d: &str)
    ensures
        final(w)@ == old(w)@ + fill(t@, seq![a@, b@, c@, d@]),
{
    let mut v: Vec<&str> = Vec::new();
    v.push(a);
    v.push(b);
    v.push(c);
    v.push(d);
    assert(views(v@) =~= seq![a@, b@, c@, d@]);
    let r = fill_with(t, &v);
    w.append(r.as_str());
}

/// Appends the template `t` filled with five arguments.
pub fn emit5(w: &mut String, t: &str, a: &str, b: &str, c: &str, d: &str, e: &str)
    ensures
        final(w)@ == old(w)@ + fill(t@, seq![a@, b@, c@, d@, e@]),
{
    let mut v: Vec<&str> = Vec::new();
    v.push(a);
    v.push(b);
    v.push(c);
    v.push(d);
    v.push(e);
    assert(views(v@) =~= seq![a@, b@, c@, d@, e@]);
    let r = fill_with(t, &v);
    w.append(r.as_str());
}

/// Appends the template `t` filled with six arguments.
pub fn emit6(w: &mut String, t: &str, a: &str, b: &str, c: &str, d: &str, e: &str, f: &str)
    ensures
        final(w)@ == old(w)@ + fill(t@, seq![a@, b@, c@, d@, e@, f@]),
{
    let mut v: Vec<&str> = Vec::new();
    v.push(a);
    v.push(b);
    v.push(c);
    v.push(d);
    v.push(e);
    v.push(f);
    assert(views(v@) =~= seq![a@, b@, c@, d@, e@, f@]);
    let r = fill_with(t, &v);
    w.append(r.as_str());
}

/// Appends the template `t` filled with seven arguments.
pub fn emit7(w: &mut String, t: &str, a: &str, b: &str, c: &str, d: &str, e: &str, f: &str, g: &str)
    ensures
        final(w)@ == old(w)@ + fill(t@, seq![a@, b@, c@, d@, e@, f@, g@]),
{
    let mut v: Vec<&str> = Vec::new();
    v.push(a);
    v.push(b);
    v.push(c);
    v.push(d);
    v.push(e);
    v.push(f);
    v.push(g);
    assert(views(v@) =~= seq![a@, b@, c@, d@, e@, f@, g@]);
    let r = fill_with(t, &v);
    w.append(r.as_str());
}

/// Appends the template `t` filled with eight arguments.
pub fn emit8(
    w: &mut String,
    t: &str,
    a: &str,
    b: &str,
    c: &str,
    d: &str,
    e: &str,
    f: &str,
    g: &str,
    h: &str,
)
    ensures
        final(w)@ == old(w)@ + fill(t@, seq![a@, b@, c@, d@, e@, f@, g@, h@]),
{
    let mut v: Vec<&str> = Vec::new();
    v.push(a);
    v.push(b);
    v.push(c);
    v.push(d);
    v.push(e);
    v.push(f);
    v.push(g);
    v.push(h);
    assert(views(v@) =~= seq![a@, b@, c@, d@, e@, f@, g@, h@]);
    let r = fill_with(t, &v);
    w.append(r.as_str());
}

/// The text of one decimal digit.
pub open spec fn digit_text(d: nat) -> Seq<char> {
    if d == 0 {
        "0"@
    } else if d == 1 {
        "1"@
    } else if d == 2 {
        "2"@
    } else if d == 3 {
        "3"@
    } else if d == 4 {
        "4"@
    } else if d == 5 {
        "5"@
    } else if d == 6 {
        "6"@
    } else if d == 7 {
        "7"@
    } else if d == 8 {
        "8"@
    } else {
        "9"@
    }
}

/// The decimal notation of `n`, without leading zeros.
pub open spec fn decimal(n: nat) -> Seq<char>
    decreases n,
{
    if n < 10 {
        digit_text(n)
    } else {
        decimal(n / 10) + digit_text(n % 10)
    }
}

/// The text of one decimal digit.
fn digit_str(d: usize) -> (r: &'static str)
    requires
        d < 10,
    ensures
        r@ == digit_text(d as nat),
{
    if d == 0 {
        "0"
    } else if d == 1 {
        "1"
    } else if d == 2 {
        "2"
    } else if d == 3 {
        "3"
    } else if d == 4 {
        "4"
    } else if d == 5 {
        "5"
    } else if d == 6 {
        "6"
    } else if d == 7 {
        "7"
    } else if d == 8 {
        "8"
    } else {
        "9"
    }
}

/// Writes `n` in decimal notation.
pub fn decimal_string(n: usize) -> (r: String)
    ensures
        r@ == decimal(n as nat),
    decreases n,
{
    if n < 10 {
        String::from_str(digit_str(n))
    } else {
        let mut s = decimal_string(n / 10);
        s.append(digit_str(n % 10));
        s
    }
}

} // verus!
