//! From declarations to objects: the type of each property is found by
//! its name.
//!
//! The name of a type is the keyword of a primitive type or, failing
//! that, the name of a declared object, which then becomes part of the
//! property. An object cannot be part of itself, so the declarations
//! must allow a ranking in which every object stands above the objects
//! among its properties.
use crate::configuration::{
    Config, ConfigView, json, made_view, Object, object_view, ObjectView, Property, PropertyView,
    RustEdition, simple_name, SimpleType, Type, TypeView,
};
use crate::configuration::copies::{copy_functions, copy_item_properties, share};
use crate::configuration::form::{
    find_malformed, first_malformed, lemma_good_objects, lemma_malformed_objects, part_fits,
};
use crate::error::ConfigError;
use crate::manifest::{edition_fits, edition_given, Manifest, manifest_edition};
use crate::validity::{all_ok, config_ok};
use std::rc::Rc;
use vstd::pervasive::unreached;
use vstd::prelude::*;
use vstd::set_lib::{lemma_int_range, lemma_len_subset, set_int_range};
use vstd::string::*;

verus! {

/// The primitive type that a name is the keyword of.
pub open spec fn keyword(name: Seq<char>) -> Option<SimpleType> {
    if name == "QString"@ {
        Some(SimpleType::QString)
    } else if name == "QByteArray"@ {
        Some(SimpleType::QByteArray)
    } else if name == "bool"@ {
        Some(SimpleType::Bool)
    } else if name == "float"@ {
        Some(SimpleType::Float)
    } else if name == "double"@ {
        Some(SimpleType::Double)
    } else if name == "void"@ {
        Some(SimpleType::Void)
    } else if name == "qint8"@ {
        Some(SimpleType::Qint8)
    } else if name == "qint16"@ {
        Some(SimpleType::Qint16)
    } else if name == "qint32"@ {
        Some(SimpleType::Qint32)
    } else if name == "qint64"@ {
        Some(SimpleType::Qint64)
    } else if name == "quint8"@ {
        Some(SimpleType::QUint8)
    } else if name == "quint16"@ {
        Some(SimpleType::QUint16)
    } else if name == "quint32"@ {
        Some(SimpleType::QUint32)
    } else if name == "quint64"@ {
        Some(SimpleType::QUint64)
    } else {
        None
    }
}

/// Each primitive type is found by its own keyword.
pub proof fn lemma_keyword_of_name(t: SimpleType)
    ensures
        keyword(simple_name(t)) == Some(t),
{
    reveal_strlit("QString");
    reveal_strlit("QByteArray");
    reveal_strlit("bool");
    reveal_strlit("float");
    reveal_strlit("double");
    reveal_strlit("void");
    reveal_strlit("qint8");
    reveal_strlit("qint16");
    reveal_strlit("qint32");
    reveal_strlit("qint64");
    reveal_strlit("quint8");
    reveal_strlit("quint16");
    reveal_strlit("quint32");
    reveal_strlit("quint64");
    let name = simple_name(t);
    assert("QString"@.len() == 7 && "QByteArray"@.len() == 10 && "bool"@.len() == 4);
    assert("float"@.len() == 5 && "double"@.len() == 6 && "void"@.len() == 4);
    assert("qint8"@.len() == 5 && "qint16"@.len() == 6 && "qint32"@.len() == 6 && "qint64"@.len() == 6);
    assert("quint8"@.len() == 6 && "quint16"@.len() == 7 && "quint32"@.len() == 7 && "quint64"@.len() == 7);
    assert("bool"@[0] == 'b' && "void"@[0] == 'v');
    assert("float"@[0] == 'f' && "qint8"@[0] == 'q');
    assert("double"@[0] == 'd' && "qint16"@[4] == '1' && "qint16"@[5] == '6' && "qint32"@[4] == '3'
        && "qint64"@[4] == '6' && "quint8"@[2] == 'i' && "qint16"@[2] == 'n' && "qint32"@[2] == 'n'
        && "qint64"@[2] == 'n');
    assert("QString"@[0] == 'Q' && "quint16"@[0] == 'q' && "quint16"@[5] == '1' && "quint32"@[5] == '3'
        && "quint64"@[5] == '6' && "quint32"@[0] == 'q' && "quint64"@[0] == 'q');
}

/// Finds the primitive type with the keyword `name`.
pub fn simple_type(name: &str) -> (r: Option<SimpleType>)
    ensures
        r == keyword(name@),
{
    if name.eq("QString") {
        Some(SimpleType::QString)
    } else if name.eq("QByteArray") {
        Some(SimpleType::QByteArray)
    } else if name.eq("bool") {
        Some(SimpleType::Bool)
    } else if name.eq("float") {
        Some(SimpleType::Float)
    } else if name.eq("double") {
        Some(SimpleType::Double)
    } else if name.eq("void") {
        Some(SimpleType::Void)
    } else if name.eq("qint8") {
        Some(SimpleType::Qint8)
    } else if name.eq("qint16") {
        Some(SimpleType::Qint16)
    } else if name.eq("qint32") {
        Some(SimpleType::Qint32)
    } else if name.eq("qint64") {
        Some(SimpleType::Qint64)
    } else if name.eq("quint8") {
        Some(SimpleType::QUint8)
    } else if name.eq("quint16") {
        Some(SimpleType::QUint16)
    } else if name.eq("quint32") {
        Some(SimpleType::QUint32)
    } else if name.eq("quint64") {
        Some(SimpleType::QUint64)
    } else {
        None
    }
}

/// The declarations of the objects, each under its name.
pub type Declarations = Seq<(Seq<char>, json::ObjectView)>;

/// The position of the first declaration from `from` on that goes by
/// `name`.
pub open spec fn declared_from(raw: Declarations, name: Seq<char>, from: int) -> Option<int>
    decreases raw.len() - from,
{
    if from < 0 || from >= raw.len() {
        None
    } else if raw[from].0 == name {
        Some(from)
    } else {
        declared_from(raw, name, from + 1)
    }
}

/// The position of the declaration that goes by `name`.
pub open spec fn declared(raw: Declarations, name: Seq<char>) -> Option<int> {
    declared_from(raw, name, 0)
}

proof fn lemma_declared_from(raw: Declarations, name: Seq<char>, from: int)
    requires
        0 <= from,
    ensures
        declared_from(raw, name, from) matches Some(k) ==> from <= k < raw.len() && raw[k].0
            == name,
    decreases raw.len() - from,
{
    if from < raw.len() && raw[from].0 != name {
        lemma_declared_from(raw, name, from + 1);
    }
}

/// The declaration that is found under a name goes by that name.
pub proof fn lemma_declared(raw: Declarations, name: Seq<char>)
    ensures
        declared(raw, name) matches Some(k) ==> 0 <= k < raw.len() && raw[k].0 == name,
{
    lemma_declared_from(raw, name, 0);
}

/// Finds the declaration that goes by `name`.
pub fn find_declaration(objects: &Vec<(String, json::Object)>, name: &str) -> (r: Option<usize>)
    ensures
        match r {
            Some(k) => declared(json::objects_view(objects@), name@) == Some(k as int) && k
                < objects.len(),
            None => declared(json::objects_view(objects@), name@) is None,
        },
{
    let ghost raw = json::objects_view(objects@);
    let mut i: usize = 0;
    while i < objects.len()
        invariant
            i <= objects.len(),
            raw == json::objects_view(objects@),
            declared_from(raw, name@, i as int) == declared(raw, name@),
        decreases objects.len() - i,
    {
        if objects[i].0.as_str().eq(name) {
            return Some(i);
        }
        i = i + 1;
    }
    None
}

/// The object that the type of a property leads to: none for a
/// primitive type, and none for a name that nothing goes by.
pub open spec fn target(raw: Declarations, type_text: Seq<char>) -> Option<int> {
    if keyword(type_text) is Some {
        None
    } else {
        declared(raw, type_text)
    }
}

/// Whether the name is that of a primitive type or of a declared object.
pub open spec fn type_known(raw: Declarations, type_text: Seq<char>) -> bool {
    keyword(type_text) is Some || declared(raw, type_text) is Some
}

/// Whether the types of the first `n` properties of the declaration at
/// `k` are known.
pub open spec fn properties_known(raw: Declarations, k: int, n: int) -> bool {
    forall|j: int| 0 <= j < n ==> type_known(raw, (#[trigger] raw[k].1.properties[j]).1.property_type)
}

/// Whether the types of all properties of the first `n` declarations
/// are known.
pub open spec fn all_known(raw: Declarations, n: int) -> bool {
    forall|k: int|
        0 <= k < n ==> #[trigger] properties_known(raw, k, raw[k].1.properties.len() as int)
}

/// Whether the ranks put every object above the objects among its
/// properties.
pub open spec fn ranked(raw: Declarations, ranks: Seq<nat>) -> bool {
    &&& ranks.len() == raw.len()
    &&& forall|a: int, j: int|
        0 <= a < raw.len() && 0 <= j < raw[a].1.properties.len() ==> (match #[trigger] target(
            raw,
            raw[a].1.properties[j].1.property_type,
        ) {
            Some(b) => 0 <= b < raw.len() && ranks[b] < ranks[a],
            None => true,
        })
}

/// Whether no object is part of itself: the objects can be ranked.
pub open spec fn acyclic(raw: Declarations) -> bool {
    exists|ranks: Seq<nat>| ranked(raw, ranks)
}

/// Whether the type is the one that `type_text` stands for: the
/// primitive type of that keyword, or else the object that is made of
/// the declaration of that name.
pub open spec fn type_realizes(t: TypeView, raw: Declarations, type_text: Seq<char>) -> bool
    decreases t,
{
    match keyword(type_text) {
        Some(s) => t == TypeView::Simple(s),
        None => match declared(raw, type_text) {
            Some(k) => match t {
                TypeView::Object(o) => object_realizes(*o, raw, k),
                TypeView::Simple(_) => false,
            },
            None => false,
        },
    }
}

/// Whether the property is made of the declaration `d`.
pub open spec fn property_realizes(
    p: (Seq<char>, PropertyView),
    raw: Declarations,
    d: (Seq<char>, json::PropertyView),
) -> bool
    decreases p,
{
    &&& p.0 == d.0
    &&& p.1.optional == d.1.optional
    &&& p.1.rust_by_function == d.1.rust_by_function
    &&& p.1.write == d.1.write
    &&& type_realizes(p.1.property_type, raw, d.1.property_type)
}

/// Whether the object is made of the declaration at `k`: it has the
/// name, the kind, the functions and the item properties of the
/// declaration, and its properties are made of the declared ones.
pub open spec fn object_realizes(o: ObjectView, raw: Declarations, k: int) -> bool
    decreases o,
{
    &&& 0 <= k < raw.len()
    &&& o.name == raw[k].0
    &&& o.object_type == raw[k].1.object_type
    &&& o.functions == raw[k].1.functions
    &&& o.item_properties == raw[k].1.item_properties
    &&& o.properties.len() == raw[k].1.properties.len()
    &&& forall|j: int|
        0 <= j < o.properties.len() ==> property_realizes(
            #[trigger] o.properties[j],
            raw,
            raw[k].1.properties[j],
        )
}

/// Whether the property at `j` of the declaration at `k` is the first
/// whose type is not known.
pub open spec fn is_first_unknown(raw: Declarations, k: int, j: int) -> bool {
    &&& 0 <= k < raw.len()
    &&& 0 <= j < raw[k].1.properties.len()
    &&& !type_known(raw, raw[k].1.properties[j].1.property_type)
    &&& properties_known(raw, k, j)
    &&& all_known(raw, k)
}

/// Finds the first property whose type is not known.
pub fn find_unknown(objects: &Vec<(String, json::Object)>) -> (r: Option<(usize, usize)>)
    ensures
        match r {
            Some((k, j)) => is_first_unknown(json::objects_view(objects@), k as int, j as int),
            None => all_known(json::objects_view(objects@), objects.len() as int),
        },
{
    let ghost raw = json::objects_view(objects@);
    let mut k: usize = 0;
    while k < objects.len()
        invariant
            k <= objects.len(),
            raw == json::objects_view(objects@),
            all_known(raw, k as int),
        decreases objects.len() - k,
    {
        let properties = &objects[k].1.properties;
        let mut j: usize = 0;
        while j < properties.len()
            invariant
                j <= properties.len(),
                k < objects.len(),
                properties == &objects[k as int].1.properties,
                raw == json::objects_view(objects@),
                all_known(raw, k as int),
                properties_known(raw, k as int, j as int),
            decreases properties.len() - j,
        {
            let type_text = properties[j].1.property_type.as_str();
            assert(raw[k as int].1.properties[j as int].1.property_type == type_text@);
            assert(raw[k as int].1.properties.len() == properties.len());
            let known = simple_type(type_text).is_some() || find_declaration(
                objects,
                type_text,
            ).is_some();
            assert(known == type_known(raw, type_text@));
            if !known {
                return Some((k, j));
            }
            j = j + 1;
        }
        k = k + 1;
    }
    None
}

/// Whether a property of the declaration at `a` has the object at `b`
/// as its type.
pub open spec fn edge(raw: Declarations, a: int, b: int) -> bool {
    exists|j: int|
        0 <= j < raw[a].1.properties.len() && #[trigger] target(
            raw,
            raw[a].1.properties[j].1.property_type,
        ) == Some(b)
}

/// Whether each object of the chain has the next among its properties.
pub open spec fn is_chain(raw: Declarations, chain: Seq<usize>) -> bool {
    &&& forall|i: int| 0 <= i < chain.len() ==> 0 <= #[trigger] chain[i] < raw.len()
    &&& forall|i: int| 0 <= i < chain.len() - 1 ==> edge(raw, #[trigger] chain[i] as int, chain[i + 1] as int)
}

proof fn lemma_chain_ranks(raw: Declarations, chain: Seq<usize>, ranks: Seq<nat>, i: int, m: int)
    requires
        ranked(raw, ranks),
        is_chain(raw, chain),
        0 <= i <= m < chain.len(),
    ensures
        ranks[chain[m] as int] <= ranks[chain[i] as int],
    decreases m - i,
{
    if i < m {
        lemma_chain_ranks(raw, chain, ranks, i, m - 1);
        assert(edge(raw, chain[m - 1] as int, chain[m] as int));
    }
}

/// Where the last object of a chain has an object of the chain among
/// its properties, the objects cannot be ranked.
proof fn lemma_cycle(raw: Declarations, chain: Seq<usize>, i: int)
    requires
        is_chain(raw, chain),
        0 <= i < chain.len(),
        edge(raw, chain.last() as int, chain[i] as int),
    ensures
        !acyclic(raw),
{
    if acyclic(raw) {
        let ranks = choose|ranks: Seq<nat>| ranked(raw, ranks);
        lemma_chain_ranks(raw, chain, ranks, i, chain.len() - 1);
    }
}

/// Different numbers below `n` are `n` at most.
proof fn lemma_distinct_bounded(s: Seq<usize>, n: nat)
    requires
        s.no_duplicates(),
        forall|i: int| 0 <= i < s.len() ==> #[trigger] s[i] < n,
    ensures
        s.len() <= n,
{
    let t = s.map_values(|x: usize| x as int);
    assert(t.no_duplicates());
    t.unique_seq_to_set();
    lemma_int_range(0, n as int);
    assert forall|x: int| t.to_set().contains(x) implies set_int_range(0, n as int).contains(x) by {
        let i = choose|i: int| 0 <= i < t.len() && t[i] == x;
        assert(s[i] < n);
    }
    lemma_len_subset(t.to_set(), set_int_range(0, n as int));
}

/// Whether every object that is made is made of its declaration, with
/// the objects among its properties made before it and ranked below it.
pub open spec fn made_well(
    raw: Declarations,
    made: Seq<Option<Rc<Object>>>,
    ranks: Seq<nat>,
) -> bool {
    &&& made.len() == raw.len()
    &&& ranks.len() == raw.len()
    &&& forall|a: int|
        0 <= a < raw.len() && (#[trigger] made[a]) is Some ==> object_realizes(
            made[a]->0@,
            raw,
            a,
        ) && children_below(raw, made, ranks, a, ranks[a])
}

/// Whether the objects among the properties of the declaration at `a`
/// are made and have ranks below `top`.
pub open spec fn children_below(
    raw: Declarations,
    made: Seq<Option<Rc<Object>>>,
    ranks: Seq<nat>,
    a: int,
    top: nat,
) -> bool {
    first_children_below(raw, made, ranks, a, raw[a].1.properties.len() as int, top)
}

/// The same of the first `n` properties.
pub open spec fn first_children_below(
    raw: Declarations,
    made: Seq<Option<Rc<Object>>>,
    ranks: Seq<nat>,
    a: int,
    n: int,
    top: nat,
) -> bool {
    forall|j: int|
        0 <= j < n ==> (match #[trigger] target(raw, raw[a].1.properties[j].1.property_type) {
            Some(b) => 0 <= b < raw.len() && made[b] is Some && ranks[b] < top,
            None => true,
        })
}

/// Whether what was made before is still there.
pub open spec fn keeps(
    before: Seq<Option<Rc<Object>>>,
    ranks_before: Seq<nat>,
    after: Seq<Option<Rc<Object>>>,
    ranks_after: Seq<nat>,
) -> bool {
    forall|a: int|
        0 <= a < before.len() && (#[trigger] before[a]) is Some ==> after[a] == before[a]
            && ranks_after[a] == ranks_before[a]
}

/// Whether none of the objects of the chain is made.
pub open spec fn none_made(made: Seq<Option<Rc<Object>>>, chain: Seq<usize>) -> bool {
    forall|i: int| 0 <= i < chain.len() ==> made[#[trigger] chain[i] as int] is None
}

fn is_visiting(visiting: &Vec<usize>, b: usize) -> (r: Option<usize>)
    ensures
        match r {
            Some(i) => i < visiting.len() && visiting[i as int] == b,
            None => !visiting@.contains(b),
        },
{
    let mut i: usize = 0;
    while i < visiting.len()
        invariant
            i <= visiting.len(),
            forall|k: int| 0 <= k < i ==> visiting[k] != b,
        decreases visiting.len() - i,
    {
        if visiting[i] == b {
            return Some(i);
        }
        i = i + 1;
    }
    None
}

/// Whether the type of the property at `j` of the declaration at `k` is
/// neither a primitive type nor a declared object.
pub open spec fn unknown_at(raw: Declarations, k: int, j: int) -> bool {
    &&& 0 <= k < raw.len()
    &&& 0 <= j < raw[k].1.properties.len()
    &&& !type_known(raw, raw[k].1.properties[j].1.property_type)
}

/// Whether the error tells that the type of the property at `j` of the
/// declaration at `k` is unknown, and names object, property and type.
pub open spec fn names_unknown(e: ConfigError, raw: Declarations, k: int, j: int) -> bool {
    e matches ConfigError::UnknownType { object, property, type_text } && object@ == raw[k].0
        && property@ == raw[k].1.properties[j].0 && type_text@
        == raw[k].1.properties[j].1.property_type
}

/// Whether the object at `b` leads to itself: a chain of objects, each
/// with the next among its properties, goes from it back to it.
pub open spec fn leads_to_itself(raw: Declarations, b: int) -> bool {
    exists|chain: Seq<usize>|
        #![trigger is_chain(raw, chain)]
        is_chain(raw, chain) && chain.len() > 0 && chain[0] == b && edge(
            raw,
            chain.last() as int,
            b,
        )
}

/// Whether the error tells that the object at `b` is part of itself,
/// and names it.
pub open spec fn names_cyclic(e: ConfigError, raw: Declarations, b: int) -> bool {
    e matches ConfigError::CyclicType { object } && 0 <= b < raw.len() && object@ == raw[b].0
}

/// Where an object leads to itself, the objects cannot be ranked.
pub proof fn lemma_leads_to_itself(raw: Declarations, b: int)
    requires
        leads_to_itself(raw, b),
    ensures
        !acyclic(raw),
{
    let chain = choose|chain: Seq<usize>|
        #![trigger is_chain(raw, chain)]
        is_chain(raw, chain) && chain.len() > 0 && chain[0] == b && edge(
            raw,
            chain.last() as int,
            b,
        );
    lemma_cycle(raw, chain, 0);
}

/// Whether the error tells of something that is wrong with the
/// declarations: an object that leads to itself, or a property whose
/// type is unknown. It names the object, or object, property and type.
pub open spec fn fault(e: ConfigError, raw: Declarations) -> bool {
    ||| exists|b: int| #[trigger] names_cyclic(e, raw, b) && leads_to_itself(raw, b)
    ||| exists|k: int, j: int|
        #![trigger raw[k].1.properties[j]]
        unknown_at(raw, k, j) && names_unknown(e, raw, k, j)
}

/// Declarations with a fault cannot all be made into objects.
pub proof fn lemma_fault_not_resolvable(e: ConfigError, raw: Declarations)
    requires
        fault(e, raw),
    ensures
        !resolvable(raw),
{
    if exists|b: int| #[trigger] names_cyclic(e, raw, b) && leads_to_itself(raw, b) {
        let b = choose|b: int| #[trigger] names_cyclic(e, raw, b) && leads_to_itself(raw, b);
        lemma_leads_to_itself(raw, b);
    } else {
        let (k, j) = choose|k: int, j: int|
            #![trigger raw[k].1.properties[j]]
            unknown_at(raw, k, j) && names_unknown(e, raw, k, j);
        if all_known(raw, raw.len() as int) {
            assert(properties_known(raw, k, raw[k].1.properties.len() as int));
            assert(type_known(raw, raw[k].1.properties[j].1.property_type));
        }
    }
}

/// What is wrong with a declaration: the type of the property at
/// `property` of the declaration at `object` is unknown, or the object
/// at `object` is part of itself.
pub enum Fault {
    Unknown { object: int, property: int },
    Cyclic { object: int },
}

/// What is wrong on the way from the property at `j` of the declaration
/// at `k`, while the objects of `visiting` are being made: nothing for
/// a keyword; the property itself, where nothing goes by the name of
/// its type; the object of that name where it is being made; and else
/// what is wrong with that object.
pub open spec fn property_fault(
    raw: Declarations,
    visiting: Seq<usize>,
    k: int,
    j: int,
) -> Option<Fault>
    decreases raw.len() - visiting.len(), 1int, 0int,
{
    let type_text = raw[k].1.properties[j].1.property_type;
    if keyword(type_text) is Some {
        None
    } else {
        match declared(raw, type_text) {
            None => Some(Fault::Unknown { object: k, property: j }),
            Some(b) => if visiting.contains(b as usize) {
                Some(Fault::Cyclic { object: b })
            } else {
                object_fault(raw, visiting, b)
            },
        }
    }
}

/// What is wrong with the object at `k`, while the objects of
/// `visiting` are being made: what is wrong with the first of its
/// properties with which anything is.
pub open spec fn object_fault(raw: Declarations, visiting: Seq<usize>, k: int) -> Option<Fault>
    decreases raw.len() - visiting.len(), 0int, 0int,
{
    if visiting.len() >= raw.len() {
        None
    } else {
        properties_fault(raw, visiting.push(k as usize), k, 0)
    }
}

/// What is wrong with the first property from `j` on of the declaration
/// at `k` with which anything is.
pub open spec fn properties_fault(
    raw: Declarations,
    visiting: Seq<usize>,
    k: int,
    j: int,
) -> Option<Fault>
    decreases raw.len() - visiting.len(), 2int, raw[k].1.properties.len() - j,
{
    if j < 0 || j >= raw[k].1.properties.len() {
        None
    } else {
        match property_fault(raw, visiting, k, j) {
            Some(f) => Some(f),
            None => properties_fault(raw, visiting, k, j + 1),
        }
    }
}

/// Whether the error tells of the fault, and names what it is about.
pub open spec fn names_fault(e: ConfigError, raw: Declarations, f: Fault) -> bool {
    match f {
        Fault::Unknown { object, property } => names_unknown(e, raw, object, property),
        Fault::Cyclic { object } => names_cyclic(e, raw, object),
    }
}

/// Whether the result succeeds where nothing is wrong, and else fails
/// with the error that tells of the fault.
pub open spec fn fault_fits<T>(r: Result<T, ConfigError>, raw: Declarations, f: Option<Fault>) -> bool {
    match f {
        None => r is Ok,
        Some(f) => r matches Err(e) && names_fault(e, raw, f),
    }
}

/// Nothing is wrong from `j` on with the properties of an object that
/// is made, whatever is being made of the objects that are not made or
/// ranked as high as it.
proof fn lemma_made_properties(
    raw: Declarations,
    made: Seq<Option<Rc<Object>>>,
    ranks: Seq<nat>,
    visiting: Seq<usize>,
    b: int,
    j: int,
)
    requires
        made_well(raw, made, ranks),
        0 <= b < raw.len() <= usize::MAX,
        0 <= j,
        made[b] is Some,
        forall|i: int|
            0 <= i < visiting.len() ==> 0 <= #[trigger] visiting[i] < raw.len() && (made[visiting[i] as int] is None
                || ranks[visiting[i] as int] >= ranks[b]),
    ensures
        properties_fault(raw, visiting, b, j) is None,
    decreases ranks[b], 0int, raw[b].1.properties.len() - j,
{
    if j < raw[b].1.properties.len() {
        let o = made[b]->0@;
        let d = raw[b].1.properties[j];
        assert(object_realizes(o, raw, b));
        assert(property_realizes(o.properties[j], raw, d));
        assert(children_below(raw, made, ranks, b, ranks[b]));
        if keyword(d.1.property_type) is None {
            lemma_declared(raw, d.1.property_type);
            let c = declared(raw, d.1.property_type)->0;
            assert(target(raw, raw[b].1.properties[j].1.property_type) == Some(c));
            assert(made[c] is Some && ranks[c] < ranks[b]);
            if visiting.contains(c as usize) {
                let i = choose|i: int| 0 <= i < visiting.len() && visiting[i] == c as usize;
                assert(visiting[i] as int == c);
            }
            lemma_made_object(raw, made, ranks, visiting, c);
            assert(property_fault(raw, visiting, b, j) == object_fault(raw, visiting, c));
        }
        assert(property_fault(raw, visiting, b, j) is None);
        lemma_made_properties(raw, made, ranks, visiting, b, j + 1);
        assert(properties_fault(raw, visiting, b, j) == properties_fault(raw, visiting, b, j + 1));
    }
}

/// Nothing is wrong with an object that is made, whatever is being
/// made of the objects that are not made or ranked above it.
proof fn lemma_made_object(
    raw: Declarations,
    made: Seq<Option<Rc<Object>>>,
    ranks: Seq<nat>,
    visiting: Seq<usize>,
    b: int,
)
    requires
        made_well(raw, made, ranks),
        0 <= b < raw.len() <= usize::MAX,
        made[b] is Some,
        forall|i: int|
            0 <= i < visiting.len() ==> 0 <= #[trigger] visiting[i] < raw.len() && (made[visiting[i] as int] is None
                || ranks[visiting[i] as int] > ranks[b]),
    ensures
        object_fault(raw, visiting, b) is None,
    decreases ranks[b], 1int, 0int,
{
    if visiting.len() < raw.len() {
        let longer = visiting.push(b as usize);
        assert forall|i: int| 0 <= i < longer.len() implies 0 <= #[trigger] longer[i] < raw.len() && (made[longer[i] as int] is None
            || ranks[longer[i] as int] >= ranks[b]) by {
            if i < visiting.len() {
                assert(longer[i] == visiting[i]);
            }
        }
        lemma_made_properties(raw, made, ranks, longer, b, 0);
    }
}

/// Whether the object at `a` leads to the object at `b`: a chain of
/// objects, each with the next among its properties, goes from the one
/// to the other. An object leads to itself in this way.
pub open spec fn leads_to(raw: Declarations, a: int, b: int) -> bool {
    exists|chain: Seq<usize>|
        #![trigger is_chain(raw, chain)]
        is_chain(raw, chain) && chain.len() > 0 && chain[0] == a && chain.last() == b
}

/// An object leads to what the objects among its properties lead to.
pub proof fn lemma_leads_on(raw: Declarations, k: int, b: int, a: int)
    requires
        0 <= k < raw.len() <= usize::MAX,
        edge(raw, k, b),
        leads_to(raw, b, a),
    ensures
        leads_to(raw, k, a),
{
    let chain = choose|chain: Seq<usize>|
        #![trigger is_chain(raw, chain)]
        is_chain(raw, chain) && chain.len() > 0 && chain[0] == b && chain.last() == a;
    let longer = seq![k as usize] + chain;
    assert forall|i: int| 0 <= i < longer.len() - 1 implies edge(
        raw,
        #[trigger] longer[i] as int,
        longer[i + 1] as int,
    ) by {
        if i > 0 {
            assert(edge(raw, chain[i - 1] as int, chain[i] as int));
        }
    }
    assert forall|i: int| 0 <= i < longer.len() implies 0 <= #[trigger] longer[i] < raw.len() by {
        if i > 0 {
            assert(longer[i] == chain[i - 1]);
        }
    }
    assert(is_chain(raw, longer));
    assert(longer[0] == k && longer.last() == a);
}

/// An object leads to itself.
pub proof fn lemma_leads_to_self(raw: Declarations, k: int)
    requires
        0 <= k < raw.len() <= usize::MAX,
    ensures
        leads_to(raw, k, k),
{
    let chain = seq![k as usize];
    assert(is_chain(raw, chain));
    assert(chain[0] == k && chain.last() == k);
}

/// Whatever an object that is made leads to is made.
pub proof fn lemma_made_onward(
    raw: Declarations,
    made: Seq<Option<Rc<Object>>>,
    ranks: Seq<nat>,
    chain: Seq<usize>,
    i: int,
)
    requires
        made_well(raw, made, ranks),
        is_chain(raw, chain),
        0 <= i < chain.len(),
        made[chain[0] as int] is Some,
    ensures
        made[chain[i] as int] is Some,
    decreases i,
{
    if i > 0 {
        lemma_made_onward(raw, made, ranks, chain, i - 1);
        let a = chain[i - 1] as int;
        assert(edge(raw, a, chain[i] as int));
        assert(children_below(raw, made, ranks, a, ranks[a]));
    }
}

/// Whether every object that was entered since is one that the object
/// at `k` leads to.
pub open spec fn entered_from(
    raw: Declarations,
    before: Seq<Option<Rc<Object>>>,
    after: Seq<Option<Rc<Object>>>,
    k: int,
) -> bool {
    forall|a: int|
        0 <= a < raw.len() && (#[trigger] after[a]) is Some && before[a] is None ==> leads_to(
            raw,
            k,
            a,
        )
}

/// Whether the objects that are entered are those that were, and those
/// that the object at `k` leads to.
pub open spec fn all_entered_from(
    raw: Declarations,
    before: Seq<Option<Rc<Object>>>,
    after: Seq<Option<Rc<Object>>>,
    k: int,
) -> bool {
    forall|a: int|
        0 <= a < raw.len() ==> ((#[trigger] after[a]) is Some <==> before[a] is Some || leads_to(
            raw,
            k,
            a,
        ))
}

/// Where the object at `k` is made, and only what it leads to was
/// entered since, the objects that are entered are those that were and
/// those that it leads to.
pub proof fn lemma_all_entered(
    raw: Declarations,
    before: Seq<Option<Rc<Object>>>,
    after: Seq<Option<Rc<Object>>>,
    ranks: Seq<nat>,
    k: int,
)
    requires
        made_well(raw, after, ranks),
        stays(before, after),
        0 <= k < raw.len(),
        after[k] is Some,
        entered_from(raw, before, after, k),
    ensures
        all_entered_from(raw, before, after, k),
{
    assert forall|a: int| 0 <= a < raw.len() implies ((#[trigger] after[a]) is Some <==> before[a] is Some
        || leads_to(raw, k, a)) by {
        if leads_to(raw, k, a) {
            let chain = choose|chain: Seq<usize>|
                #![trigger is_chain(raw, chain)]
                is_chain(raw, chain) && chain.len() > 0 && chain[0] == k && chain.last() == a;
            lemma_made_onward(raw, after, ranks, chain, chain.len() - 1);
        }
    }
}

/// Whether every object that was entered since is one that the
/// property at `j` of the declaration at `k` leads to.
pub open spec fn property_enters(
    raw: Declarations,
    k: int,
    j: int,
    before: Seq<Option<Rc<Object>>>,
    after: Seq<Option<Rc<Object>>>,
) -> bool {
    match target(raw, raw[k].1.properties[j].1.property_type) {
        Some(b) => entered_from(raw, before, after, b),
        None => after == before,
    }
}

/// Whether the objects that were made are still there.
pub open spec fn stays(before: Seq<Option<Rc<Object>>>, after: Seq<Option<Rc<Object>>>) -> bool {
    &&& after.len() == before.len()
    &&& forall|a: int| 0 <= a < before.len() && (#[trigger] before[a]) is Some ==> after[a] == before[a]
}

/// Whether objects are being made in good order: what is made is made
/// well under some ranking, the objects that are being made form a
/// chain of different objects, and none of them is made yet.
pub open spec fn resolving(
    raw: Declarations,
    made: Seq<Option<Rc<Object>>>,
    visiting: Seq<usize>,
) -> bool {
    &&& exists|ranks: Seq<nat>| made_well(raw, made, ranks)
    &&& is_chain(raw, visiting)
    &&& visiting.no_duplicates()
    &&& none_made(made, visiting)
}

/// Whether the result is the property that is made of the one declared
/// at `j` in the declaration at `k`, as were `before` and are `after`
/// the objects that are made. A keyword gives its primitive type, and
/// nothing is made. A name that nothing goes by gives the error that
/// names object, property and type, and nothing is made. The name of a
/// declared object gives that object, as it is made; where it was made
/// before, nothing more is made. Else the object is made now, which
/// fails where the declarations have a fault.
pub open spec fn property_fits(
    r: Result<Property, ConfigError>,
    raw: Declarations,
    k: int,
    j: int,
    before: Seq<Option<Rc<Object>>>,
    after: Seq<Option<Rc<Object>>>,
) -> bool {
    let d = raw[k].1.properties[j];
    &&& r matches Ok(p) ==> property_realizes((d.0, p@), raw, d)
    &&& match keyword(d.1.property_type) {
        Some(simple) => r matches Ok(p) && p.property_type == Type::Simple(simple) && after
            == before,
        None => match declared(raw, d.1.property_type) {
            None => r matches Err(e) && names_unknown(e, raw, k, j) && after == before,
            Some(b) => match r {
                Ok(p) => after[b] matches Some(object) && p.property_type == Type::Object(object)
                    && (before[b] is Some ==> after == before),
                Err(e) => fault(e, raw) && before[b] is None,
            },
        },
    }
}

/// Whether the result tells what became of the declaration at `k`: the
/// object is made of it and entered, or the declarations have a fault
/// and the object is not entered.
pub open spec fn object_fits(
    r: Result<(), ConfigError>,
    raw: Declarations,
    k: int,
    after: Seq<Option<Rc<Object>>>,
) -> bool {
    match r {
        Ok(_) => after[k] matches Some(object) && object_realizes(object@, raw, k),
        Err(e) => fault(e, raw) && after[k] is None,
    }
}

/// Finds the type of a property, with the ranking under which the
/// objects are made well.
fn resolve_property(
    objects: &Vec<(String, json::Object)>,
    k: usize,
    j: usize,
    made: &mut Vec<Option<Rc<Object>>>,
    visiting: &mut Vec<usize>,
    Ghost(ranks): Ghost<Seq<nat>>,
) -> (r: (Result<Property, ConfigError>, Ghost<Seq<nat>>))
    requires
        k < objects.len(),
        j < objects[k as int].1.properties.len(),
        made_well(json::objects_view(objects@), old(made)@, ranks),
        is_chain(json::objects_view(objects@), old(visiting)@),
        old(visiting)@.no_duplicates(),
        old(visiting)@.len() > 0,
        old(visiting)@.last() == k,
        none_made(old(made)@, old(visiting)@),
    ensures
        made_well(json::objects_view(objects@), final(made)@, r.1@),
        final(visiting)@ == old(visiting)@,
        keeps(old(made)@, ranks, final(made)@, r.1@),
        none_made(final(made)@, old(visiting)@),
        property_fits(
            r.0,
            json::objects_view(objects@),
            k as int,
            j as int,
            old(made)@,
            final(made)@,
        ),
        fault_fits(
            r.0,
            json::objects_view(objects@),
            property_fault(json::objects_view(objects@), old(visiting)@, k as int, j as int),
        ),
        property_enters(
            json::objects_view(objects@),
            k as int,
            j as int,
            old(made)@,
            final(made)@,
        ),
    decreases 2 * (objects.len() - old(visiting).len()) + 1,
{
    let ghost raw = json::objects_view(objects@);
    let name = &objects[k].1.properties[j].0;
    let declared_property = &objects[k].1.properties[j].1;
    let type_text = declared_property.property_type.as_str();
    assert(raw[k as int].1.properties[j as int] == (name@, declared_property@));
    let mut new_ranks = Ghost(ranks);
    let t = match simple_type(type_text) {
        Some(simple) => Type::Simple(simple),
        None => {
            match find_declaration(objects, type_text) {
                None => {
                    assert(unknown_at(raw, k as int, j as int));
                    return (
                        Err(
                            ConfigError::UnknownType {
                                object: objects[k].0.clone(),
                                property: name.clone(),
                                type_text: declared_property.property_type.clone(),
                            },
                        ),
                        new_ranks,
                    );
                },
                Some(b) => {
                    assert(target(raw, raw[k as int].1.properties[j as int].1.property_type) == Some(
                        b as int,
                    ));
                    assert(edge(raw, k as int, b as int));
                    proof {
                        if made@[b as int] is Some {
                            if visiting@.contains(b) {
                                let i = choose|i: int| 0 <= i < visiting@.len() && visiting@[i] == b;
                                assert(made@[visiting@[i] as int] is None);
                            }
                            lemma_made_object(raw, made@, ranks, visiting@, b as int);
                        }
                    }
                    if made[b].is_none() {
                        match is_visiting(visiting, b) {
                            Some(i) => {
                                proof {
                                    let chain = visiting@.subrange(i as int, visiting@.len() as int);
                                    assert(is_chain(raw, chain)) by {
                                        assert forall|x: int| 0 <= x < chain.len() - 1 implies edge(
                                            raw,
                                            #[trigger] chain[x] as int,
                                            chain[x + 1] as int,
                                        ) by {
                                            assert(edge(
                                                raw,
                                                visiting@[i + x] as int,
                                                visiting@[i + x + 1] as int,
                                            ));
                                        }
                                    }
                                    assert(chain[0] == b && chain.last() == k);
                                    assert(visiting@[i as int] == b);
                                    assert(visiting@.contains(b));
                                    assert(leads_to_itself(raw, b as int));
                                    assert(names_cyclic(
                                        ConfigError::CyclicType { object: objects[b as int].0 },
                                        raw,
                                        b as int,
                                    ));
                                }
                                return (
                                    Err(ConfigError::CyclicType { object: objects[b].0.clone() }),
                                    new_ranks,
                                );
                            },
                            None => {
                                proof {
                                    lemma_distinct_bounded(visiting@.push(b), objects.len() as nat);
                                }
                                let (result, r) = resolve_object(
                                    objects,
                                    b,
                                    made,
                                    visiting,
                                    new_ranks,
                                );
                                new_ranks = r;
                                match result {
                                    Err(e) => {
                                        return (Err(e), new_ranks);
                                    },
                                    Ok(_) => {},
                                }
                            },
                        }
                    }
                    match &made[b] {
                        None => unreached(),
                        Some(object) => Type::Object(share(object)),
                    }
                },
            }
        },
    };
    (
        Ok(
            Property {
                optional: declared_property.optional,
                property_type: t,
                rust_by_function: declared_property.rust_by_function,
                write: declared_property.write,
            },
        ),
        new_ranks,
    )
}

/// Makes the object of the declaration at `k`, with the ranking under
/// which the objects are made well.
fn resolve_object(
    objects: &Vec<(String, json::Object)>,
    k: usize,
    made: &mut Vec<Option<Rc<Object>>>,
    visiting: &mut Vec<usize>,
    Ghost(ranks): Ghost<Seq<nat>>,
) -> (r: (Result<(), ConfigError>, Ghost<Seq<nat>>))
    requires
        k < objects.len(),
        made_well(json::objects_view(objects@), old(made)@, ranks),
        old(made)@[k as int] is None,
        is_chain(json::objects_view(objects@), old(visiting)@),
        old(visiting)@.no_duplicates(),
        !old(visiting)@.contains(k),
        old(visiting)@.len() > 0 ==> edge(
            json::objects_view(objects@),
            old(visiting)@.last() as int,
            k as int,
        ),
        old(visiting)@.len() < objects.len(),
        none_made(old(made)@, old(visiting)@),
    ensures
        made_well(json::objects_view(objects@), final(made)@, r.1@),
        final(visiting)@ == old(visiting)@,
        keeps(old(made)@, ranks, final(made)@, r.1@),
        none_made(final(made)@, old(visiting)@),
        object_fits(r.0, json::objects_view(objects@), k as int, final(made)@),
        fault_fits(
            r.0,
            json::objects_view(objects@),
            object_fault(json::objects_view(objects@), old(visiting)@, k as int),
        ),
        entered_from(json::objects_view(objects@), old(made)@, final(made)@, k as int),
    decreases 2 * (objects.len() - old(visiting).len()),
{
    let ghost raw = json::objects_view(objects@);
    let ghost made0 = made@;
    let ghost chain0 = visiting@;
    visiting.push(k);
    let declaration = &objects[k].1;
    let mut properties: Vec<(String, Property)> = Vec::new();
    let mut cur = Ghost(ranks);
    let ghost mut top: nat = 0;
    let mut j: usize = 0;
    assert(is_chain(raw, visiting@)) by {
        assert forall|i: int| 0 <= i < visiting@.len() - 1 implies edge(
            raw,
            #[trigger] visiting@[i] as int,
            visiting@[i + 1] as int,
        ) by {
            if i < chain0.len() - 1 {
                assert(edge(raw, chain0[i] as int, chain0[i + 1] as int));
            }
        }
    }
    while j < declaration.properties.len()
        invariant
            j <= declaration.properties.len(),
            k < objects.len(),
            declaration == &objects[k as int].1,
            raw == json::objects_view(objects@),
            made_well(raw, made@, cur@),
            visiting@ == chain0.push(k),
            chain0 == old(visiting)@,
            made0 == old(made)@,
            made0.len() == raw.len(),
            is_chain(raw, visiting@),
            visiting@.no_duplicates(),
            chain0.len() < objects.len(),
            none_made(made@, visiting@),
            keeps(made0, ranks, made@, cur@),
            properties.len() == j,
            forall|i: int|
                0 <= i < j ==> property_realizes(
                    (#[trigger] properties[i].0@, properties[i].1@),
                    raw,
                    raw[k as int].1.properties[i],
                ),
            first_children_below(raw, made@, cur@, k as int, j as int, top),
            object_fault(raw, chain0, k as int) == properties_fault(
                raw,
                chain0.push(k),
                k as int,
                j as int,
            ),
            entered_from(raw, made0, made@, k as int),
        decreases declaration.properties.len() - j,
    {
        let ghost made1 = made@;
        let ghost cur1 = cur@;
        let (result, r) = resolve_property(objects, k, j, made, visiting, cur);
        proof {
            assert(raw[k as int].1.properties.len() == declaration.properties.len());
            assert(properties_fault(raw, chain0.push(k), k as int, j as int) == (match property_fault(
                raw,
                chain0.push(k),
                k as int,
                j as int,
            ) {
                Some(f) => Some(f),
                None => properties_fault(raw, chain0.push(k), k as int, j + 1),
            }));
            assert forall|a: int| 0 <= a < made0.len() && (#[trigger] made0[a]) is Some implies made@[a]
                == made0[a] && r@[a] == ranks[a] by {
                assert(made1[a] is Some);
            }
            assert forall|a: int|
                0 <= a < raw.len() && (#[trigger] made@[a]) is Some
                    && made0[a] is None implies leads_to(raw, k as int, a) by {
                if made1[a] is None {
                    let b = target(raw, raw[k as int].1.properties[j as int].1.property_type)->0;
                    lemma_declared(raw, raw[k as int].1.properties[j as int].1.property_type);
                    assert(edge(raw, k as int, b));
                    lemma_leads_on(raw, k as int, b, a);
                }
            }
        }
        match result {
            Err(e) => {
                visiting.pop();
                proof {
                    assert(visiting@ =~= chain0);
                    assert(made@[k as int] is None) by {
                        assert(chain0.push(k)[chain0.len() as int] == k);
                    }
                    assert forall|i: int| 0 <= i < chain0.len() implies made@[#[trigger] chain0[i] as int] is None by {
                        assert(chain0.push(k)[i] == chain0[i]);
                    }
                }
                return (Err(e), r);
            },
            Ok(p) => {
                proof {
                    let d = raw[k as int].1.properties[j as int];
                    let step = target(raw, d.1.property_type);
                    if step is Some {
                        let b = step->0;
                        lemma_declared(raw, d.1.property_type);
                        if r@[b] >= top {
                            top = r@[b] + 1;
                        }
                    }
                    assert forall|i: int| 0 <= i < j + 1 implies (match #[trigger] target(
                        raw,
                        raw[k as int].1.properties[i].1.property_type,
                    ) {
                        Some(b) => 0 <= b < raw.len() && made@[b] is Some && r@[b] < top,
                        None => true,
                    }) by {
                        if i < j {
                            let t = target(raw, raw[k as int].1.properties[i].1.property_type);
                            if t is Some {
                                assert(made1[t->0] is Some);
                            }
                        }
                    }
                }
                cur = r;
                properties.push((declaration.properties[j].0.clone(), p));
            },
        }
        j = j + 1;
    }
    let object = Object {
        name: objects[k].0.clone(),
        functions: copy_functions(&declaration.functions),
        item_properties: copy_item_properties(&declaration.item_properties),
        object_type: declaration.object_type,
        properties,
    };
    proof {
        assert(raw[k as int].1.properties.len() == declaration.properties.len());
        assert(properties_fault(raw, chain0.push(k), k as int, j as int) is None);
        assert(object@.properties.len() == raw[k as int].1.properties.len());
        assert forall|i: int| 0 <= i < object@.properties.len() implies property_realizes(
            #[trigger] object@.properties[i],
            raw,
            raw[k as int].1.properties[i],
        ) by {
            assert(object@.properties[i] == (object.properties[i].0@, object.properties[i].1@));
        }
        assert(object_realizes(object@, raw, k as int));
        assert(made@[k as int] is None) by {
            assert(visiting@[visiting@.len() - 1] == k);
        }
    }
    let ghost made2 = made@;
    let ghost cur2 = cur@;
    made.set(k, Some(Rc::new(object)));
    let ghost new_ranks = cur2.update(k as int, top);
    visiting.pop();
    proof {
        assert(visiting@ =~= chain0);
        assert forall|a: int| 0 <= a < raw.len() && (#[trigger] made@[a]) is Some implies object_realizes(
            made@[a]->0@,
            raw,
            a,
        ) && children_below(raw, made@, new_ranks, a, new_ranks[a]) by {
            if a == k {
                assert forall|i: int| 0 <= i < raw[a].1.properties.len() implies (match #[trigger] target(
                    raw,
                    raw[a].1.properties[i].1.property_type,
                ) {
                    Some(b) => 0 <= b < raw.len() && made@[b] is Some && new_ranks[b] < top,
                    None => true,
                }) by {
                    let t = target(raw, raw[a].1.properties[i].1.property_type);
                    if t is Some {
                        assert(made2[t->0] is Some);
                    }
                }
            } else {
                assert(made2[a] is Some);
                assert(children_below(raw, made2, cur2, a, cur2[a]));
                assert forall|i: int| 0 <= i < raw[a].1.properties.len() implies (match #[trigger] target(
                    raw,
                    raw[a].1.properties[i].1.property_type,
                ) {
                    Some(b) => 0 <= b < raw.len() && made@[b] is Some && new_ranks[b] < new_ranks[a],
                    None => true,
                }) by {
                    let t = target(raw, raw[a].1.properties[i].1.property_type);
                    if t is Some {
                        assert(made2[t->0] is Some);
                    }
                }
            }
        }
        assert forall|i: int| 0 <= i < chain0.len() implies made@[#[trigger] chain0[i] as int] is None by {
            assert(visiting@.push(k)[i] == chain0[i]);
            assert(made2[chain0.push(k)[i] as int] is None);
            assert(chain0[i] != k);
        }
        assert forall|a: int| 0 <= a < made0.len() && (#[trigger] made0[a]) is Some implies made@[a]
            == made0[a] && new_ranks[a] == ranks[a] by {
            assert(made2[a] == made0[a]);
        }
        assert forall|a: int|
            0 <= a < raw.len() && (#[trigger] made@[a]) is Some && made0[a] is None implies leads_to(
            raw,
            k as int,
            a,
        ) by {
            if a == k {
                lemma_leads_to_self(raw, k as int);
            } else {
                assert(made2[a] is Some);
            }
        }
    }
    (Ok(()), Ghost(new_ranks))
}

/// Finds the type of the property at `j` of the declaration at `k`: a
/// primitive type by its keyword, else the object of that name, which
/// is made first where it is not made yet. Fails where nothing goes by
/// the name, and where the object cannot be made: it is being made
/// already, and so would be part of itself, or a type further on is
/// unknown. Only what the property leads to counts: it succeeds where
/// nothing is wrong there, whatever is wrong with other declarations,
/// and else tells of what is met first. What was made stays, and only
/// objects that the object of the property leads to are entered: all of
/// them where it succeeds.
pub fn post_process_property(
    objects: &Vec<(String, json::Object)>,
    k: usize,
    j: usize,
    made: &mut Vec<Option<Rc<Object>>>,
    visiting: &mut Vec<usize>,
) -> (r: Result<Property, ConfigError>)
    requires
        k < objects.len(),
        j < objects[k as int].1.properties.len(),
        resolving(json::objects_view(objects@), old(made)@, old(visiting)@),
        old(visiting)@.len() > 0,
        old(visiting)@.last() == k,
    ensures
        resolving(json::objects_view(objects@), final(made)@, final(visiting)@),
        final(visiting)@ == old(visiting)@,
        stays(old(made)@, final(made)@),
        property_fits(
            r,
            json::objects_view(objects@),
            k as int,
            j as int,
            old(made)@,
            final(made)@,
        ),
        fault_fits(
            r,
            json::objects_view(objects@),
            property_fault(json::objects_view(objects@), old(visiting)@, k as int, j as int),
        ),
        property_enters(
            json::objects_view(objects@),
            k as int,
            j as int,
            old(made)@,
            final(made)@,
        ),
        r is Ok ==> (match target(
            json::objects_view(objects@),
            json::objects_view(objects@)[k as int].1.properties[j as int].1.property_type,
        ) {
            Some(b) => all_entered_from(json::objects_view(objects@), old(made)@, final(made)@, b),
            None => true,
        }),
        resolvable(json::objects_view(objects@)) ==> r is Ok,
{
    let ghost raw = json::objects_view(objects@);
    let ghost ranks = choose|ranks: Seq<nat>| made_well(raw, made@, ranks);
    let ghost before = made@;
    let (result, r) = resolve_property(objects, k, j, made, visiting, Ghost(ranks));
    proof {
        assert(made_well(raw, made@, r@));
        let step = target(raw, raw[k as int].1.properties[j as int].1.property_type);
        if result is Ok && step is Some {
            lemma_declared(raw, raw[k as int].1.properties[j as int].1.property_type);
            lemma_all_entered(raw, before, made@, r@, step->0);
        }
        if result is Err {
            let d = raw[k as int].1.properties[j as int];
            if keyword(d.1.property_type) is None && declared(raw, d.1.property_type) is None {
                assert(unknown_at(raw, k as int, j as int));
            }
            lemma_fault_not_resolvable(result->Err_0, raw);
        }
    }
    result
}

/// Makes the object of the declaration at `k` and enters it, after the
/// objects among its properties. Fails where these cannot be made: one
/// is being made already, and so would be part of itself, or the type
/// of a property is unknown. The object is not entered then, and the
/// error is that of the first of its properties that fails. Only what
/// the object leads to counts: it is made where nothing is wrong
/// there, whatever is wrong with other declarations. What was made
/// stays, and only objects that the object leads to are entered: all of
/// them where it succeeds.
pub fn post_process_object(
    objects: &Vec<(String, json::Object)>,
    k: usize,
    made: &mut Vec<Option<Rc<Object>>>,
    visiting: &mut Vec<usize>,
) -> (r: Result<(), ConfigError>)
    requires
        k < objects.len(),
        old(made)@[k as int] is None,
        resolving(json::objects_view(objects@), old(made)@, old(visiting)@),
        !old(visiting)@.contains(k),
        old(visiting)@.len() > 0 ==> edge(
            json::objects_view(objects@),
            old(visiting)@.last() as int,
            k as int,
        ),
    ensures
        resolving(json::objects_view(objects@), final(made)@, final(visiting)@),
        final(visiting)@ == old(visiting)@,
        stays(old(made)@, final(made)@),
        object_fits(r, json::objects_view(objects@), k as int, final(made)@),
        fault_fits(
            r,
            json::objects_view(objects@),
            object_fault(json::objects_view(objects@), old(visiting)@, k as int),
        ),
        entered_from(json::objects_view(objects@), old(made)@, final(made)@, k as int),
        r is Ok ==> all_entered_from(
            json::objects_view(objects@),
            old(made)@,
            final(made)@,
            k as int,
        ),
        resolvable(json::objects_view(objects@)) ==> r is Ok,
{
    let ghost raw = json::objects_view(objects@);
    let ghost ranks = choose|ranks: Seq<nat>| made_well(raw, made@, ranks);
    proof {
        lemma_distinct_bounded(visiting@.push(k), objects.len() as nat);
    }
    let ghost before = made@;
    let (result, r) = resolve_object(objects, k, made, visiting, Ghost(ranks));
    proof {
        assert(made_well(raw, made@, r@));
        if result is Ok {
            lemma_all_entered(raw, before, made@, r@, k as int);
        }
        if result is Err {
            lemma_fault_not_resolvable(result->Err_0, raw);
        }
    }
    result
}

/// Whether the objects are made of the declarations, each of the
/// declaration at its place and under its name.
pub open spec fn objects_realize(made: Seq<(Seq<char>, ObjectView)>, raw: Declarations) -> bool {
    &&& made.len() == raw.len()
    &&& forall|k: int|
        0 <= k < raw.len() ==> (#[trigger] made[k]).0 == raw[k].0 && object_realizes(
            made[k].1,
            raw,
            k,
        )
}

/// A declaration makes one object only: two objects that are made of
/// the same declaration are the same.
pub proof fn lemma_one_realization(a: ObjectView, b: ObjectView, raw: Declarations, k: int)
    requires
        object_realizes(a, raw, k),
        object_realizes(b, raw, k),
    ensures
        a == b,
    decreases a,
{
    assert forall|j: int| 0 <= j < a.properties.len() implies a.properties[j] == b.properties[j] by {
        let d = raw[k].1.properties[j];
        assert(property_realizes(a.properties[j], raw, d));
        assert(property_realizes(b.properties[j], raw, d));
        let x = a.properties[j].1;
        let y = b.properties[j].1;
        if keyword(d.1.property_type) is None {
            let t = declared(raw, d.1.property_type)->0;
            match (x.property_type, y.property_type) {
                (TypeView::Object(o), TypeView::Object(p)) => {
                    lemma_one_realization(*o, *p, raw, t);
                },
                _ => {},
            }
        }
        assert(x.property_type == y.property_type);
    }
    assert(a.properties =~= b.properties);
}

/// The objects that are made of declarations are the same however they
/// are made.
pub proof fn lemma_one_resolution(
    a: Seq<(Seq<char>, ObjectView)>,
    b: Seq<(Seq<char>, ObjectView)>,
    raw: Declarations,
)
    requires
        objects_realize(a, raw),
        objects_realize(b, raw),
    ensures
        a == b,
{
    assert forall|k: int| 0 <= k < a.len() implies a[k] == b[k] by {
        lemma_one_realization(a[k].1, b[k].1, raw, k);
    }
    assert(a =~= b);
}

/// Whether objects can be made of the declarations: the type of every
/// property is known, and no object is part of itself.
pub open spec fn resolvable(raw: Declarations) -> bool {
    all_known(raw, raw.len() as int) && acyclic(raw)
}

/// What is wrong with the first of the objects from `k` on with which
/// anything is, while no object is being made.
pub open spec fn objects_fault(raw: Declarations, k: int) -> Option<Fault>
    decreases raw.len() - k,
{
    if k < 0 || k >= raw.len() {
        None
    } else {
        match object_fault(raw, Seq::empty(), k) {
            Some(f) => Some(f),
            None => objects_fault(raw, k + 1),
        }
    }
}

/// Whether the error is the one that the declarations call for: the
/// first property with an unknown type, or else the object that leads
/// to itself and is met first on the way through the objects and their
/// properties in order.
pub open spec fn error_fits(e: ConfigError, raw: Declarations) -> bool {
    match e {
        ConfigError::UnknownType { object, property, type_text } => exists|k: int, j: int|
            #![trigger raw[k].1.properties[j]]
            is_first_unknown(raw, k, j) && object@ == raw[k].0 && property@
                == raw[k].1.properties[j].0 && type_text@
                == raw[k].1.properties[j].1.property_type,
        ConfigError::CyclicType { object } => {
            &&& all_known(raw, raw.len() as int)
            &&& exists|b: int| #[trigger] names_cyclic(e, raw, b) && leads_to_itself(raw, b)
            &&& objects_fault(raw, 0) matches Some(f) && names_fault(e, raw, f)
        },
        _ => false,
    }
}

/// An unknown type stands in the way of making the objects.
pub proof fn lemma_unknown_not_resolvable(raw: Declarations, k: int, j: int)
    requires
        is_first_unknown(raw, k, j),
    ensures
        !resolvable(raw),
{
    if all_known(raw, raw.len() as int) {
        assert(properties_known(raw, k, raw[k].1.properties.len() as int));
        assert(type_known(raw, raw[k].1.properties[j].1.property_type));
    }
}

/// Makes the objects of their declarations, where that can be done.
pub fn post_process_objects(objects: &Vec<(String, json::Object)>) -> (r: Result<
    Vec<(String, Rc<Object>)>,
    ConfigError,
>)
    ensures
        r is Ok == resolvable(json::objects_view(objects@)),
        match r {
            Ok(made) => objects_realize(made_view(made@), json::objects_view(objects@)),
            Err(e) => error_fits(e, json::objects_view(objects@)),
        },
{
    let ghost raw = json::objects_view(objects@);
    match find_unknown(objects) {
        Some((k, j)) => {
            proof {
                lemma_unknown_not_resolvable(raw, k as int, j as int);
            }
            let p = &objects[k].1.properties[j];
            assert(raw[k as int].1.properties[j as int] == (p.0@, p.1@));
            return Err(
                ConfigError::UnknownType {
                    object: objects[k].0.clone(),
                    property: p.0.clone(),
                    type_text: p.1.property_type.clone(),
                },
            );
        },
        None => {},
    }
    let mut made: Vec<Option<Rc<Object>>> = Vec::new();
    let mut i: usize = 0;
    while i < objects.len()
        invariant
            i <= objects.len(),
            made.len() == i,
            forall|a: int| 0 <= a < i ==> made[a] is None,
        decreases objects.len() - i,
    {
        made.push(None);
        i = i + 1;
    }
    let mut ranks: Ghost<Seq<nat>> = Ghost(Seq::new(objects.len() as nat, |a: int| 0nat));
    let mut visiting: Vec<usize> = Vec::new();
    let mut k: usize = 0;
    while k < objects.len()
        invariant
            k <= objects.len(),
            raw == json::objects_view(objects@),
            all_known(raw, objects.len() as int),
            made_well(raw, made@, ranks@),
            visiting@.len() == 0,
            forall|a: int| 0 <= a < k ==> made[a] is Some,
            objects_fault(raw, 0) == objects_fault(raw, k as int),
        decreases objects.len() - k,
    {
        proof {
            assert(visiting@ =~= Seq::empty());
            if made@[k as int] is Some {
                lemma_made_object(raw, made@, ranks@, Seq::empty(), k as int);
            }
        }
        if made[k].is_none() {
            let ghost before = made@;
            let (result, r) = resolve_object(objects, k, &mut made, &mut visiting, ranks);
            ranks = r;
            match result {
                Err(e) => {
                    proof {
                        if !(exists|b: int|
                            #[trigger] names_cyclic(e, raw, b) && leads_to_itself(raw, b)) {
                            let (a, j) = choose|a: int, j: int|
                                #![trigger raw[a].1.properties[j]]
                                unknown_at(raw, a, j) && names_unknown(e, raw, a, j);
                            assert(properties_known(raw, a, raw[a].1.properties.len() as int));
                            assert(type_known(raw, raw[a].1.properties[j].1.property_type));
                        }
                        lemma_fault_not_resolvable(e, raw);
                    }
                    return Err(e);
                },
                Ok(_) => {
                    assert forall|a: int| 0 <= a < k + 1 implies made[a] is Some by {
                        if a < k {
                            assert(before[a] is Some);
                        }
                    }
                },
            }
        }
        k = k + 1;
    }
    proof {
        assert(ranked(raw, ranks@)) by {
            assert forall|a: int, j: int|
                0 <= a < raw.len() && 0 <= j < raw[a].1.properties.len() implies (match #[trigger] target(
                    raw,
                    raw[a].1.properties[j].1.property_type,
                ) {
                    Some(b) => 0 <= b < raw.len() && ranks@[b] < ranks@[a],
                    None => true,
                }) by {
                assert(made[a] is Some);
                assert(children_below(raw, made@, ranks@, a, ranks@[a]));
            }
        }
    }
    let mut result: Vec<(String, Rc<Object>)> = Vec::new();
    let mut k: usize = 0;
    while k < objects.len()
        invariant
            k <= objects.len(),
            raw == json::objects_view(objects@),
            made_well(raw, made@, ranks@),
            forall|a: int| 0 <= a < objects.len() ==> made[a] is Some,
            result.len() == k,
            forall|a: int|
                0 <= a < k ==> (#[trigger] result[a]).0@ == raw[a].0 && object_realizes(
                    result[a].1@,
                    raw,
                    a,
                ),
        decreases objects.len() - k,
    {
        match &made[k] {
            None => unreached(),
            Some(object) => {
                result.push((objects[k].0.clone(), share(object)));
            },
        }
        k = k + 1;
    }
    assert(objects_realize(made_view(result@), raw)) by {
        assert forall|a: int| 0 <= a < raw.len() implies (#[trigger] made_view(result@)[a]).0
            == raw[a].0 && object_realizes(made_view(result@)[a].1, raw, a) by {
            assert(result[a].1@ == object_view(*result[a].1));
        }
    }
    Ok(result)
}

/// Whether the configuration is made of the declarations that were read
/// from the file `config_file`, for a crate of the edition `edition`: it
/// names the files as the declarations do, its objects are made of
/// theirs, and its edition is that one.
pub open spec fn config_realizes(
    conf: ConfigView,
    config_file: Seq<char>,
    json: json::ConfigView,
    edition: RustEdition,
) -> bool {
    &&& conf.config_file == config_file
    &&& conf.cpp_file == json.cpp_file
    &&& conf.rust == json.rust
    &&& conf.rust_edition == edition
    &&& conf.overwrite_implementation == json.overwrite_implementation
    &&& objects_realize(conf.objects, json.objects)
}

/// Whether objects can be made of the declarations, but not all of them
/// such that code can be written for them.
pub open spec fn malformed(raw: Declarations) -> bool {
    resolvable(raw) && exists|made: Seq<(Seq<char>, ObjectView)>|
        objects_realize(made, raw) && !#[trigger] all_ok(made)
}

/// Whether a configuration is made of the declarations and the
/// manifest: objects can be made of the declarations, code can be
/// written for them, and the manifest gives an edition.
pub open spec fn configurable(raw: Declarations, manifest: Manifest) -> bool {
    resolvable(raw) && !malformed(raw) && edition_given(manifest) is Some
}

/// Whether the error names the first declaration that is not well
/// formed, and the first part of it with which something is wrong.
pub open spec fn malformed_fits(e: ConfigError, raw: Declarations) -> bool {
    e matches ConfigError::Malformed { object, part } && exists|k: int|
        #[trigger] first_malformed(raw, k) && object@ == raw[k].0 && part_fits(part, raw, k)
}

/// Whether the error is the one that the declarations and the manifest
/// call for: declarations of which no objects can be made come first,
/// then objects for which no code can be written, then a manifest that
/// gives no edition.
pub open spec fn failure_fits(e: ConfigError, raw: Declarations, manifest: Manifest) -> bool {
    if !resolvable(raw) {
        error_fits(e, raw)
    } else if malformed(raw) {
        malformed_fits(e, raw)
    } else {
        edition_fits(Err(e), manifest)
    }
}

/// Whether the result is the configuration that is made of the
/// declarations read from `config_file` and of the manifest, or the
/// error that tells why none is made.
pub open spec fn configuration_fits(
    r: Result<Config, ConfigError>,
    config_file: Seq<char>,
    json: json::ConfigView,
    manifest: Manifest,
) -> bool {
    match r {
        Ok(conf) => configurable(json.objects, manifest) && config_ok(conf@) && config_realizes(
            conf@,
            config_file,
            json,
            edition_given(manifest)->0,
        ),
        Err(e) => !configurable(json.objects, manifest) && failure_fits(e, json.objects, manifest),
    }
}

/// Makes a configuration of the declarations that were read from the
/// file `config_file`, and of the manifest of the crate that receives
/// the Rust code.
pub fn post_process(config_file: &str, json: json::Config, manifest: Manifest) -> (r: Result<
    Config,
    ConfigError,
>)
    ensures
        configuration_fits(r, config_file@, json@, manifest),
{
    let objects = match post_process_objects(&json.objects) {
        Err(e) => {
            return Err(e);
        },
        Ok(objects) => objects,
    };
    match find_malformed(&json.objects) {
        Some((k, part)) => {
            proof {
                lemma_malformed_objects(made_view(objects@), json@.objects, k as int);
                assert(malformed(json@.objects));
            }
            return Err(ConfigError::Malformed { object: json.objects[k].0.clone(), part });
        },
        None => {},
    }
    proof {
        lemma_good_objects(made_view(objects@), json@.objects);
    }
    assert(!malformed(json@.objects)) by {
        assert forall|made: Seq<(Seq<char>, ObjectView)>|
            objects_realize(made, json@.objects) implies #[trigger] all_ok(made) by {
            lemma_one_resolution(made, made_view(objects@), json@.objects);
        }
    }
    let rust_edition = match manifest_edition(manifest) {
        Err(e) => {
            return Err(e);
        },
        Ok(edition) => edition,
    };
    let conf = Config {
        config_file: String::from_str(config_file),
        cpp_file: json.cpp_file,
        objects,
        rust: json.rust,
        rust_edition,
        overwrite_implementation: json.overwrite_implementation,
    };
    assert(conf@.objects =~= made_view(conf.objects@));
    Ok(conf)
}

} // verus!
