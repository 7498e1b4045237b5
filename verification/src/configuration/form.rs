//! Where a declaration is not well formed: the first name that is empty
//! or does not stand in the order of the names, or the first role of an
//! item of a list or tree that is not known.
use crate::configuration::json;
use crate::configuration::resolution::{
    declared, Declarations, keyword, object_realizes, objects_realize, property_realizes,
};
use crate::configuration::{ItemProperty, ItemPropertyView, ObjectType, ObjectView, TypeView};
use crate::error::Part;
use crate::names::{increasing, lemma_text_lt_transitive, str_lt, text_lt};
use crate::validity::{
    all_ok, column_roles_known, is_role_known, item_roles_known, names_of, object_ok, role_known,
};
use vstd::prelude::*;
use vstd::string::*;

verus! {

/// Whether the name at `i` does not stand after the one before it.
pub open spec fn misplaced(names: Seq<Seq<char>>, i: int) -> bool {
    i > 0 && !text_lt(names[i - 1], names[i])
}

/// Whether the name at `i` is empty or does not stand after the one
/// before it.
pub open spec fn misnamed(names: Seq<Seq<char>>, i: int) -> bool {
    names[i].len() == 0 || misplaced(names, i)
}

/// Whether none of the first `n` names is empty or out of order.
pub open spec fn named_to(names: Seq<Seq<char>>, n: int) -> bool {
    forall|i: int| 0 <= i < n ==> !#[trigger] misnamed(names, i)
}

/// Whether the item property at `i` of the declaration stands out of
/// order, or, in a list or tree, has no name.
pub open spec fn item_misnamed(d: json::ObjectView, i: int) -> bool {
    if d.object_type == ObjectType::Object {
        misplaced(names_of(d.item_properties), i)
    } else {
        misnamed(names_of(d.item_properties), i)
    }
}

/// Whether something is wrong with the item property at `i` of the
/// declaration: its name, or, in a list or tree, one of its roles.
pub open spec fn item_bad(d: json::ObjectView, i: int) -> bool {
    item_misnamed(d, i) || (d.object_type != ObjectType::Object && !item_roles_known(
        d.item_properties[i].1,
    ))
}

/// Whether nothing is wrong with the first `n` item properties of the
/// declaration.
pub open spec fn items_good(d: json::ObjectView, n: int) -> bool {
    forall|i: int| 0 <= i < n ==> !#[trigger] item_bad(d, i)
}

/// Whether the role at `r` of the column `c` is the first role of the
/// item property that is not known.
pub open spec fn first_unknown_role(p: ItemPropertyView, c: int, r: int) -> bool {
    &&& 0 <= c < p.roles.len()
    &&& forall|i: int| 0 <= i < c ==> column_roles_known(#[trigger] p.roles[i])
    &&& 0 <= r < p.roles[c].len()
    &&& forall|i: int| 0 <= i < r ==> role_known(#[trigger] p.roles[c][i])
    &&& !role_known(p.roles[c][r])
}

/// Whether the declaration at `k` is well formed: it has a name and
/// stands after the one before it, and so do its properties and its
/// functions; its item properties stand in order, and in a list or tree
/// they have names and known roles.
pub open spec fn declaration_good(raw: Declarations, k: int) -> bool {
    let d = raw[k].1;
    &&& !misnamed(names_of(raw), k)
    &&& named_to(names_of(d.properties), d.properties.len() as int)
    &&& named_to(names_of(d.functions), d.functions.len() as int)
    &&& items_good(d, d.item_properties.len() as int)
}

/// A place in a declaration: its name, the property, function or item
/// property at a position, or the role at a position in a column of an
/// item property.
pub enum Place {
    Name,
    Property(int),
    Function(int),
    Item(int),
    Role(int, int, int),
}

/// Whether the place is the first in the declaration at `k` at which
/// something is wrong. The name comes first, then the properties, the
/// functions and the item properties, each with its roles.
pub open spec fn place_fits(raw: Declarations, k: int, place: Place) -> bool {
    let d = raw[k].1;
    let properties = names_of(d.properties);
    let functions = names_of(d.functions);
    match place {
        Place::Name => misnamed(names_of(raw), k),
        Place::Property(j) => {
            &&& !misnamed(names_of(raw), k)
            &&& 0 <= j < properties.len()
            &&& named_to(properties, j)
            &&& misnamed(properties, j)
        },
        Place::Function(j) => {
            &&& !misnamed(names_of(raw), k)
            &&& named_to(properties, properties.len() as int)
            &&& 0 <= j < functions.len()
            &&& named_to(functions, j)
            &&& misnamed(functions, j)
        },
        Place::Item(j) => {
            &&& !misnamed(names_of(raw), k)
            &&& named_to(properties, properties.len() as int)
            &&& named_to(functions, functions.len() as int)
            &&& 0 <= j < d.item_properties.len()
            &&& items_good(d, j)
            &&& item_misnamed(d, j)
        },
        Place::Role(j, c, r) => {
            &&& !misnamed(names_of(raw), k)
            &&& named_to(properties, properties.len() as int)
            &&& named_to(functions, functions.len() as int)
            &&& 0 <= j < d.item_properties.len()
            &&& items_good(d, j)
            &&& !item_misnamed(d, j)
            &&& d.object_type != ObjectType::Object
            &&& first_unknown_role(d.item_properties[j].1, c, r)
        },
    }
}

/// Whether the part names what stands at the place in the declaration
/// at `k`.
pub open spec fn names_place(part: Part, raw: Declarations, k: int, place: Place) -> bool {
    let d = raw[k].1;
    match place {
        Place::Name => part is Name,
        Place::Property(j) => part matches Part::Property { name } && name@ == d.properties[j].0,
        Place::Function(j) => part matches Part::Function { name } && name@ == d.functions[j].0,
        Place::Item(j) => part matches Part::Item { name } && name@ == d.item_properties[j].0,
        Place::Role(j, c, r) => part matches Part::Role { item, role } && item@
            == d.item_properties[j].0 && role@ == d.item_properties[j].1.roles[c][r],
    }
}

/// Whether the part names the first place in the declaration at `k` at
/// which something is wrong.
pub open spec fn part_fits(part: Part, raw: Declarations, k: int) -> bool {
    exists|place: Place| #[trigger] place_fits(raw, k, place) && names_place(part, raw, k, place)
}

/// Whether the declaration at `k` is the first that is not well formed.
pub open spec fn first_malformed(raw: Declarations, k: int) -> bool {
    &&& 0 <= k < raw.len()
    &&& !declaration_good(raw, k)
    &&& forall|i: int| 0 <= i < k ==> #[trigger] declaration_good(raw, i)
}

/// Whether all declarations are well formed.
pub open spec fn all_good(raw: Declarations) -> bool {
    forall|k: int| 0 <= k < raw.len() ==> #[trigger] declaration_good(raw, k)
}

/// The names under which the entries stand.
pub open spec fn texts<T>(entries: Seq<(String, T)>) -> Seq<Seq<char>> {
    Seq::new(entries.len(), |i: int| entries[i].0@)
}

/// Finds the first entry that has no name or does not stand after the
/// one before it.
pub fn find_misnamed<T>(entries: &Vec<(String, T)>) -> (r: Option<usize>)
    ensures
        match r {
            Some(i) => i < entries.len() && named_to(texts(entries@), i as int) && misnamed(
                texts(entries@),
                i as int,
            ),
            None => named_to(texts(entries@), entries.len() as int),
        },
{
    let ghost names = texts(entries@);
    let mut i: usize = 0;
    while i < entries.len()
        invariant
            i <= entries.len(),
            names == texts(entries@),
            named_to(names, i as int),
        decreases entries.len() - i,
    {
        if is_misnamed(entries, i) {
            return Some(i);
        }
        i = i + 1;
    }
    None
}

/// Tests whether the entry at `i` has no name or does not stand after
/// the one before it.
fn is_misnamed<T>(entries: &Vec<(String, T)>, i: usize) -> (r: bool)
    requires
        i < entries.len(),
    ensures
        r == misnamed(texts(entries@), i as int),
{
    entries[i].0.as_str().unicode_len() == 0 || is_misplaced(entries, i)
}

/// Tests whether the entry at `i` does not stand after the one before
/// it.
fn is_misplaced<T>(entries: &Vec<(String, T)>, i: usize) -> (r: bool)
    requires
        i < entries.len(),
    ensures
        r == misplaced(texts(entries@), i as int),
{
    i > 0 && !str_lt(entries[i - 1].0.as_str(), entries[i].0.as_str())
}

/// Finds the first role of the item property that is not known.
fn find_unknown_role(p: &ItemProperty) -> (r: Option<(usize, usize)>)
    ensures
        match r {
            Some((c, k)) => first_unknown_role(p@, c as int, k as int),
            None => item_roles_known(p@),
        },
{
    let mut c: usize = 0;
    while c < p.roles.len()
        invariant
            c <= p.roles.len(),
            forall|i: int| 0 <= i < c ==> column_roles_known(#[trigger] p@.roles[i]),
        decreases p.roles.len() - c,
    {
        let roles = &p.roles[c];
        let mut k: usize = 0;
        while k < roles.len()
            invariant
                k <= roles.len(),
                c < p.roles.len(),
                roles == &p.roles[c as int],
                forall|i: int| 0 <= i < c ==> column_roles_known(#[trigger] p@.roles[i]),
                forall|i: int| 0 <= i < k ==> role_known(#[trigger] p@.roles[c as int][i]),
            decreases roles.len() - k,
        {
            if !is_role_known(roles[k].as_str()) {
                assert(!role_known(p@.roles[c as int][k as int]));
                return Some((c, k));
            }
            k = k + 1;
        }
        c = c + 1;
    }
    None
}

/// Finds the first part of the declaration at `k` with which something
/// is wrong.
pub fn malformed_part(objects: &Vec<(String, json::Object)>, k: usize) -> (r: Option<Part>)
    requires
        k < objects.len(),
    ensures
        match r {
            Some(part) => part_fits(part, json::objects_view(objects@), k as int),
            None => declaration_good(json::objects_view(objects@), k as int),
        },
{
    let ghost raw = json::objects_view(objects@);
    let d = &objects[k].1;
    proof {
        assert(names_of(raw) =~= texts(objects@));
        assert(names_of(raw[k as int].1.properties) =~= texts(d.properties@));
        assert(names_of(raw[k as int].1.functions) =~= texts(d.functions@));
        assert(names_of(raw[k as int].1.item_properties) =~= texts(d.item_properties@));
    }
    if is_misnamed(objects, k) {
        assert(place_fits(raw, k as int, Place::Name));
        return Some(Part::Name);
    }
    match find_misnamed(&d.properties) {
        Some(j) => {
            let part = Part::Property { name: d.properties[j].0.clone() };
            assert(place_fits(raw, k as int, Place::Property(j as int)));
            assert(names_place(part, raw, k as int, Place::Property(j as int)));
            return Some(part);
        },
        None => {},
    }
    match find_misnamed(&d.functions) {
        Some(j) => {
            let part = Part::Function { name: d.functions[j].0.clone() };
            assert(place_fits(raw, k as int, Place::Function(j as int)));
            assert(names_place(part, raw, k as int, Place::Function(j as int)));
            return Some(part);
        },
        None => {},
    }
    let plain = match d.object_type {
        ObjectType::Object => true,
        _ => false,
    };
    let mut j: usize = 0;
    while j < d.item_properties.len()
        invariant
            j <= d.item_properties.len(),
            k < objects.len(),
            d == &objects[k as int].1,
            raw == json::objects_view(objects@),
            plain == (d.object_type == ObjectType::Object),
            names_of(raw[k as int].1.item_properties) == texts(d.item_properties@),
            !misnamed(names_of(raw), k as int),
            named_to(names_of(raw[k as int].1.properties), raw[k as int].1.properties.len() as int),
            named_to(names_of(raw[k as int].1.functions), raw[k as int].1.functions.len() as int),
            items_good(raw[k as int].1, j as int),
        decreases d.item_properties.len() - j,
    {
        let misnamed_item = if plain {
            is_misplaced(&d.item_properties, j)
        } else {
            is_misnamed(&d.item_properties, j)
        };
        assert(misnamed_item == item_misnamed(raw[k as int].1, j as int));
        if misnamed_item {
            let part = Part::Item { name: d.item_properties[j].0.clone() };
            assert(place_fits(raw, k as int, Place::Item(j as int)));
            assert(names_place(part, raw, k as int, Place::Item(j as int)));
            return Some(part);
        }
        if !plain {
            match find_unknown_role(&d.item_properties[j].1) {
                Some((c, r)) => {
                    let part = Part::Role {
                        item: d.item_properties[j].0.clone(),
                        role: d.item_properties[j].1.roles[c][r].clone(),
                    };
                    assert(raw[k as int].1.item_properties[j as int].1 == d.item_properties[j as int].1@);
                    assert(place_fits(raw, k as int, Place::Role(j as int, c as int, r as int)));
                    assert(names_place(part, raw, k as int, Place::Role(j as int, c as int, r as int)));
                    return Some(part);
                },
                None => {},
            }
        }
        assert(!item_bad(raw[k as int].1, j as int));
        j = j + 1;
    }
    None
}

/// Finds the first declaration that is not well formed, and the first
/// part of it with which something is wrong.
pub fn find_malformed(objects: &Vec<(String, json::Object)>) -> (r: Option<(usize, Part)>)
    ensures
        match r {
            Some((k, part)) => first_malformed(json::objects_view(objects@), k as int) && part_fits(
                part,
                json::objects_view(objects@),
                k as int,
            ),
            None => all_good(json::objects_view(objects@)),
        },
{
    let ghost raw = json::objects_view(objects@);
    let mut k: usize = 0;
    while k < objects.len()
        invariant
            k <= objects.len(),
            raw == json::objects_view(objects@),
            forall|i: int| 0 <= i < k ==> #[trigger] declaration_good(raw, i),
        decreases objects.len() - k,
    {
        match malformed_part(objects, k) {
            Some(part) => {
                proof {
                    lemma_part_not_good(part, raw, k as int);
                }
                return Some((k, part));
            },
            None => {},
        }
        k = k + 1;
    }
    None
}

/// A declaration with a part with which something is wrong is not well
/// formed.
pub proof fn lemma_part_not_good(part: Part, raw: Declarations, k: int)
    requires
        part_fits(part, raw, k),
    ensures
        !declaration_good(raw, k),
{
    let place = choose|place: Place| #[trigger]
        place_fits(raw, k, place) && names_place(part, raw, k, place);
    let d = raw[k].1;
    match place {
        Place::Name => {},
        Place::Property(j) => {
            assert(misnamed(names_of(d.properties), j));
        },
        Place::Function(j) => {
            assert(misnamed(names_of(d.functions), j));
        },
        Place::Item(j) => {
            assert(item_bad(d, j));
        },
        Place::Role(j, c, r) => {
            let p = d.item_properties[j].1;
            assert(!column_roles_known(p.roles[c]));
            assert(!item_roles_known(p));
            assert(item_bad(d, j));
        },
    }
}

proof fn lemma_rising(names: Seq<Seq<char>>, i: int, j: int)
    requires
        forall|x: int| 0 <= x < names.len() ==> !#[trigger] misplaced(names, x),
        0 <= i < j < names.len(),
    ensures
        text_lt(names[i], names[j]),
    decreases j - i,
{
    assert(!misplaced(names, j));
    if i < j - 1 {
        lemma_rising(names, i, j - 1);
        lemma_text_lt_transitive(names[i], names[j - 1], names[j]);
    }
}

/// Names of which each stands after the one before it stand in order.
pub proof fn lemma_in_order(names: Seq<Seq<char>>)
    requires
        forall|x: int| 0 <= x < names.len() ==> !#[trigger] misplaced(names, x),
    ensures
        increasing(names),
{
    assert forall|i: int, j: int| 0 <= i < j < names.len() implies text_lt(
        #[trigger] names[i],
        #[trigger] names[j],
    ) by {
        lemma_rising(names, i, j);
    }
}

/// Code can be written for an object that is made of one of
/// declarations that are all well formed.
pub proof fn lemma_good_object(o: ObjectView, raw: Declarations, k: int)
    requires
        object_realizes(o, raw, k),
        all_good(raw),
    ensures
        object_ok(o),
    decreases o,
{
    let d = raw[k].1;
    assert(declaration_good(raw, k));
    assert(names_of(raw)[k] == o.name);
    let functions = names_of(o.functions);
    assert forall|x: int| 0 <= x < functions.len() implies !#[trigger] misplaced(functions, x) by {
        assert(!misnamed(functions, x));
    }
    lemma_in_order(functions);
    assert forall|i: int| 0 <= i < o.functions.len() implies (#[trigger] o.functions[i]).0.len()
        > 0 by {
        assert(!misnamed(functions, i));
    }
    let items = names_of(o.item_properties);
    assert forall|x: int| 0 <= x < items.len() implies !#[trigger] misplaced(items, x) by {
        assert(!item_bad(d, x));
    }
    lemma_in_order(items);
    if o.object_type != ObjectType::Object {
        assert forall|i: int| 0 <= i < o.item_properties.len() implies (#[trigger] o.item_properties[i]).0.len()
            > 0 && item_roles_known(o.item_properties[i].1) by {
            assert(!item_bad(d, i));
        }
    }
    let properties = names_of(o.properties);
    assert(properties =~= names_of(d.properties)) by {
        assert forall|i: int| 0 <= i < o.properties.len() implies properties[i] == names_of(
            d.properties,
        )[i] by {
            assert(property_realizes(o.properties[i], raw, d.properties[i]));
        }
    }
    assert forall|x: int| 0 <= x < properties.len() implies !#[trigger] misplaced(properties, x) by {
        assert(!misnamed(properties, x));
    }
    lemma_in_order(properties);
    assert forall|i: int| 0 <= i < o.properties.len() implies (#[trigger] o.properties[i]).0.len()
        > 0 && (match o.properties[i].1.property_type {
        TypeView::Object(t) => object_ok(*t),
        TypeView::Simple(_) => true,
    }) by {
        assert(!misnamed(properties, i));
        assert(property_realizes(o.properties[i], raw, d.properties[i]));
        match o.properties[i].1.property_type {
            TypeView::Object(t) => {
                if keyword(d.properties[i].1.property_type) is None {
                    let b = declared(raw, d.properties[i].1.property_type)->0;
                    lemma_good_object(*t, raw, b);
                }
            },
            TypeView::Simple(_) => {},
        }
    }
}

/// Code can be written for the objects that are made of declarations
/// that are all well formed.
pub proof fn lemma_good_objects(made: Seq<(Seq<char>, ObjectView)>, raw: Declarations)
    requires
        objects_realize(made, raw),
        all_good(raw),
    ensures
        all_ok(made),
{
    assert forall|i: int| 0 <= i < made.len() implies object_ok((#[trigger] made[i]).1) && made[i].0
        == made[i].1.name by {
        lemma_good_object(made[i].1, raw, i);
    }
    let names = names_of(made);
    assert(names =~= names_of(raw));
    assert forall|x: int| 0 <= x < names.len() implies !#[trigger] misplaced(names, x) by {
        assert(declaration_good(raw, x));
    }
    lemma_in_order(names);
}

/// Where a declaration is not well formed, code cannot be written for
/// the objects that are made of the declarations.
pub proof fn lemma_malformed_objects(made: Seq<(Seq<char>, ObjectView)>, raw: Declarations, k: int)
    requires
        objects_realize(made, raw),
        0 <= k < raw.len(),
        !declaration_good(raw, k),
    ensures
        !all_ok(made),
{
    let d = raw[k].1;
    let o = made[k].1;
    assert(object_realizes(o, raw, k));
    let names = names_of(made);
    assert(names =~= names_of(raw));
    if misnamed(names, k) {
        if misplaced(names, k) {
            assert(!text_lt(names[k - 1], names[k]));
        }
    } else if !named_to(names_of(d.properties), d.properties.len() as int) {
        let properties = names_of(o.properties);
        assert(properties =~= names_of(d.properties)) by {
            assert forall|i: int| 0 <= i < o.properties.len() implies properties[i] == names_of(
                d.properties,
            )[i] by {
                assert(property_realizes(o.properties[i], raw, d.properties[i]));
            }
        }
        let j = choose|j: int| 0 <= j < d.properties.len() && misnamed(names_of(d.properties), j);
        if misplaced(properties, j) {
            assert(!text_lt(properties[j - 1], properties[j]));
        } else {
            assert(o.properties[j].0.len() == 0);
        }
        assert(!object_ok(o));
    } else if !named_to(names_of(d.functions), d.functions.len() as int) {
        let functions = names_of(o.functions);
        let j = choose|j: int| 0 <= j < d.functions.len() && misnamed(functions, j);
        if misplaced(functions, j) {
            assert(!text_lt(functions[j - 1], functions[j]));
        } else {
            assert(o.functions[j].0.len() == 0);
        }
        assert(!object_ok(o));
    } else {
        let items = names_of(o.item_properties);
        let j = choose|j: int| 0 <= j < d.item_properties.len() && item_bad(d, j);
        if misplaced(items, j) {
            assert(!text_lt(items[j - 1], items[j]));
        } else {
            assert(!(o.item_properties[j].0.len() > 0 && item_roles_known(o.item_properties[j].1)));
        }
        assert(!object_ok(o));
    }
}

} // verus!
