//! What holds of a configuration for which code is written: what stands
//! under names stands in the order of the names, each name once, no name
//! is empty, and the items of lists and trees are shown under known roles.
use crate::configuration::{
    Config, ConfigView, ItemProperty, ItemPropertyView, made_view, Object, ObjectType, ObjectView,
    Type, TypeView,
};
use crate::names::{increasing, lemma_text_lt_transitive, str_lt, text_lt};
use std::rc::Rc;
use vstd::prelude::*;
use vstd::string::*;

verus! {

/// Whether `role` is one of the display roles that an item property can
/// be shown under.
pub open spec fn role_known(role: Seq<char>) -> bool {
    role == "display"@ || role == "decoration"@ || role == "edit"@ || role == "toolTip"@ || role
        == "statustip"@ || role == "whatsthis"@
}

/// Whether every role of the column is a known one.
pub open spec fn column_roles_known(roles: Seq<Seq<char>>) -> bool {
    forall|k: int| 0 <= k < roles.len() ==> role_known(#[trigger] roles[k])
}

/// Whether every role that the item property lists is a known one.
pub open spec fn item_roles_known(p: ItemPropertyView) -> bool {
    forall|c: int| 0 <= c < p.roles.len() ==> column_roles_known(#[trigger] p.roles[c])
}

/// Whether the first `n` of the item properties list known roles only.
pub open spec fn roles_ok(items: Seq<(Seq<char>, ItemPropertyView)>, n: nat) -> bool {
    forall|i: int| 0 <= i < n ==> item_roles_known((#[trigger] items[i]).1)
}

/// Whether the first `n` of the item properties have a name and list
/// known roles only.
pub open spec fn items_ok(items: Seq<(Seq<char>, ItemPropertyView)>, n: nat) -> bool {
    forall|i: int|
        0 <= i < n ==> (#[trigger] items[i]).0.len() > 0 && item_roles_known(items[i].1)
}

/// The names under which the entries stand.
pub open spec fn names_of<T>(entries: Seq<(Seq<char>, T)>) -> Seq<Seq<char>> {
    Seq::new(entries.len(), |i: int| entries[i].0)
}

/// Whether the entries stand in the order of their names, each name
/// once.
pub open spec fn in_order<T>(entries: Seq<(Seq<char>, T)>) -> bool {
    increasing(names_of(entries))
}

/// Whether code can be written for the object: it has a name, and so have
/// its properties and functions, each kind in the order of the names; the
/// objects among its properties are as good; and where it is a list or a
/// tree, its item properties have names and list known roles only.
pub open spec fn object_ok(o: ObjectView) -> bool
    decreases o,
{
    &&& o.name.len() > 0
    &&& in_order(o.functions)
    &&& in_order(o.item_properties)
    &&& in_order(o.properties)
    &&& forall|i: int| 0 <= i < o.functions.len() ==> (#[trigger] o.functions[i]).0.len() > 0
    &&& o.object_type != ObjectType::Object ==> items_ok(o.item_properties, o.item_properties.len())
    &&& forall|i: int|
        0 <= i < o.properties.len() ==> (#[trigger] o.properties[i]).0.len() > 0 && (
        match o.properties[i].1.property_type {
            TypeView::Object(t) => object_ok(*t),
            TypeView::Simple(_) => true,
        })
}

/// Whether code can be written for the first `n` objects, and each
/// stands under its own name.
pub open spec fn objects_ok(objects: Seq<(Seq<char>, ObjectView)>, n: nat) -> bool {
    forall|i: int|
        0 <= i < n ==> object_ok((#[trigger] objects[i]).1) && objects[i].0 == objects[i].1.name
}

/// Whether code can be written for the objects, which stand in the
/// order of their names.
pub open spec fn all_ok(objects: Seq<(Seq<char>, ObjectView)>) -> bool {
    objects_ok(objects, objects.len()) && in_order(objects)
}

/// Whether code can be written for the configuration.
pub open spec fn config_ok(conf: ConfigView) -> bool {
    all_ok(conf.objects)
}

/// Tests whether the entries stand in the order of their names, each
/// name once.
pub fn names_in_order<T>(entries: &Vec<(String, T)>) -> (r: bool)
    ensures
        r == increasing(Seq::new(entries@.len(), |i: int| entries@[i].0@)),
{
    let ghost names = Seq::new(entries@.len(), |i: int| entries@[i].0@);
    let mut i: usize = 1;
    while i < entries.len()
        invariant
            1 <= i,
            names == Seq::new(entries@.len(), |k: int| entries@[k].0@),
            forall|a: int, b: int| 0 <= a < b < i && b < names.len() ==> text_lt(#[trigger] names[a], #[trigger] names[b]),
        decreases entries.len() - i,
    {
        if !str_lt(entries[i - 1].0.as_str(), entries[i].0.as_str()) {
            assert(!text_lt(names[i - 1], names[i as int]));
            return false;
        }
        assert forall|a: int, b: int| 0 <= a < b < i + 1 && b < names.len() implies text_lt(
            #[trigger] names[a],
            #[trigger] names[b],
        ) by {
            if b == i && a < i - 1 {
                lemma_text_lt_transitive(names[a], names[i - 1], names[i as int]);
            }
        }
        i = i + 1;
    }
    true
}

/// Tests whether `role` is one of the display roles that an item
/// property can be shown under.
pub fn is_role_known(role: &str) -> (r: bool)
    ensures
        r == role_known(role@),
{
    role.eq("display") || role.eq("decoration") || role.eq("edit") || role.eq("toolTip")
        || role.eq("statustip") || role.eq("whatsthis")
}

/// Whether every role that the item property lists is a known one.
fn is_item_roles_known(p: &ItemProperty) -> (r: bool)
    ensures
        r == item_roles_known(p@),
{
    let mut c: usize = 0;
    while c < p.roles.len()
        invariant
            c <= p.roles.len(),
            forall|k: int| 0 <= k < c ==> column_roles_known(#[trigger] p@.roles[k]),
        decreases p.roles.len() - c,
    {
        let roles = &p.roles[c];
        let mut k: usize = 0;
        while k < roles.len()
            invariant
                k <= roles.len(),
                c < p.roles.len(),
                roles == &p.roles[c as int],
                forall|j: int| 0 <= j < k ==> role_known(#[trigger] p@.roles[c as int][j]),
            decreases roles.len() - k,
        {
            if !is_role_known(roles[k].as_str()) {
                assert(!role_known(p@.roles[c as int][k as int]));
                assert(!column_roles_known(p@.roles[c as int]));
                return false;
            }
            k = k + 1;
        }
        c = c + 1;
    }
    true
}

/// Tests whether code can be written for the object.
pub fn is_object_ok(o: &Object) -> (r: bool)
    ensures
        r == object_ok(o@),
    decreases o,
{
    if o.name.as_str().unicode_len() == 0 {
        return false;
    }
    proof {
        assert(names_of(o@.functions) =~= Seq::new(o.functions@.len(), |i: int| o.functions@[i].0@));
        assert(names_of(o@.item_properties) =~= Seq::new(
            o.item_properties@.len(),
            |i: int| o.item_properties@[i].0@,
        ));
        assert(names_of(o@.properties) =~= Seq::new(
            o.properties@.len(),
            |i: int| o.properties@[i].0@,
        ));
    }
    if !names_in_order(&o.functions) || !names_in_order(&o.item_properties) || !names_in_order(
        &o.properties,
    ) {
        return false;
    }
    let mut i: usize = 0;
    while i < o.functions.len()
        invariant
            i <= o.functions.len(),
            forall|k: int| 0 <= k < i ==> (#[trigger] o@.functions[k]).0.len() > 0,
        decreases o.functions.len() - i,
    {
        if o.functions[i].0.as_str().unicode_len() == 0 {
            assert(o@.functions[i as int].0.len() == 0);
            return false;
        }
        i = i + 1;
    }
    match o.object_type {
        ObjectType::Object => {},
        _ => {
            let mut i: usize = 0;
            while i < o.item_properties.len()
                invariant
                    i <= o.item_properties.len(),
                    o.object_type != ObjectType::Object,
                    items_ok(o@.item_properties, i as nat),
                decreases o.item_properties.len() - i,
            {
                if o.item_properties[i].0.as_str().unicode_len() == 0 || !is_item_roles_known(
                    &o.item_properties[i].1,
                ) {
                    assert(!(o@.item_properties[i as int].0.len() > 0 && item_roles_known(
                        o@.item_properties[i as int].1,
                    )));
                    return false;
                }
                i = i + 1;
            }
        },
    }
    let mut i: usize = 0;
    while i < o.properties.len()
        invariant
            i <= o.properties.len(),
            forall|k: int|
                0 <= k < i ==> (#[trigger] o@.properties[k]).0.len() > 0 && (
                match o@.properties[k].1.property_type {
                    TypeView::Object(t) => object_ok(*t),
                    TypeView::Simple(_) => true,
                }),
        decreases o.properties.len() - i,
    {
        if o.properties[i].0.as_str().unicode_len() == 0 {
            assert(o@.properties[i as int].0.len() == 0);
            return false;
        }
        match &o.properties[i].1.property_type {
            Type::Object(t) => {
                if !is_object_ok(t) {
                    assert(o@.properties[i as int].1.property_type == TypeView::Object(
                        Box::new(t@),
                    ));
                    return false;
                }
            },
            Type::Simple(_) => {},
        }
        i = i + 1;
    }
    true
}

/// Tests whether code can be written for the objects, which stand in
/// the order of their names.
pub fn are_all_ok(objects: &Vec<(String, Rc<Object>)>) -> (r: bool)
    ensures
        r == all_ok(made_view(objects@)),
{
    let ghost made = made_view(objects@);
    assert(names_of(made) =~= Seq::new(objects@.len(), |i: int| objects@[i].0@));
    if !names_in_order(objects) {
        return false;
    }
    let mut i: usize = 0;
    while i < objects.len()
        invariant
            i <= objects.len(),
            made == made_view(objects@),
            objects_ok(made, i as nat),
        decreases objects.len() - i,
    {
        if !is_object_ok(&objects[i].1) || !objects[i].0.as_str().eq(objects[i].1.name.as_str()) {
            assert(!(object_ok(made[i as int].1) && made[i as int].0 == made[i as int].1.name));
            return false;
        }
        i = i + 1;
    }
    true
}

/// Tests whether code can be written for the configuration.
pub fn is_config_ok(conf: &Config) -> (r: bool)
    ensures
        r == config_ok(conf@),
{
    assert(conf@.objects =~= made_view(conf.objects@));
    are_all_ok(&conf.objects)
}

} // verus!
