//! Which item property answers for a column and a role.
//!
//! In each column an item property answers to the display roles that it
//! lists for that column, and to a role of its own, counted from the
//! user role by its position among the item properties. Where several
//! answer, the first does.
use crate::configuration::{ItemPropertyView, ObjectView};
use crate::cpp::roles_at;
use vstd::prelude::*;

verus! {

/// A role of the item model.
pub enum Role {
    /// A display role, by its name in the configuration.
    Display(Seq<char>),
    /// The user role with an offset.
    User(nat),
}

/// The roles to which the item property at `position` answers in the
/// column: the display roles that it lists there, then its own role.
pub open spec fn claims(p: ItemPropertyView, column: int, position: nat) -> Seq<Role> {
    Seq::new(roles_at(p, column).len(), |i: int| Role::Display(roles_at(p, column)[i])).push(
        Role::User(position),
    )
}

/// The first item property from `from` on that answers to `role` in the
/// column.
pub open spec fn first_claiming(o: ObjectView, column: int, role: Role, from: int) -> Option<int>
    decreases o.item_properties.len() - from,
{
    if from < 0 || from >= o.item_properties.len() {
        None
    } else if claims(o.item_properties[from].1, column, from as nat).contains(role) {
        Some(from)
    } else {
        first_claiming(o, column, role, from + 1)
    }
}

/// The item property whose value the model returns for a column and a
/// role, if there is one.
pub open spec fn dispatch(o: ObjectView, column: int, role: Role) -> Option<int> {
    first_claiming(o, column, role, 0)
}

proof fn lemma_user_role_from(o: ObjectView, column: int, k: int, from: int)
    requires
        0 <= from <= k < o.item_properties.len(),
    ensures
        first_claiming(o, column, Role::User(k as nat), from) == Some(k),
    decreases k - from,
{
    let role = Role::User(k as nat);
    let c = claims(o.item_properties[from].1, column, from as nat);
    if from == k {
        assert(c[c.len() - 1] == role);
    } else {
        assert forall|i: int| 0 <= i < c.len() implies c[i] != role by {}
        lemma_user_role_from(o, column, k, from + 1);
    }
}

/// In every column each item property answers to its own role, and no
/// other item property does.
pub proof fn lemma_user_role_dispatch(o: ObjectView, column: int, k: int)
    requires
        0 <= k < o.item_properties.len(),
    ensures
        dispatch(o, column, Role::User(k as nat)) == Some(k),
{
    lemma_user_role_from(o, column, k, 0);
}

proof fn lemma_display_role_from(o: ObjectView, column: int, role: Seq<char>, from: int)
    requires
        0 <= from,
    ensures
        first_claiming(o, column, Role::Display(role), from) matches Some(k) ==> from <= k
            < o.item_properties.len() && roles_at(o.item_properties[k].1, column).contains(role),
    decreases o.item_properties.len() - from,
{
    if from < o.item_properties.len() {
        let c = claims(o.item_properties[from].1, column, from as nat);
        if c.contains(Role::Display(role)) {
            let i = choose|i: int| 0 <= i < c.len() && c[i] == Role::Display(role);
            assert(roles_at(o.item_properties[from].1, column)[i] == role);
        } else {
            lemma_display_role_from(o, column, role, from + 1);
        }
    }
}

/// A display role is answered in a column only by an item property that
/// lists the role for that column.
pub proof fn lemma_display_role_dispatch(o: ObjectView, column: int, role: Seq<char>)
    ensures
        dispatch(o, column, Role::Display(role)) matches Some(k) ==> 0 <= k
            < o.item_properties.len() && roles_at(o.item_properties[k].1, column).contains(role),
{
    lemma_display_role_from(o, column, role, 0);
}

} // verus!
