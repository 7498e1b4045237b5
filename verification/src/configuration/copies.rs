//! Copies of declarations: a copy has the view of what it was made of.
use crate::configuration::{Argument, Function, ItemProperty};
use crate::configuration::json::{functions_view, item_properties_view};
use std::rc::Rc;
use vstd::prelude::*;
use vstd::string::*;

verus! {

/// Another pointer to the same value, by `Rc::clone`: what it points to
/// is what `value` points to.
#[verifier::external_body]
pub(crate) fn share<T>(value: &Rc<T>) -> (r: Rc<T>)
    ensures
        r == *value,
{
    Rc::clone(value)
}

impl Clone for Argument {
    fn clone(&self) -> (r: Argument)
        ensures
            r@ == self@,
    {
        Argument { name: self.name.clone(), argument_type: self.argument_type }
    }
}

impl Clone for Function {
    fn clone(&self) -> (r: Function)
        ensures
            r@ == self@,
    {
        let mut arguments: Vec<Argument> = Vec::new();
        let mut i: usize = 0;
        while i < self.arguments.len()
            invariant
                i <= self.arguments.len(),
                arguments.len() == i,
                forall|k: int| 0 <= k < i ==> arguments[k]@ == self.arguments[k]@,
            decreases self.arguments.len() - i,
        {
            arguments.push(self.arguments[i].clone());
            i = i + 1;
        }
        let r = Function { return_type: self.return_type, mutable: self.mutable, arguments };
        assert(r@.arguments =~= self@.arguments);
        r
    }
}

fn copy_roles(roles: &Vec<String>) -> (r: Vec<String>)
    ensures
        crate::configuration::column_roles_view(r) == crate::configuration::column_roles_view(
            *roles,
        ),
{
    let mut copy: Vec<String> = Vec::new();
    let mut i: usize = 0;
    while i < roles.len()
        invariant
            i <= roles.len(),
            copy.len() == i,
            forall|k: int| 0 <= k < i ==> copy[k]@ == roles[k]@,
        decreases roles.len() - i,
    {
        copy.push(roles[i].clone());
        i = i + 1;
    }
    assert(crate::configuration::column_roles_view(copy) =~= crate::configuration::column_roles_view(
        *roles,
    ));
    copy
}

impl Clone for ItemProperty {
    fn clone(&self) -> (r: ItemProperty)
        ensures
            r@ == self@,
    {
        let mut roles: Vec<Vec<String>> = Vec::new();
        let mut i: usize = 0;
        while i < self.roles.len()
            invariant
                i <= self.roles.len(),
                roles.len() == i,
                forall|k: int|
                    0 <= k < i ==> crate::configuration::column_roles_view(roles[k])
                        == crate::configuration::column_roles_view(self.roles[k]),
            decreases self.roles.len() - i,
        {
            roles.push(copy_roles(&self.roles[i]));
            i = i + 1;
        }
        let r = ItemProperty {
            item_property_type: self.item_property_type,
            optional: self.optional,
            roles,
            rust_by_value: self.rust_by_value,
            write: self.write,
        };
        assert(r@.roles =~= self@.roles);
        r
    }
}

/// Copies functions with their names.
pub fn copy_functions(functions: &Vec<(String, Function)>) -> (r: Vec<(String, Function)>)
    ensures
        functions_view(r@) == functions_view(functions@),
{
    let mut copy: Vec<(String, Function)> = Vec::new();
    let mut i: usize = 0;
    while i < functions.len()
        invariant
            i <= functions.len(),
            copy.len() == i,
            forall|k: int|
                0 <= k < i ==> copy[k].0@ == functions[k].0@ && copy[k].1@ == functions[k].1@,
        decreases functions.len() - i,
    {
        copy.push((functions[i].0.clone(), functions[i].1.clone()));
        i = i + 1;
    }
    assert(functions_view(copy@) =~= functions_view(functions@));
    copy
}

/// Copies item properties with their names.
pub fn copy_item_properties(items: &Vec<(String, ItemProperty)>) -> (r: Vec<(String, ItemProperty)>)
    ensures
        item_properties_view(r@) == item_properties_view(items@),
{
    let mut copy: Vec<(String, ItemProperty)> = Vec::new();
    let mut i: usize = 0;
    while i < items.len()
        invariant
            i <= items.len(),
            copy.len() == i,
            forall|k: int| 0 <= k < i ==> copy[k].0@ == items[k].0@ && copy[k].1@ == items[k].1@,
        decreases items.len() - i,
    {
        copy.push((items[i].0.clone(), items[i].1.clone()));
        i = i + 1;
    }
    assert(item_properties_view(copy@) =~= item_properties_view(items@));
    copy
}

} // verus!
