use std::collections::HashMap;
use vstd::prelude::*;

verus! {

broadcast use vstd::std_specs::hash::group_hash_axioms;

/// What to do with a role that is toggled on a member.
#[derive(Clone, Copy, Debug, PartialEq, Eq, Structural)]
pub enum RoleChange {
    Add,
    Remove,
}

/// Whether `role` is among `roles`.
pub fn holds_role(roles: &Vec<u64>, role: u64) -> (r: bool)
    ensures
        r == roles@.contains(role),
{
    let mut i: usize = 0;
    while i < roles.len()
        invariant
            0 <= i <= roles.len(),
            forall|j: int| 0 <= j < i ==> roles[j] != role,
        decreases roles.len() - i,
    {
        if roles[i] == role {
            return true;
        }
        i = i + 1;
    }
    false
}

/// Toggling `role` removes it from a member who holds it and adds it to one
/// who does not.
pub fn toggle_role(roles: &Vec<u64>, role: u64) -> (r: RoleChange)
    ensures
        r == (if roles@.contains(role) {
            RoleChange::Remove
        } else {
            RoleChange::Add
        }),
{
    if holds_role(roles, role) {
        RoleChange::Remove
    } else {
        RoleChange::Add
    }
}

/// The highest position, in the guild's role hierarchy, of the roles that a
/// member holds; `positions` maps each role of the guild to its position.
pub fn highest_role_pos(roles: &Vec<u64>, positions: &HashMap<u64, u16>) -> (r: u16)
    requires
        roles.len() > 0,
        forall|i: int| 0 <= i < roles.len() ==> positions@.contains_key(#[trigger] roles[i]),
    ensures
        exists|i: int| 0 <= i < roles.len() && r == positions@[#[trigger] roles[i]],
        forall|i: int| 0 <= i < roles.len() ==> positions@[#[trigger] roles[i]] <= r,
{
    let mut best: u16 = *positions.get(&roles[0]).unwrap();
    let mut i: usize = 1;
    while i < roles.len()
        invariant
            1 <= i <= roles.len(),
            forall|i: int| 0 <= i < roles.len() ==> positions@.contains_key(#[trigger] roles[i]),
            exists|j: int| 0 <= j < i && best == positions@[#[trigger] roles[j]],
            forall|j: int| 0 <= j < i ==> positions@[#[trigger] roles[j]] <= best,
        decreases roles.len() - i,
    {
        let p = *positions.get(&roles[i]).unwrap();
        if p > best {
            best = p;
        }
        i = i + 1;
    }
    best
}

} // verus!
