//! Whom an alert names: the author of the triggering event, or a member drawn
//! at random from the roster.

use rand::seq::SliceRandom;
use vstd::prelude::*;

verus! {

/// How the identity for an alert is selected.
#[derive(Clone, Copy, Debug, PartialEq, Eq, Structural)]
pub enum TargetPolicy {
    /// Always the author of the triggering event.
    Author,
    /// A member of the roster, drawn at random.
    Roster,
}

/// The selection rule, given what the draw from the roster produced.
pub open spec fn resolved(policy: TargetPolicy, author: u64, drawn: Option<u64>) -> Option<u64> {
    match policy {
        TargetPolicy::Author => Some(author),
        TargetPolicy::Roster => drawn,
    }
}

/// Draws one member with `rand`'s `SliceRandom::choose` on the thread-local
/// generator of `rand::thread_rng`. Believed, not proved: an empty roster
/// yields nothing, and any other roster yields one of its own members. Which
/// member is left open. (The generator itself aborts only if the operating
/// system cannot seed it.)
#[verifier::external_body]
fn draw(roster: &Vec<u64>) -> (drawn: Option<u64>)
    ensures
        drawn.is_some() == (roster@.len() > 0),
        drawn matches Some(id) ==> roster@.contains(id),
{
    roster.choose(&mut rand::thread_rng()).copied()
}

/// Applies the selection rule to the outcome of a draw.
pub fn resolve_target(policy: TargetPolicy, author: u64, drawn: Option<u64>) -> (target: Option<
    u64,
>)
    ensures
        target == resolved(policy, author, drawn),
{
    match policy {
        TargetPolicy::Author => Some(author),
        TargetPolicy::Roster => drawn,
    }
}

/// Selects the identity for an alert. Under `Author` it is the author. Under
/// `Roster` it is some member of the roster, and there is none exactly when
/// the roster is empty.
pub fn select_target(policy: TargetPolicy, author: u64, roster: &Vec<u64>) -> (target: Option<u64>)
    ensures
        policy == TargetPolicy::Author ==> target == Some(author),
        policy == TargetPolicy::Roster ==> target.is_some() == (roster@.len() > 0),
        policy == TargetPolicy::Roster ==> (target matches Some(id) ==> roster@.contains(id)),
{
    match policy {
        TargetPolicy::Author => resolve_target(policy, author, None),
        TargetPolicy::Roster => resolve_target(policy, author, draw(roster)),
    }
}

} // verus!
