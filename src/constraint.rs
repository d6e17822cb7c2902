//! Data structure to describe a constraint between two rigid bodies.
use vstd::prelude::*;

use crate::world_object::RigidBodyHandle;

verus! {

/// A constraint between two rigid bodies, as a solver consumes it.
///
/// `C` is the contact geometry that collision detection produced; `B` and `F`
/// are the handles of standing ball-in-socket and fixed joints. A contact
/// relates two distinct bodies.
#[derive(Debug)]
pub enum Constraint<C, B, F> {
    /// A contact.
    RBRB(RigidBodyHandle, RigidBodyHandle, C),
    /// A ball-in-socket joint.
    BallInSocket(B),
    /// A fixed joint.
    Fixed(F),
}

impl<C: Clone, B: Clone, F: Clone> Clone for Constraint<C, B, F> {
    /// Duplicates the handles this constraint holds, not what they refer to.
    fn clone(&self) -> (r: Self)
        ensures
            match (*self, r) {
                (Constraint::RBRB(a, b, c), Constraint::RBRB(a2, b2, c2)) => a2 == a && b2 == b
                    && cloned(c, c2),
                (Constraint::BallInSocket(j), Constraint::BallInSocket(j2)) => cloned(j, j2),
                (Constraint::Fixed(j), Constraint::Fixed(j2)) => cloned(j, j2),
                _ => false,
            },
    {
        match self {
            Constraint::RBRB(a, b, c) => Constraint::RBRB(*a, *b, c.clone()),
            Constraint::BallInSocket(bis) => Constraint::BallInSocket(bis.clone()),
            Constraint::Fixed(f) => Constraint::Fixed(f.clone()),
        }
    }
}

} // verus!
