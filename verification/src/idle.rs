//! The animation of an entity that performs no action.

use vstd::prelude::*;

verus! {

/// The pose of an object at rest. It is chosen when no action runs, and it
/// reads nothing of a past action's state.
#[derive(Clone, Copy, Debug, PartialEq, Eq, Structural)]
pub struct IdleAnimation;

} // verus!
