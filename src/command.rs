use vstd::prelude::*;

use crate::direction::Direction;

verus! {

/// What the player asked for during a tick.
#[derive(Debug, Clone, Copy, PartialEq, Eq, Structural)]
pub enum Command {
    Quit,
    Turn(Direction),
}

} // verus!
