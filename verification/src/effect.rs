//! What the library asks the host to do.

use vstd::prelude::*;

verus! {

/// The line a player writes to the host's console when it is made.
pub const GREETING: &'static str = "Hello, world!";

/// The name of the signal that announces a change of the linear speed.
pub const SPEED_INCREASED: &'static str = "speed_increased";

/// One request to the host. Every hook of a player hands back exactly one.
#[derive(Clone, Copy, Debug, PartialEq, Eq)]
pub enum Effect {
    /// Write this line to the console.
    Print(&'static str),
    /// Turn the player's node by this angle, in radians, on top of the
    /// rotation it has: a binary32 bit pattern.
    Rotate(u32),
    /// Publish the signal of this name, without arguments, to whoever listens.
    Emit(&'static str),
}

impl Effect {
    /// This effect is the console line `text`.
    pub open spec fn prints(self, text: Seq<char>) -> bool {
        self matches Effect::Print(line) && line@ == text
    }

    /// This effect is the signal `name`.
    pub open spec fn emits(self, name: Seq<char>) -> bool {
        self matches Effect::Emit(signal) && signal@ == name
    }
}

} // verus!
