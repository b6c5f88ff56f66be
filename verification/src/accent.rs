//! The accent colors a panel can pick.

use vstd::prelude::*;

verus! {

/// A terminal color. Each panel exposes one as its accent, used both for
/// its tab segment's background and for the content border while it is
/// selected. `Reset` stands for the terminal's default.
#[derive(Clone, Copy, Debug, PartialEq, Eq, Structural)]
pub enum Accent {
    Reset,
    Red,
    Blue,
}

} // verus!
