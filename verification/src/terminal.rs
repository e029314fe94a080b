//! The terminal's extent, as the session engine sees it.

use vstd::prelude::*;

verus! {

/// The drawable text area in character cells. The height excludes the two
/// lines reserved for the status bar and the message bar; it is queried
/// at startup and never mutated by the engine.
#[derive(Clone, Copy, PartialEq, Eq, Structural, Debug)]
pub struct Size {
    pub width: u16,
    pub height: u16,
}

} // verus!
