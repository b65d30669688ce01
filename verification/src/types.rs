//! Musical types shared by the widgets.

use vstd::prelude::*;

verus! {

/// A musical time signature, such as 4/4.
#[derive(Clone, Copy, Debug, PartialEq, Eq, Structural)]
pub struct TimeSig {
    /// Beats per bar.
    pub top: u16,
    /// The note value of one beat.
    pub bottom: u16,
}

} // verus!
