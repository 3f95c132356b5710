//! Small helpers of the exporters.

use vstd::prelude::*;

verus! {

/// Values that have a CSS text.
pub trait ToCssExt {
    /// The CSS text of the value.
    spec fn css(&self) -> Seq<char>;

    /// Renders the value as CSS text.
    fn to_css(self) -> (r: String)
        ensures
            r@ == self.css(),
    ;
}

/// An event of a performance trace.
#[derive(Clone, Copy, Debug, PartialEq, Eq, Structural)]
pub struct PerfEvent {}

} // verus!
