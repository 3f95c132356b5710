//! Colors and their CSS text.

use vstd::prelude::*;
use vstd::string::*;
use crate::decimal::{decimal, push_decimal};
use crate::utils::ToCssExt;

verus! {

/// A color by its four native components.
#[derive(Clone, Copy, Debug, PartialEq, Eq, Structural)]
pub struct Color {
    pub r: u8,
    pub g: u8,
    pub b: u8,
    pub a: u8,
}

/// The CSS functional notation of a color: the components in decimal, as
/// they are, without renormalization.
pub open spec fn css_text(color: Color) -> Seq<char> {
    "rgba("@ + decimal(color.r as nat) + ", "@ + decimal(color.g as nat) + ", "@ + decimal(
        color.b as nat,
    ) + ", "@ + decimal(color.a as nat) + ")"@
}

impl ToCssExt for Color {
    open spec fn css(&self) -> Seq<char> {
        css_text(*self)
    }

    fn to_css(self) -> (r: String) {
        let mut out = String::new();
        out.append("rgba(");
        push_decimal(&mut out, self.r as u64);
        out.append(", ");
        push_decimal(&mut out, self.g as u64);
        out.append(", ");
        push_decimal(&mut out, self.b as u64);
        out.append(", ");
        push_decimal(&mut out, self.a as u64);
        out.append(")");
        assert(out@ =~= css_text(self));
        out
    }
}

} // verus!
