//! Lowering of typeset frames into a portable vector-graphics item tree.
//!
//! Lengths are fixed-point numbers with six decimal places ([`scalar::Scalar`]),
//! text is rendered with the decimal formatter of [`decimal`], and every
//! lowering function states its result as a function of its input.

pub mod cli;
pub mod color;
pub mod decimal;
pub mod doc;
pub mod font;
pub mod geom;
pub mod glyph;
pub mod inflate;
pub mod ir;
pub mod lowering;
pub mod path2d;
pub mod scalar;
pub mod session;
mod share;
pub mod span;
pub mod utils;
pub mod viewbox;
