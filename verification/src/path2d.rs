//! Path commands and their text in the SVG path mini-language.

use vstd::prelude::*;
use vstd::string::*;
use crate::scalar::{saturate, scalar_text, Scalar};

verus! {

/// One command of a path.
#[derive(Clone, Copy, Debug, PartialEq, Eq, Structural)]
pub enum PathCommand {
    /// Start a new subpath at a point.
    MoveTo(Scalar, Scalar),
    /// Draw a straight line to a point.
    LineTo(Scalar, Scalar),
    /// Draw a quadratic curve by one control point to an end point.
    QuadTo(Scalar, Scalar, Scalar, Scalar),
    /// Draw a cubic curve by two control points to an end point.
    CurveTo(Scalar, Scalar, Scalar, Scalar, Scalar, Scalar),
    /// Close the current subpath.
    Close,
}

/// A coordinate followed by the space that ends it.
pub open spec fn coordinate_text(v: Scalar) -> Seq<char> {
    scalar_text(v.micros as int) + " "@
}

/// The text of one command: its letter, a space, and its coordinates, each
/// followed by a space.
pub open spec fn command_text(command: PathCommand) -> Seq<char> {
    match command {
        PathCommand::MoveTo(x, y) => "M "@ + coordinate_text(x) + coordinate_text(y),
        PathCommand::LineTo(x, y) => "L "@ + coordinate_text(x) + coordinate_text(y),
        PathCommand::QuadTo(x1, y1, x, y) => "Q "@ + coordinate_text(x1) + coordinate_text(y1)
            + coordinate_text(x) + coordinate_text(y),
        PathCommand::CurveTo(x1, y1, x2, y2, x, y) => "C "@ + coordinate_text(x1)
            + coordinate_text(y1) + coordinate_text(x2) + coordinate_text(y2) + coordinate_text(x)
            + coordinate_text(y),
        PathCommand::Close => "Z "@,
    }
}

/// The text of a sequence of commands: the texts of the commands in order.
pub open spec fn path_text(commands: Seq<PathCommand>) -> Seq<char>
    decreases commands.len(),
{
    if commands.len() == 0 {
        Seq::<char>::empty()
    } else {
        path_text(commands.drop_last()) + command_text(commands.last())
    }
}

/// The commands of a rectangle with a corner at (`x`, `y`), `w` wide and `h`
/// high: a move to that corner, a line to each of the other corners, and a
/// close.
pub open spec fn rect_commands(x: Scalar, y: Scalar, w: Scalar, h: Scalar) -> Seq<PathCommand> {
    let x2 = Scalar { micros: saturate(x.micros + w.micros) as i64 };
    let y2 = Scalar { micros: saturate(y.micros + h.micros) as i64 };
    seq![
        PathCommand::MoveTo(x, y),
        PathCommand::LineTo(x, y2),
        PathCommand::LineTo(x2, y2),
        PathCommand::LineTo(x2, y),
        PathCommand::Close,
    ]
}

/// The text of a path grows by the text of a command that is added at its end.
pub proof fn lemma_path_text_push(commands: Seq<PathCommand>, command: PathCommand)
    ensures
        path_text(commands.push(command)) == path_text(commands) + command_text(command),
{
    assert(commands.push(command).drop_last() =~= commands);
}

/// Accumulates the text of a path, command by command.
#[derive(Clone, Debug, PartialEq, Eq)]
pub struct SvgPath2DBuilder(pub String);

impl SvgPath2DBuilder {
    /// A builder that holds the empty path.
    pub fn new() -> (r: SvgPath2DBuilder)
        ensures
            r.0@ == Seq::<char>::empty(),
    {
        SvgPath2DBuilder(String::new())
    }

    fn coordinate(&mut self, v: Scalar)
        ensures
            final(self).0@ == old(self).0@ + coordinate_text(v),
    {
        v.write_to(&mut self.0);
        self.0.append(" ");
        assert(self.0@ =~= old(self).0@ + coordinate_text(v));
    }

    /// Starts a new subpath at (`x`, `y`).
    pub fn move_to(&mut self, x: Scalar, y: Scalar)
        ensures
            final(self).0@ == old(self).0@ + command_text(PathCommand::MoveTo(x, y)),
    {
        self.0.append("M ");
        self.coordinate(x);
        self.coordinate(y);
        assert(self.0@ =~= old(self).0@ + command_text(PathCommand::MoveTo(x, y)));
    }

    /// Draws a straight line to (`x`, `y`).
    pub fn line_to(&mut self, x: Scalar, y: Scalar)
        ensures
            final(self).0@ == old(self).0@ + command_text(PathCommand::LineTo(x, y)),
    {
        self.0.append("L ");
        self.coordinate(x);
        self.coordinate(y);
        assert(self.0@ =~= old(self).0@ + command_text(PathCommand::LineTo(x, y)));
    }

    /// Draws a quadratic curve by the control point (`x1`, `y1`) to (`x`, `y`).
    pub fn quad_to(&mut self, x1: Scalar, y1: Scalar, x: Scalar, y: Scalar)
        ensures
            final(self).0@ == old(self).0@ + command_text(PathCommand::QuadTo(x1, y1, x, y)),
    {
        self.0.append("Q ");
        self.coordinate(x1);
        self.coordinate(y1);
        self.coordinate(x);
        self.coordinate(y);
        assert(self.0@ =~= old(self).0@ + command_text(PathCommand::QuadTo(x1, y1, x, y)));
    }

    /// Draws a cubic curve by the control points (`x1`, `y1`) and (`x2`, `y2`)
    /// to (`x`, `y`).
    pub fn curve_to(&mut self, x1: Scalar, y1: Scalar, x2: Scalar, y2: Scalar, x: Scalar, y: Scalar)
        ensures
            final(self).0@ == old(self).0@ + command_text(
                PathCommand::CurveTo(x1, y1, x2, y2, x, y),
            ),
    {
        self.0.append("C ");
        self.coordinate(x1);
        self.coordinate(y1);
        self.coordinate(x2);
        self.coordinate(y2);
        self.coordinate(x);
        self.coordinate(y);
        assert(self.0@ =~= old(self).0@ + command_text(
            PathCommand::CurveTo(x1, y1, x2, y2, x, y),
        ));
    }

    /// Closes the current subpath.
    pub fn close(&mut self)
        ensures
            final(self).0@ == old(self).0@ + command_text(PathCommand::Close),
    {
        self.0.append("Z ");
    }

    /// Draws a closed rectangle with a corner at (`x`, `y`), `w` wide and `h` high.
    pub fn rect(&mut self, x: Scalar, y: Scalar, w: Scalar, h: Scalar)
        ensures
            final(self).0@ == old(self).0@ + path_text(rect_commands(x, y, w, h)),
    {
        let x2 = x.plus(w);
        let y2 = y.plus(h);
        self.move_to(x, y);
        self.line_to(x, y2);
        self.line_to(x2, y2);
        self.line_to(x2, y);
        self.close();
        proof {
            let c = rect_commands(x, y, w, h);
            lemma_path_text_push(c.take(4), c[4]);
            lemma_path_text_push(c.take(3), c[3]);
            lemma_path_text_push(c.take(2), c[2]);
            lemma_path_text_push(c.take(1), c[1]);
            lemma_path_text_push(c.take(0), c[0]);
            assert(c.take(4).push(c[4]) =~= c);
            assert(c.take(3).push(c[3]) =~= c.take(4));
            assert(c.take(2).push(c[2]) =~= c.take(3));
            assert(c.take(1).push(c[1]) =~= c.take(2));
            assert(c.take(0).push(c[0]) =~= c.take(1));
            assert(path_text(c.take(0)) =~= Seq::<char>::empty());
            assert(self.0@ =~= old(self).0@ + path_text(c));
        }
    }
}

} // verus!
