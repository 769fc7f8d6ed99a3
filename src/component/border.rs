//! The border: a frame of box-drawing characters round a rectangle.
use vstd::prelude::*;
use vstd::utf8::encode_utf8;

use crate::component::Boundary;
use crate::terminus::ansi_escape_sequences::{CSI, SGR};
use crate::terminus::screen::{Error, Screen, SharedScreen};
use crate::terminus::sink::Sink;
use crate::terminus::style::{renditions, reset_text, Style, StyleProperty};
use crate::terminus::text::push_char;

verus! {

pub const TOP_LEFT_CORNER: char = '╭';
pub const TOP_RIGHT_CORNER: char = '╮';
pub const BOTTOM_RIGHT_CORNER: char = '╯';
pub const BOTTOM_LEFT_CORNER: char = '╰';
pub const LINE: char = '─';
pub const COLUMN: char = '│';

/// `c`, `n` times.
pub open spec fn repeated(c: char, n: nat) -> Seq<char>
    decreases n,
{
    if n == 0 {
        seq![]
    } else {
        repeated(c, (n - 1) as nat).push(c)
    }
}

/// `b`, `n` times over.
pub open spec fn repeated_bytes(b: Seq<u8>, n: nat) -> Seq<u8>
    decreases n,
{
    if n == 0 {
        seq![]
    } else {
        repeated_bytes(b, (n - 1) as nat) + b
    }
}

/// `n - 2`, or 0 when `n` is below 2.
pub open spec fn inner(n: u16) -> nat {
    if n >= 2 {
        (n - 2) as nat
    } else {
        0
    }
}

/// The eight characters of a frame.
pub struct Frame {
    pub top_left: char,
    pub top_right: char,
    pub bottom_right: char,
    pub bottom_left: char,
    pub top: char,
    pub right: char,
    pub bottom: char,
    pub left: char,
}

/// One cell of the right column: down one row and the character; first
/// back one column when the frame starts at column 0, where writing the
/// corner left the cursor one cell further.
pub open spec fn right_step(x: u16, c: char) -> Seq<u8> {
    (if x == 0 {
        CSI::CursorBack(1).bytes()
    } else {
        seq![]
    }) + CSI::CursorDown(1).bytes() + encode_utf8(seq![c])
}

/// One cell of the left column: down one row, the character, back over it.
pub open spec fn left_step(c: char) -> Seq<u8> {
    CSI::CursorDown(1).bytes() + encode_utf8(seq![c]) + CSI::CursorBack(1).bytes()
}

/// The top edge: a move to the corner, the corner, the line, the other
/// corner.
pub open spec fn top_edge(x: u16, y: u16, width: u16, f: Frame) -> Seq<u8> {
    CSI::CursorPosition(y, x).bytes() + encode_utf8(seq![f.top_left]) + encode_utf8(
        repeated(f.top, inner(width)),
    ) + encode_utf8(seq![f.top_right])
}

/// The bottom edge, written where the left column ended.
pub open spec fn bottom_edge(width: u16, f: Frame) -> Seq<u8> {
    CSI::CursorDown(1).bytes() + encode_utf8(seq![f.bottom_left]) + encode_utf8(
        repeated(f.bottom, inner(width)),
    ) + encode_utf8(seq![f.bottom_right])
}

/// What drawing frame `f` in `style` round a rectangle at (`x`, `y`) of
/// `width` × `height` sends.
pub open spec fn frame_drawing(
    x: u16,
    y: u16,
    width: u16,
    height: u16,
    style: Map<u8, StyleProperty>,
    f: Frame,
) -> Seq<u8> {
    encode_utf8(renditions(style)) + top_edge(x, y, width, f) + repeated_bytes(
        right_step(x, f.right),
        inner(height),
    ) + CSI::CursorPosition(y, x).bytes() + repeated_bytes(left_step(f.left), inner(height))
        + bottom_edge(width, f) + encode_utf8(reset_text())
}

/// `c`, `n` times, as a string.
pub fn repeat_char(c: char, n: u16) -> (r: String)
    ensures
        r@ == repeated(c, n as nat),
{
    let mut s = String::new();
    let mut i: u16 = 0;
    while i < n
        invariant
            i <= n,
            s@ == repeated(c, i as nat),
        decreases n - i,
    {
        push_char(&mut s, c);
        i += 1;
    }
    s
}

fn draw_top_edge<T: Sink>(screen: &mut Screen<T>, x: u16, y: u16, width: u16, f: &Frame) -> (r:
    Result<(), Error>)
    requires
        width >= 2,
    ensures
        r is Ok ==> final(screen).written() == old(screen).written() + top_edge(x, y, width, *f),
{
    match screen.cursor_mut().move_to(x, y) {
        Ok(()) => {},
        Err(e) => return Err(Error::IoFailure(e)),
    }
    match screen.write_char(f.top_left) {
        Ok(()) => {},
        Err(e) => return Err(e),
    }
    let line = repeat_char(f.top, width - 2);
    match screen.write_str(line.as_str()) {
        Ok(()) => {},
        Err(e) => return Err(e),
    }
    screen.write_char(f.top_right)
}

fn draw_bottom_edge<T: Sink>(screen: &mut Screen<T>, width: u16, f: &Frame) -> (r: Result<
    (),
    Error,
>)
    requires
        width >= 2,
    ensures
        r is Ok ==> final(screen).written() == old(screen).written() + bottom_edge(width, *f),
{
    match screen.cursor_mut().move_down(1) {
        Ok(()) => {},
        Err(e) => return Err(Error::IoFailure(e)),
    }
    match screen.write_char(f.bottom_left) {
        Ok(()) => {},
        Err(e) => return Err(e),
    }
    let line = repeat_char(f.bottom, width - 2);
    match screen.write_str(line.as_str()) {
        Ok(()) => {},
        Err(e) => return Err(e),
    }
    screen.write_char(f.bottom_right)
}

fn draw_right_column<T: Sink>(screen: &mut Screen<T>, x: u16, height: u16, c: char) -> (r:
    Result<(), Error>)
    ensures
        r is Ok ==> final(screen).written() == old(screen).written() + repeated_bytes(
            right_step(x, c),
            inner(height),
        ),
{
    let mut i: u16 = 1;
    while i + 1 < height
        invariant
            1 <= i,
            height >= 2 ==> i <= height - 1,
            height < 2 ==> i == 1,
            screen.written() == old(screen).written() + repeated_bytes(
                right_step(x, c),
                (i - 1) as nat,
            ),
        decreases height - i,
    {
        let ghost before = screen.written();
        if x == 0 {
            match screen.cursor_mut().move_left(1) {
                Ok(()) => {},
                Err(e) => return Err(Error::IoFailure(e)),
            }
        }
        match screen.cursor_mut().move_down(1) {
            Ok(()) => {},
            Err(e) => return Err(Error::IoFailure(e)),
        }
        match screen.write_char(c) {
            Ok(()) => {},
            Err(e) => return Err(e),
        }
        assert(screen.written() =~= before + right_step(x, c));
        i += 1;
    }
    Ok(())
}

fn draw_left_column<T: Sink>(screen: &mut Screen<T>, height: u16, c: char) -> (r: Result<
    (),
    Error,
>)
    ensures
        r is Ok ==> final(screen).written() == old(screen).written() + repeated_bytes(
            left_step(c),
            inner(height),
        ),
{
    let mut i: u16 = 1;
    while i + 1 < height
        invariant
            1 <= i,
            height >= 2 ==> i <= height - 1,
            height < 2 ==> i == 1,
            screen.written() == old(screen).written() + repeated_bytes(left_step(c), (i - 1) as nat),
        decreases height - i,
    {
        let ghost before = screen.written();
        match screen.cursor_mut().move_down(1) {
            Ok(()) => {},
            Err(e) => return Err(Error::IoFailure(e)),
        }
        match screen.write_char(c) {
            Ok(()) => {},
            Err(e) => return Err(e),
        }
        match screen.cursor_mut().move_left(1) {
            Ok(()) => {},
            Err(e) => return Err(Error::IoFailure(e)),
        }
        assert(screen.written() =~= before + left_step(c));
        i += 1;
    }
    Ok(())
}

/// Draws frame `f` in `style` along the edges of `boundary`.
pub fn draw_frame<T: Sink>(screen: &mut Screen<T>, boundary: Boundary, style: &Style, f: &Frame) -> (r:
    Result<(), Error>)
    requires
        boundary@.1.width >= 2,
    ensures
        r is Ok ==> final(screen).written() == old(screen).written() + frame_drawing(
            boundary@.0.x,
            boundary@.0.y,
            boundary@.1.width,
            boundary@.1.height,
            style@,
            *f,
        ),
{
    let x = boundary.left();
    let y = boundary.top();
    let dimension = boundary.dimension();
    let ghost start = screen.written();
    let sequence = style.ansi_sequence();
    match screen.write_str(sequence.as_str()) {
        Ok(()) => {},
        Err(e) => return Err(e),
    }
    let ghost s1 = screen.written();
    match draw_top_edge(screen, x, y, dimension.width, f) {
        Ok(()) => {},
        Err(e) => return Err(e),
    }
    let ghost s2 = screen.written();
    match draw_right_column(screen, x, dimension.height, f.right) {
        Ok(()) => {},
        Err(e) => return Err(e),
    }
    let ghost s3 = screen.written();
    match screen.cursor_mut().move_to(x, y) {
        Ok(()) => {},
        Err(e) => return Err(Error::IoFailure(e)),
    }
    let ghost s4 = screen.written();
    match draw_left_column(screen, dimension.height, f.left) {
        Ok(()) => {},
        Err(e) => return Err(e),
    }
    let ghost s5 = screen.written();
    match draw_bottom_edge(screen, dimension.width, f) {
        Ok(()) => {},
        Err(e) => return Err(e),
    }
    let ghost s6 = screen.written();
    let reset = CSI::SelectGraphicRendition(SGR::Reset).to_string();
    let r = screen.write_str(reset.as_str());
    assert(r is Ok ==> screen.written() =~= start + frame_drawing(
        x,
        y,
        dimension.width,
        dimension.height,
        style@,
        *f,
    ));
    r
}

#[verifier::reject_recursive_types(T)]
pub struct BorderComponent<T: Sink> {
    screen: SharedScreen<T>,
    style: Style,
    boundary: Boundary,
}

impl<T: Sink> BorderComponent<T> {
    #[verifier::type_invariant]
    closed spec fn wf(&self) -> bool {
        self.boundary@.1.width >= 2
    }

    /// A frame along the edges of `boundary`, which is at least two cells
    /// wide, in `style`.
    pub fn new(screen: SharedScreen<T>, boundary: Boundary, style: Style) -> BorderComponent<T>
        requires
            boundary@.1.width >= 2,
    {
        BorderComponent { screen, style, boundary }
    }

    /// Draws the frame.
    pub fn render(&self) -> Result<(), Error> {
        self.render_border_with(
            TOP_LEFT_CORNER,
            TOP_RIGHT_CORNER,
            BOTTOM_RIGHT_CORNER,
            BOTTOM_LEFT_CORNER,
            LINE,
            COLUMN,
            LINE,
            COLUMN,
        )
    }

    /// Blanks the frame.
    pub fn erase(&self) -> Result<(), Error> {
        self.render_border_with(' ', ' ', ' ', ' ', ' ', ' ', ' ', ' ')
    }

    fn render_border_with(
        &self,
        top_left_corner: char,
        top_right_corner: char,
        bottom_right_corner: char,
        bottom_left_corner: char,
        top_line: char,
        right_line: char,
        bottom_line: char,
        left_line: char,
    ) -> Result<(), Error> {
        let f = Frame {
            top_left: top_left_corner,
            top_right: top_right_corner,
            bottom_right: bottom_right_corner,
            bottom_left: bottom_left_corner,
            top: top_line,
            right: right_line,
            bottom: bottom_line,
            left: left_line,
        };
        proof {
            use_type_invariant(self);
        }
        let mut guard = match self.screen.lock() {
            Ok(g) => g,
            Err(e) => return Err(e),
        };
        let r = draw_frame(guard.screen_mut(), self.boundary, &self.style, &f);
        guard.release();
        r
    }
}

} // verus!
