//! The cursor: each movement or visibility change is one control sequence,
//! written and flushed at once.
use vstd::prelude::*;
use vstd::utf8::encode_utf8;

use crate::terminus::ansi_escape_sequences::CSI;
use crate::terminus::sink::Sink;

verus! {

pub struct Cursor<T: Sink> {
    out: T,
    sent: Ghost<Seq<u8>>,
}

impl<T: Sink> Cursor<T> {
    /// Every byte that the cursor has handed to its sink in a write that
    /// succeeded, in order.
    pub closed spec fn written(&self) -> Seq<u8> {
        self.sent@
    }

    /// A cursor over the sink that `op` makes.
    pub fn from(op: impl Fn() -> T) -> (r: Self)
        requires
            op.requires(()),
        ensures
            r.written() == Seq::<u8>::empty(),
    {
        Cursor { out: op(), sent: Ghost(Seq::empty()) }
    }

    /// The sink, to read what it holds.
    pub fn sink(&self) -> &T {
        &self.out
    }

    /// Writes `text` without flushing.
    pub(crate) fn write_text(&mut self, text: &str) -> (r: Result<(), std::io::Error>)
        ensures
            r is Ok ==> final(self).written() == old(self).written() + encode_utf8(text@),
            r is Err ==> final(self).written() == old(self).written(),
    {
        let bytes = text.as_bytes();
        let r = self.out.write_all(bytes);
        if r.is_ok() {
            self.sent = Ghost(self.sent@ + bytes@);
        }
        r
    }

    pub(crate) fn flush(&mut self) -> (r: Result<(), std::io::Error>)
        ensures
            final(self).written() == old(self).written(),
    {
        self.out.flush()
    }

    /// Writes one control sequence without flushing.
    pub(crate) fn write_command(&mut self, command: CSI) -> (r: Result<(), std::io::Error>)
        ensures
            r is Ok ==> final(self).written() == old(self).written() + command.bytes(),
            r is Err ==> final(self).written() == old(self).written(),
    {
        let text = command.to_string();
        self.write_text(text.as_str())
    }

    /// Writes one control sequence, then flushes.
    fn emit(&mut self, command: CSI) -> (r: Result<(), std::io::Error>)
        ensures
            r is Ok ==> final(self).written() == old(self).written() + command.bytes(),
            final(self).written() == old(self).written() + command.bytes()
                || final(self).written() == old(self).written(),
    {
        match self.write_command(command) {
            Ok(()) => {},
            Err(e) => return Err(e),
        }
        self.flush()
    }

    /// Makes the cursor invisible.
    pub fn hide_cursor(&mut self) -> (r: Result<(), std::io::Error>)
        ensures
            r is Ok ==> final(self).written() == old(self).written() + CSI::HideCursor.bytes(),
    {
        self.emit(CSI::HideCursor)
    }

    pub fn show(&mut self) -> (r: Result<(), std::io::Error>)
        ensures
            r is Ok ==> final(self).written() == old(self).written() + CSI::ShowCursor.bytes(),
    {
        self.emit(CSI::ShowCursor)
    }

    pub fn save_position(&mut self) -> (r: Result<(), std::io::Error>)
        ensures
            r is Ok ==> final(self).written() == old(self).written()
                + CSI::SaveCursorPosition.bytes(),
    {
        self.emit(CSI::SaveCursorPosition)
    }

    pub fn restore_position(&mut self) -> (r: Result<(), std::io::Error>)
        ensures
            r is Ok ==> final(self).written() == old(self).written()
                + CSI::RestoreCursorPosition.bytes(),
            final(self).written() == old(self).written() + CSI::RestoreCursorPosition.bytes()
                || final(self).written() == old(self).written(),
    {
        self.emit(CSI::RestoreCursorPosition)
    }

    /// Moves to column `x`, row `y`, both counted from 1; the sequence
    /// carries the row first.
    pub fn move_to(&mut self, x: u16, y: u16) -> (r: Result<(), std::io::Error>)
        ensures
            r is Ok ==> final(self).written() == old(self).written() + CSI::CursorPosition(
                y,
                x,
            ).bytes(),
    {
        self.emit(CSI::CursorPosition(y, x))
    }

    pub fn move_up(&mut self, n: u16) -> (r: Result<(), std::io::Error>)
        ensures
            r is Ok ==> final(self).written() == old(self).written() + CSI::CursorUp(n).bytes(),
    {
        self.emit(CSI::CursorUp(n))
    }

    pub fn move_down(&mut self, n: u16) -> (r: Result<(), std::io::Error>)
        ensures
            r is Ok ==> final(self).written() == old(self).written() + CSI::CursorDown(n).bytes(),
    {
        self.emit(CSI::CursorDown(n))
    }

    pub fn move_left(&mut self, n: u16) -> (r: Result<(), std::io::Error>)
        ensures
            r is Ok ==> final(self).written() == old(self).written() + CSI::CursorBack(n).bytes(),
    {
        self.emit(CSI::CursorBack(n))
    }

    pub fn move_right(&mut self, n: u16) -> (r: Result<(), std::io::Error>)
        ensures
            r is Ok ==> final(self).written() == old(self).written() + CSI::CursorForward(
                n,
            ).bytes(),
    {
        self.emit(CSI::CursorForward(n))
    }

    /// Moves to column `x` of the current row.
    pub fn move_horizontally(&mut self, x: u16) -> (r: Result<(), std::io::Error>)
        ensures
            r is Ok ==> final(self).written() == old(self).written()
                + CSI::CursorHorizontalAbsolute(x).bytes(),
    {
        self.emit(CSI::CursorHorizontalAbsolute(x))
    }

    pub fn move_to_n_previous_line(&mut self, n: u16) -> (r: Result<(), std::io::Error>)
        ensures
            r is Ok ==> final(self).written() == old(self).written() + CSI::CursorPreviousLine(
                n,
            ).bytes(),
    {
        self.emit(CSI::CursorPreviousLine(n))
    }

    pub fn move_to_n_next_line(&mut self, n: u16) -> (r: Result<(), std::io::Error>)
        ensures
            r is Ok ==> final(self).written() == old(self).written() + CSI::CursorNextLine(
                n,
            ).bytes(),
    {
        self.emit(CSI::CursorNextLine(n))
    }
}

} // verus!
