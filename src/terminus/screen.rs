//! The screen, and a handle that shares it between drawing components.
use std::sync::{Arc, Mutex, MutexGuard};
use vstd::prelude::*;
use vstd::utf8::encode_utf8;

use crate::terminus::ansi_escape_sequences::{EraseOption, CSI};
use crate::terminus::cursor::Cursor;
use crate::terminus::sink::Sink;
use crate::terminus::text::push_char;

verus! {

/// std's Mutex, whose contents Verus does not see.
#[verifier::external_type_specification]
#[verifier::external_body]
#[verifier::reject_recursive_types(T)]
pub struct ExMutex<T: ?Sized>(Mutex<T>);

/// std's MutexGuard, whose contents Verus does not see.
#[verifier::external_type_specification]
#[verifier::external_body]
#[verifier::reject_recursive_types(T)]
pub struct ExMutexGuard<'a, T: ?Sized + 'a>(MutexGuard<'a, T>);

#[derive(Debug)]
pub enum Error {
    /// Writing to the sink, or flushing it, failed.
    IoFailure(std::io::Error),
    /// The shared screen cannot be had: a holder failed while holding it.
    LockUnavailable,
    /// The output is not a terminal, so it has no size.
    NotATerminal,
}

/// Relies on terminal_size::terminal_size: the size, as (columns, rows), of
/// the first of stdout, stderr and stdin that is a terminal whose size is
/// known; both are positive. `None` when there is none.
#[verifier::external_body]
fn terminal_dimensions() -> (r: Option<(u16, u16)>)
    ensures
        r matches Some((w, h)) ==> w > 0 && h > 0,
{
    terminal_size::terminal_size().map(|(w, h)| (w.0, h.0))
}

pub struct Screen<T: Sink> {
    cursor: Cursor<T>,
}

impl<T: Sink> Screen<T> {
    /// Every byte that the screen has handed to its sink in a write that
    /// succeeded, in order.
    pub closed spec fn written(&self) -> Seq<u8> {
        self.cursor.written()
    }

    /// A screen over the sink that `op` makes; its cursor writes to that
    /// same sink.
    pub fn new(op: impl Fn() -> T) -> (r: Screen<T>)
        requires
            op.requires(()),
        ensures
            r.written() == Seq::<u8>::empty(),
    {
        Screen { cursor: Cursor::from(op) }
    }

    pub fn cursor_mut(&mut self) -> (r: &mut Cursor<T>)
        ensures
            r.written() == old(self).written(),
            final(self).written() == final(r).written(),
    {
        &mut self.cursor
    }

    /// The sink, to read what it holds.
    pub fn sink(&self) -> &T {
        self.cursor.sink()
    }

    /// The size of the terminal as (columns, rows), from what the size
    /// lookup found.
    pub fn try_size_from(found: Option<(u16, u16)>) -> (r: Result<(u16, u16), Error>)
        ensures
            match found {
                Some(size) => r matches Ok(s) && s == size,
                None => r matches Err(Error::NotATerminal),
            },
    {
        match found {
            Some(size) => Ok(size),
            None => Err(Error::NotATerminal),
        }
    }

    /// The size of the terminal as (columns, rows), from what the size
    /// lookup found; (0, 0) when it found none.
    pub fn size_from(found: Option<(u16, u16)>) -> (r: (u16, u16))
        ensures
            match found {
                Some(size) => r == size,
                None => r == (0u16, 0u16),
            },
    {
        match Self::try_size_from(found) {
            Ok(size) => size,
            Err(_) => (0, 0),
        }
    }

    /// The size of the terminal as (columns, rows); `NotATerminal` when the
    /// output is not a terminal.
    pub fn try_size(&self) -> (r: Result<(u16, u16), Error>)
        ensures
            r matches Ok((w, h)) ==> w > 0 && h > 0,
            r is Err ==> r matches Err(Error::NotATerminal),
    {
        Self::try_size_from(terminal_dimensions())
    }

    /// The size of the terminal as (columns, rows); (0, 0) when the output
    /// is not a terminal.
    pub fn size(&self) -> (r: (u16, u16))
        ensures
            (r.0 == 0) == (r.1 == 0),
    {
        Self::size_from(terminal_dimensions())
    }

    /// Erases the whole display, then moves the cursor home.
    pub fn clear_screen(&mut self) -> (r: Result<(), std::io::Error>)
        ensures
            r is Ok ==> final(self).written() == old(self).written() + CSI::EraseInDisplay(
                EraseOption::All,
            ).bytes() + CSI::CursorPosition(1, 1).bytes(),
    {
        match self.cursor.write_command(CSI::EraseInDisplay(EraseOption::All)) {
            Ok(()) => {},
            Err(e) => return Err(e),
        }
        match self.cursor.move_to(1, 1) {
            Ok(()) => {},
            Err(e) => return Err(e),
        }
        self.cursor.flush()
    }

    /// Moves the cursor home, then erases from it to the end of the
    /// display, which keeps the scrollback history.
    pub fn erase_screen(&mut self) -> (r: Result<(), std::io::Error>)
        ensures
            r is Ok ==> final(self).written() == old(self).written() + CSI::CursorPosition(
                1,
                1,
            ).bytes() + CSI::EraseInDisplay(EraseOption::CursorToEnd).bytes(),
    {
        match self.cursor.move_to(1, 1) {
            Ok(()) => {},
            Err(e) => return Err(e),
        }
        match self.cursor.write_command(CSI::EraseInDisplay(EraseOption::CursorToEnd)) {
            Ok(()) => {},
            Err(e) => return Err(e),
        }
        self.cursor.flush()
    }

    /// Scrolls down by `height` lines and parks the cursor at the start of
    /// line `height`.
    pub fn scroll_to_bottom_of(&mut self, height: u16) -> (r: Result<(), Error>)
        ensures
            r is Ok ==> final(self).written() == old(self).written() + CSI::ScrollDown(
                height,
            ).bytes() + CSI::CursorPosition(height, 1).bytes(),
            r is Err ==> r matches Err(Error::IoFailure(_)),
    {
        match self.cursor.write_command(CSI::ScrollDown(height)) {
            Ok(()) => {},
            Err(e) => return Err(Error::IoFailure(e)),
        }
        match self.cursor.move_to(1, height) {
            Ok(()) => {},
            Err(e) => return Err(Error::IoFailure(e)),
        }
        match self.cursor.flush() {
            Ok(()) => Ok(()),
            Err(e) => Err(Error::IoFailure(e)),
        }
    }

    /// Scrolls down by the terminal's height and parks the cursor at its
    /// bottom line; `NotATerminal`, with nothing written, when the output is
    /// not a terminal.
    pub fn scroll_to_bottom(&mut self) -> (r: Result<(), Error>)
        ensures
            r is Ok ==> exists|height: u16|
                height > 0 && final(self).written() == old(self).written() + CSI::ScrollDown(
                    height,
                ).bytes() + #[trigger] CSI::CursorPosition(height, 1).bytes(),
            r matches Err(Error::NotATerminal) ==> final(self).written() == old(
                self,
            ).written(),
            !(r matches Err(Error::LockUnavailable)),
    {
        match terminal_dimensions() {
            Some((_, height)) => self.scroll_to_bottom_of(height),
            None => Err(Error::NotATerminal),
        }
    }

    /// Scrolls the content down without bringing history into the screen.
    pub fn scroll_down(&mut self, n: u16) -> (r: Result<(), Error>)
        ensures
            r is Ok ==> final(self).written() == old(self).written() + CSI::ScrollDown(n).bytes(),
            r is Err ==> r matches Err(Error::IoFailure(_)),
    {
        match self.cursor.write_command(CSI::ScrollDown(n)) {
            Ok(()) => {},
            Err(e) => return Err(Error::IoFailure(e)),
        }
        match self.cursor.flush() {
            Ok(()) => Ok(()),
            Err(e) => Err(Error::IoFailure(e)),
        }
    }

    /// Scrolls the content up.
    pub fn scroll_up(&mut self, n: u16) -> (r: Result<(), Error>)
        ensures
            r is Ok ==> final(self).written() == old(self).written() + CSI::ScrollUp(n).bytes(),
            r is Err ==> r matches Err(Error::IoFailure(_)),
    {
        match self.cursor.write_command(CSI::ScrollUp(n)) {
            Ok(()) => {},
            Err(e) => return Err(Error::IoFailure(e)),
        }
        match self.cursor.flush() {
            Ok(()) => Ok(()),
            Err(e) => Err(Error::IoFailure(e)),
        }
    }

    /// Writes `text`, then flushes.
    fn write_flushed(&mut self, text: &str) -> (r: Result<(), Error>)
        ensures
            r is Ok ==> final(self).written() == old(self).written() + encode_utf8(text@),
            r is Err ==> r matches Err(Error::IoFailure(_)),
    {
        match self.cursor.write_text(text) {
            Ok(()) => {},
            Err(e) => return Err(Error::IoFailure(e)),
        }
        match self.cursor.flush() {
            Ok(()) => Ok(()),
            Err(e) => Err(Error::IoFailure(e)),
        }
    }

    /// Writes a line feed.
    pub fn writeln(&mut self) -> (r: Result<(), Error>)
        ensures
            r is Ok ==> final(self).written() == old(self).written() + encode_utf8(seq!['\n']),
            r is Err ==> r matches Err(Error::IoFailure(_)),
    {
        let mut line_feed = String::new();
        push_char(&mut line_feed, '\n');
        self.write_flushed(line_feed.as_str())
    }

    pub fn write_str(&mut self, str: &str) -> (r: Result<(), Error>)
        ensures
            r is Ok ==> final(self).written() == old(self).written() + encode_utf8(str@),
            r is Err ==> r matches Err(Error::IoFailure(_)),
    {
        self.write_flushed(str)
    }

    /// Writes `str`, then a line feed.
    pub fn writeln_str(&mut self, str: &str) -> (r: Result<(), Error>)
        ensures
            r is Ok ==> final(self).written() == old(self).written() + encode_utf8(str@)
                + encode_utf8(seq!['\n']),
            r is Err ==> r matches Err(Error::IoFailure(_)),
    {
        match self.cursor.write_text(str) {
            Ok(()) => {},
            Err(e) => return Err(Error::IoFailure(e)),
        }
        self.writeln()
    }

    /// Writes the UTF-8 encoding of `c`.
    pub fn write_char(&mut self, c: char) -> (r: Result<(), Error>)
        ensures
            r is Ok ==> final(self).written() == old(self).written() + encode_utf8(seq![c]),
            r is Err ==> r matches Err(Error::IoFailure(_)),
    {
        let mut s = String::new();
        push_char(&mut s, c);
        assert(s@ =~= seq![c]);
        self.write_flushed(s.as_str())
    }
}

/// Relies on Mutex::new: a mutex that holds `slot`.
#[verifier::external_body]
fn new_mutex<T: Sink>(slot: Option<Screen<T>>) -> Mutex<Option<Screen<T>>> {
    Mutex::new(slot)
}

/// Relies on Mutex::lock: blocks until the mutex is free, then holds it;
/// `None` when a former holder panicked while holding it.
#[verifier::external_body]
fn acquire<'a, T: Sink>(m: &'a Arc<Mutex<Option<Screen<T>>>>) -> Option<
    MutexGuard<'a, Option<Screen<T>>>,
> {
    m.lock().ok()
}

/// Relies on MutexGuard's DerefMut: the value that the held mutex protects.
#[verifier::external_body]
fn protected<'a, 'b, T: Sink>(g: &'b mut MutexGuard<'a, Option<Screen<T>>>) -> &'b mut Option<
    Screen<T>,
> {
    &mut **g
}

/// Relies on Arc::clone: a second handle to the same value.
#[verifier::external_body]
fn share<T: Sink>(a: &Arc<Mutex<Option<Screen<T>>>>) -> (r: Arc<Mutex<Option<Screen<T>>>>)
    ensures
        r == *a,
{
    Arc::clone(a)
}

/// One screen shared by many owners, each drawing in turn.
#[verifier::reject_recursive_types(T)]
pub struct SharedScreen<T: Sink> {
    screen: Arc<Mutex<Option<Screen<T>>>>,
}

impl<T: Sink> SharedScreen<T> {
    pub fn new(screen: Screen<T>) -> SharedScreen<T> {
        SharedScreen { screen: Arc::new(new_mutex(Some(screen))) }
    }

    /// Waits for the screen, then starts a transaction on it: the guard
    /// has saved the cursor position. `LockUnavailable` when a former
    /// holder failed while holding the screen. A thread that holds a guard
    /// must release it before it locks again.
    pub fn lock(&self) -> (r: Result<SharedScreenGuard<'_, T>, Error>)
        ensures
            r matches Ok(g) ==> g.written() == g.entry() + CSI::SaveCursorPosition.bytes(),
            r is Err ==> r matches Err(Error::LockUnavailable) || r matches Err(
                Error::IoFailure(_),
            ),
    {
        match acquire(&self.screen) {
            Some(slot) => SharedScreenGuard::new(slot),
            None => Err(Error::LockUnavailable),
        }
    }
}

impl<T: Sink> Clone for SharedScreen<T> {
    fn clone(&self) -> (r: Self)
        ensures
            r == *self,
    {
        SharedScreen { screen: share(&self.screen) }
    }
}

/// Exclusive use of the shared screen for one transaction. It saved the
/// cursor position when it was made; `release` restores it and hands the
/// screen back. A guard dropped without `release` takes the screen with it,
/// and later `lock`s report `LockUnavailable`.
#[verifier::reject_recursive_types(T)]
pub struct SharedScreenGuard<'a, T: Sink> {
    slot: MutexGuard<'a, Option<Screen<T>>>,
    screen: Screen<T>,
    entry: Ghost<Seq<u8>>,
}

impl<'a, T: Sink> SharedScreenGuard<'a, T> {
    /// Every byte that the screen has handed to its sink in a write that
    /// succeeded, in order.
    pub closed spec fn written(&self) -> Seq<u8> {
        self.screen.written()
    }

    /// What the screen had written when the transaction began.
    pub closed spec fn entry(&self) -> Seq<u8> {
        self.entry@
    }

    /// Takes the screen out of the held mutex and saves the cursor position.
    /// On failure the screen stays where it was.
    pub fn new(mutex: MutexGuard<'a, Option<Screen<T>>>) -> (r: Result<Self, Error>)
        ensures
            r matches Ok(g) ==> g.written() == g.entry() + CSI::SaveCursorPosition.bytes(),
            r is Err ==> r matches Err(Error::LockUnavailable) || r matches Err(
                Error::IoFailure(_),
            ),
    {
        let mut slot = mutex;
        let taken = protected(&mut slot).take();
        match taken {
            None => Err(Error::LockUnavailable),
            Some(screen) => {
                let mut screen = screen;
                let ghost entry = screen.written();
                match screen.cursor_mut().save_position() {
                    Ok(()) => Ok(SharedScreenGuard { slot, screen, entry: Ghost(entry) }),
                    Err(e) => {
                        *protected(&mut slot) = Some(screen);
                        Err(Error::IoFailure(e))
                    },
                }
            },
        }
    }

    pub fn screen(&self) -> (r: &Screen<T>)
        ensures
            r.written() == self.written(),
    {
        &self.screen
    }

    pub fn screen_mut(&mut self) -> (r: &mut Screen<T>)
        ensures
            r.written() == old(self).written(),
            final(self).written() == final(r).written(),
            final(self).entry() == old(self).entry(),
    {
        &mut self.screen
    }

    pub fn cursor_mut(&mut self) -> (r: &mut Cursor<T>)
        ensures
            r.written() == old(self).written(),
            final(self).written() == final(r).written(),
            final(self).entry() == old(self).entry(),
    {
        self.screen.cursor_mut()
    }

    /// Ends the transaction: restores the cursor position, hands the screen
    /// back and lets the next holder in. Returns what the handed-back screen
    /// had written: the restore sequence is last unless writing it failed.
    pub fn release(self) -> (handed_back: Ghost<Seq<u8>>)
        ensures
            handed_back@ == self.written() + CSI::RestoreCursorPosition.bytes()
                || handed_back@ == self.written(),
    {
        let SharedScreenGuard { mut slot, mut screen, entry: _ } = self;
        let _ = screen.cursor_mut().restore_position();
        let ghost handed_back = screen.written();
        *protected(&mut slot) = Some(screen);
        Ghost(handed_back)
    }
}

} // verus!
