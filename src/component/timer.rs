//! The elapsed-time display, `Timer: MM:SS`, shown dimmed.
use vstd::prelude::*;
use vstd::string::StringExecFns;

use crate::component::apple::draw_styled_text;
use crate::component::border::repeat_char;
use crate::component::Position;
use crate::terminus::screen::{Error, SharedScreen};
use crate::terminus::sink::Sink;
use crate::terminus::style::{Style, StyleProperty};
use crate::terminus::text::{decimal, push_char, push_decimal};

verus! {

/// `n` in decimal, with a leading zero below ten.
pub open spec fn two_digits(n: nat) -> Seq<char> {
    if n < 10 {
        seq!['0'] + decimal(n)
    } else {
        decimal(n)
    }
}

/// `Timer: ` and the minutes and seconds of `seconds`, each in two digits
/// at least.
pub open spec fn timer_text(seconds: u32) -> Seq<char> {
    seq!['T', 'i', 'm', 'e', 'r', ':', ' '] + two_digits((seconds / 60) as nat) + seq![':']
        + two_digits((seconds % 60) as nat)
}

fn push_two_digits(s: &mut String, n: u32)
    ensures
        final(s)@ == old(s)@ + two_digits(n as nat),
{
    if n < 10 {
        push_char(s, '0');
    }
    push_decimal(s, n);
    assert(s@ =~= old(s)@ + two_digits(n as nat));
}

/// The timer's text for `seconds` elapsed.
pub fn timer_label(seconds: u32) -> (r: String)
    ensures
        r@ == timer_text(seconds),
{
    let min = seconds / 60;
    let sec = seconds - min * 60;
    let mut s = String::new();
    s.append("Timer: ");
    proof {
        reveal_strlit("Timer: ");
    }
    push_two_digits(&mut s, min);
    push_char(&mut s, ':');
    push_two_digits(&mut s, sec);
    assert(s@ =~= timer_text(seconds));
    s
}

#[verifier::reject_recursive_types(T)]
pub struct TimerComponent<T: Sink> {
    screen: SharedScreen<T>,
    style: Style,
    position: Position,
    seconds: u32,
}

impl<T: Sink> TimerComponent<T> {
    pub closed spec fn spec_seconds(&self) -> u32 {
        self.seconds
    }

    /// A timer at 0 to be drawn at `position`.
    pub fn new(screen: SharedScreen<T>, position: Position) -> (r: Self)
        ensures
            r.spec_seconds() == 0,
    {
        let mut style = Style::new();
        style.add_property(StyleProperty::Dim);
        TimerComponent { screen, position, seconds: 0, style }
    }

    pub fn seconds(&self) -> (r: u32)
        ensures
            r == self.spec_seconds(),
    {
        self.seconds
    }

    pub fn text(&self) -> (r: String)
        ensures
            r@ == timer_text(self.spec_seconds()),
    {
        timer_label(self.seconds)
    }

    /// Counts one more second, and draws the timer.
    pub fn tick(&mut self) -> (r: Result<(), Error>)
        requires
            old(self).spec_seconds() < u32::MAX,
        ensures
            final(self).spec_seconds() == old(self).spec_seconds() + 1,
    {
        self.seconds = self.seconds + 1;
        self.render()
    }

    /// Draws the timer.
    pub fn render(&self) -> Result<(), Error> {
        let text = self.text();
        let mut guard = match self.screen.lock() {
            Ok(g) => g,
            Err(e) => return Err(e),
        };
        let r = draw_styled_text(guard.screen_mut(), self.position, &self.style, text.as_str());
        guard.release();
        r
    }

    /// Blanks the timer's text.
    pub fn erase(&self) -> Result<(), Error> {
        let text = self.text();
        let n = text.as_str().len();
        let width: u16 = if n > 65535 {
            65535
        } else {
            n as u16
        };
        let blank = repeat_char(' ', width);
        let mut guard = match self.screen.lock() {
            Ok(g) => g,
            Err(e) => return Err(e),
        };
        let r = match guard.cursor_mut().move_to(self.position.x, self.position.y) {
            Ok(()) => guard.screen_mut().write_str(blank.as_str()),
            Err(e) => Err(Error::IoFailure(e)),
        };
        guard.release();
        r
    }
}

} // verus!
