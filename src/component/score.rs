//! The score, shown dimmed.
use vstd::prelude::*;
use vstd::string::StringExecFns;

use crate::component::apple::draw_styled_text;
use crate::component::Position;
use crate::terminus::screen::{Error, SharedScreen};
use crate::terminus::sink::Sink;
use crate::terminus::style::{Style, StyleProperty};
use crate::terminus::text::{decimal, push_decimal};

verus! {

/// `Score: ` and the score in decimal.
pub open spec fn score_text(score: u32) -> Seq<char> {
    seq!['S', 'c', 'o', 'r', 'e', ':', ' '] + decimal(score as nat)
}

/// The score's text.
pub fn score_label(score: u32) -> (r: String)
    ensures
        r@ == score_text(score),
{
    let mut s = String::new();
    s.append("Score: ");
    proof {
        reveal_strlit("Score: ");
    }
    push_decimal(&mut s, score);
    assert(s@ =~= score_text(score));
    s
}

#[verifier::reject_recursive_types(T)]
pub struct ScoreComponent<T: Sink> {
    screen: SharedScreen<T>,
    score: u32,
    position: Position,
    style: Style,
}

impl<T: Sink> ScoreComponent<T> {
    pub closed spec fn spec_score(&self) -> u32 {
        self.score
    }

    /// A score of 0 at `position`, drawn at once.
    pub fn try_new(screen: SharedScreen<T>, position: Position) -> (r: Result<Self, Error>)
        ensures
            r matches Ok(s) ==> s.spec_score() == 0,
    {
        let mut style = Style::new();
        style.add_property(StyleProperty::Dim);
        let score = ScoreComponent { screen, position, score: 0, style };
        match score.render() {
            Ok(()) => Ok(score),
            Err(e) => Err(e),
        }
    }

    pub fn score(&self) -> (r: u32)
        ensures
            r == self.spec_score(),
    {
        self.score
    }

    /// Adds `add` to the score and draws it.
    pub fn add(&mut self, add: u32) -> (r: Result<(), Error>)
        requires
            old(self).spec_score() + add <= u32::MAX,
        ensures
            final(self).spec_score() == old(self).spec_score() + add,
    {
        self.score = self.score + add;
        self.render()
    }

    /// Draws the score.
    pub fn render(&self) -> Result<(), Error> {
        let text = score_label(self.score);
        let mut guard = match self.screen.lock() {
            Ok(g) => g,
            Err(e) => return Err(e),
        };
        let r = draw_styled_text(guard.screen_mut(), self.position, &self.style, text.as_str());
        guard.release();
        r
    }
}

} // verus!
