//! Positions and rectangles on the screen, and the game's drawing
//! components.
pub mod apple;
pub mod border;
pub mod game_board;
pub mod game_over;
pub mod score;
pub mod snake;
pub mod timer;

use rand::rngs::ThreadRng;
use rand::Rng;
use vstd::prelude::*;

verus! {

/// rand's per-thread generator, whose state Verus does not see.
#[verifier::external_type_specification]
#[verifier::external_body]
pub struct ExThreadRng(ThreadRng);

/// Relies on rand::thread_rng: the thread's generator.
#[verifier::external_body]
fn generator() -> ThreadRng {
    rand::thread_rng()
}

/// Relies on Rng::gen_range: a number drawn uniformly from `0..bound`.
/// gen_range panics on an empty range, hence the requirement.
#[verifier::external_body]
fn random_below(rng: &mut ThreadRng, bound: u16) -> (r: u16)
    requires
        bound > 0,
    ensures
        r < bound,
{
    rng.gen_range(0..bound)
}

#[derive(Debug, Copy, Clone, PartialEq, Eq, Hash, Structural)]
pub struct Position {
    pub x: u16,
    pub y: u16,
}

impl Position {
    pub fn new(x: u16, y: u16) -> (r: Self)
        ensures
            r == (Position { x, y }),
    {
        Position { x, y }
    }

    /// The vector sum.
    pub fn add(self, rhs: Position) -> (r: Position)
        requires
            self.x + rhs.x <= u16::MAX,
            self.y + rhs.y <= u16::MAX,
        ensures
            r.x == self.x + rhs.x,
            r.y == self.y + rhs.y,
    {
        Position { x: self.x + rhs.x, y: self.y + rhs.y }
    }
}

impl From<(u16, u16)> for Position {
    fn from(v: (u16, u16)) -> Self {
        Position { x: v.0, y: v.1 }
    }
}

impl vstd::std_specs::convert::FromSpecImpl<(u16, u16)> for Position {
    open spec fn obeys_from_spec() -> bool {
        true
    }

    open spec fn from_spec(v: (u16, u16)) -> Position {
        Position { x: v.0, y: v.1 }
    }
}

#[derive(Debug, Copy, Clone, PartialEq, Eq, Hash, Structural)]
pub struct Dimension {
    pub width: u16,
    pub height: u16,
}

impl Dimension {
    pub fn new(width: u16, height: u16) -> (r: Self)
        ensures
            r == (Dimension { width, height }),
    {
        Dimension { width, height }
    }

    /// A position drawn uniformly from `[0, width) × [0, height)`.
    pub fn get_random_position_inside(&self) -> (r: Position)
        requires
            self.width > 0,
            self.height > 0,
        ensures
            r.x < self.width,
            r.y < self.height,
    {
        let mut rng = generator();
        let x = random_below(&mut rng, self.width);
        let y = random_below(&mut rng, self.height);
        Position { x, y }
    }
}

impl From<(u16, u16)> for Dimension {
    fn from(v: (u16, u16)) -> Self {
        Dimension { width: v.0, height: v.1 }
    }
}

impl vstd::std_specs::convert::FromSpecImpl<(u16, u16)> for Dimension {
    open spec fn obeys_from_spec() -> bool {
        true
    }

    open spec fn from_spec(v: (u16, u16)) -> Dimension {
        Dimension { width: v.0, height: v.1 }
    }
}

/// Whether a rectangle at `position` of size `dimension` has a cell and
/// its inclusive right and bottom edges fit in `u16`.
pub open spec fn valid_boundary(position: Position, dimension: Dimension) -> bool {
    &&& dimension.width >= 1
    &&& dimension.height >= 1
    &&& position.x + dimension.width - 1 <= u16::MAX
    &&& position.y + dimension.height - 1 <= u16::MAX
}

/// A rectangle of cells, its edges inclusive.
#[derive(Debug, Clone, Copy)]
pub struct Boundary {
    position: Position,
    dimension: Dimension,
}

impl View for Boundary {
    type V = (Position, Dimension);

    closed spec fn view(&self) -> (Position, Dimension) {
        (self.position, self.dimension)
    }
}

impl Boundary {
    #[verifier::type_invariant]
    closed spec fn wf(&self) -> bool {
        valid_boundary(self.position, self.dimension)
    }

    pub open spec fn spec_top(&self) -> int {
        self@.0.y as int
    }

    pub open spec fn spec_bottom(&self) -> int {
        self@.0.y + self@.1.height - 1
    }

    pub open spec fn spec_left(&self) -> int {
        self@.0.x as int
    }

    pub open spec fn spec_right(&self) -> int {
        self@.0.x + self@.1.width - 1
    }

    /// Whether `position` lies within the edges.
    pub open spec fn is_inside_spec(&self, position: Position) -> bool {
        self.spec_left() <= position.x <= self.spec_right() && self.spec_top() <= position.y
            <= self.spec_bottom()
    }

    pub fn new(position: Position, dimension: Dimension) -> (r: Self)
        requires
            valid_boundary(position, dimension),
        ensures
            r@ == (position, dimension),
    {
        Boundary { position, dimension }
    }

    pub fn position(&self) -> (r: Position)
        ensures
            r == self@.0,
    {
        self.position
    }

    pub fn dimension(&self) -> (r: Dimension)
        ensures
            r == self@.1,
            valid_boundary(self@.0, r),
    {
        proof {
            use_type_invariant(self);
        }
        self.dimension
    }

    /// Whether `position` lies within the edges.
    pub fn is_inside(&self, position: Position) -> (r: bool)
        ensures
            r == self.is_inside_spec(position),
    {
        position.x >= self.left() && position.x <= self.right() && position.y >= self.top()
            && position.y <= self.bottom()
    }

    pub fn top(&self) -> (r: u16)
        ensures
            r == self.spec_top(),
    {
        self.position.y
    }

    pub fn bottom(&self) -> (r: u16)
        ensures
            r == self.spec_bottom(),
    {
        proof {
            use_type_invariant(self);
        }
        self.position.y + (self.dimension.height - 1)
    }

    pub fn left(&self) -> (r: u16)
        ensures
            r == self.spec_left(),
    {
        self.position.x
    }

    pub fn right(&self) -> (r: u16)
        ensures
            r == self.spec_right(),
    {
        proof {
            use_type_invariant(self);
        }
        self.position.x + (self.dimension.width - 1)
    }
}

} // verus!
