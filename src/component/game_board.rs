//! The game board: the apple, the snake and the score inside a boundary.
use vstd::prelude::*;

use crate::component::apple::AppleComponent;
use crate::component::score::ScoreComponent;
use crate::component::snake::{
    ahead, at, fits, opposite, overlaps, step_from, Snake, SnakeComponent,
};
use crate::component::{Boundary, Position};
use crate::terminus::screen::{Error, SharedScreen};
use crate::terminus::sink::Sink;

verus! {

/// Whether a snake can start at the top left corner of `boundary`.
pub open spec fn room_for_snake(boundary: Boundary) -> bool {
    boundary@.0.x + 10 <= u16::MAX
}

/// Whether the game is over for `snake` in `boundary`: it bites itself, or
/// its next cell is outside the boundary.
pub open spec fn is_game_over(snake: Snake, boundary: Boundary) -> bool {
    let next = step_from(snake@.1[0].position, snake@.0);
    overlaps(snake@.1) || !fits(next) || !boundary.is_inside_spec(at(next))
}

/// Whether the snake's head is on the apple.
pub open spec fn eats<T: Sink>(board: GameBoardComponent<T>) -> bool {
    board.spec_apple().spec_position() == board.spec_snake_component().spec_snake()@.1[0].position
}

/// Whether the snake has room to grow behind its tail.
pub open spec fn grows<T: Sink>(board: GameBoardComponent<T>) -> bool {
    let body = board.spec_snake_component().spec_snake()@.1;
    fits(step_from(body.last().position, opposite(body.last().direction)))
}

/// Points for an apple.
pub const APPLE_POINTS: u32 = 100;

#[verifier::reject_recursive_types(T)]
pub struct GameBoardComponent<T: Sink> {
    screen: SharedScreen<T>,
    boundary: Boundary,
    apple: AppleComponent<T>,
    snake_component: SnakeComponent<T>,
    score: ScoreComponent<T>,
}

impl<T: Sink> GameBoardComponent<T> {
    pub closed spec fn spec_boundary(&self) -> Boundary {
        self.boundary
    }

    pub closed spec fn spec_apple(&self) -> AppleComponent<T> {
        self.apple
    }

    pub closed spec fn spec_snake_component(&self) -> SnakeComponent<T> {
        self.snake_component
    }

    pub closed spec fn spec_score(&self) -> ScoreComponent<T> {
        self.score
    }

    /// Draws an apple somewhere inside `boundary`, the snake from its top
    /// left corner, and a score of 0 at the top left of the screen.
    pub fn new(screen: SharedScreen<T>, boundary: Boundary) -> (r: Result<GameBoardComponent<T>, Error>)
        requires
            room_for_snake(boundary),
        ensures
            r matches Ok(b) ==> {
                &&& b.spec_boundary() == boundary
                &&& boundary.is_inside_spec(b.spec_apple().spec_position())
                &&& b.spec_snake_component().spec_snake().wf()
                &&& b.spec_score().spec_score() == 0
            },
    {
        let apple = match AppleComponent::new(screen.clone(), Self::apple_position(boundary)) {
            Ok(a) => a,
            Err(e) => return Err(e),
        };
        let snake_component = match SnakeComponent::try_new(screen.clone(), boundary.position()) {
            Ok(s) => s,
            Err(e) => return Err(e),
        };
        let score = match ScoreComponent::try_new(screen.clone(), Position::new(1, 1)) {
            Ok(s) => s,
            Err(e) => return Err(e),
        };
        Ok(GameBoardComponent { screen, apple, snake_component, score, boundary })
    }

    /// A position drawn at random inside `boundary`.
    fn apple_position(boundary: Boundary) -> (r: Position)
        ensures
            boundary.is_inside_spec(r),
    {
        let dimension = boundary.dimension();
        let offset = dimension.get_random_position_inside();
        boundary.position().add(offset)
    }

    /// Replaces the apple by one drawn at a new random position inside the
    /// boundary; the old one is blanked first.
    pub fn generate_new_apple(&mut self) -> (r: Result<(), Error>)
        ensures
            final(self).spec_boundary() == old(self).spec_boundary(),
            final(self).spec_snake_component() == old(self).spec_snake_component(),
            final(self).spec_score() == old(self).spec_score(),
            r is Ok ==> old(self).spec_boundary().is_inside_spec(
                final(self).spec_apple().spec_position(),
            ),
    {
        let _ = self.apple.erase();
        let apple = match AppleComponent::new(
            self.screen.clone(),
            Self::apple_position(self.boundary),
        ) {
            Ok(a) => a,
            Err(e) => return Err(e),
        };
        self.apple = apple;
        Ok(())
    }

    /// Plays one tick: `Ok(false)`, with nothing changed, when the game is
    /// over; otherwise the snake eats the apple if its head is on it (it
    /// grows, the score rises and a new apple appears), then moves one step.
    pub fn advance(&mut self) -> (r: Result<bool, Error>)
        requires
            old(self).spec_snake_component().spec_snake().wf(),
        ensures
            final(self).spec_snake_component().spec_snake().wf(),
            final(self).spec_boundary() == old(self).spec_boundary(),
            r matches Ok(going) ==> going == !is_game_over(
                old(self).spec_snake_component().spec_snake(),
                old(self).spec_boundary(),
            ),
            r matches Ok(false) ==> *final(self) == *old(self),
            r matches Ok(true) ==> final(self).spec_snake_component().spec_snake()@ == (
                old(self).spec_snake_component().spec_snake()@.0,
                seq![
                    ahead(
                        old(self).spec_snake_component().spec_snake()@.1,
                        old(self).spec_snake_component().spec_snake()@.0,
                    ),
                ] + if eats(*old(self)) && grows(*old(self)) {
                    old(self).spec_snake_component().spec_snake()@.1
                } else {
                    old(self).spec_snake_component().spec_snake()@.1.drop_last()
                },
            ),
            r matches Ok(true) ==> final(self).spec_score().spec_score() == if eats(*old(self))
                && old(self).spec_score().spec_score() <= u32::MAX - APPLE_POINTS {
                (old(self).spec_score().spec_score() + APPLE_POINTS) as u32
            } else {
                old(self).spec_score().spec_score()
            },
    {
        let snake = self.snake_component.snake();
        if snake.is_biting_itself() || !snake.next_fits() || !self.boundary.is_inside(
            snake.get_next_position(),
        ) {
            return Ok(false);
        }
        let ghost old_snake = self.snake_component.spec_snake();
        if self.apple.position() == snake.head().position {
            if snake.can_grow() {
                self.snake_component.snake_mut().eat();
            }
            let score = self.score.score();
            if score <= u32::MAX - APPLE_POINTS {
                match self.score.add(APPLE_POINTS) {
                    Ok(()) => {},
                    Err(e) => return Err(e),
                }
            }
            match self.generate_new_apple() {
                Ok(()) => {},
                Err(e) => return Err(e),
            }
        }
        proof {
            let s = self.snake_component.spec_snake();
            assert(s@.0 == old_snake@.0);
            assert(s@.1[0] == old_snake@.1[0]);
            if eats(*old(self)) && grows(*old(self)) {
                assert(s@.1.drop_last() =~= old_snake@.1);
            }
        }
        match self.snake_component.move_forward() {
            Ok(()) => Ok(true),
            Err(e) => Err(e),
        }
    }

    pub fn boundary(&self) -> (r: Boundary)
        ensures
            r == self.spec_boundary(),
    {
        self.boundary
    }

    pub fn apple(&self) -> (r: &AppleComponent<T>)
        ensures
            *r == self.spec_apple(),
    {
        &self.apple
    }

    pub fn snake_component(&self) -> (r: &SnakeComponent<T>)
        ensures
            *r == self.spec_snake_component(),
    {
        &self.snake_component
    }

    pub fn snake_component_mut(&mut self) -> (r: &mut SnakeComponent<T>)
        ensures
            *r == old(self).spec_snake_component(),
            final(self).spec_snake_component() == *final(r),
            final(self).spec_boundary() == old(self).spec_boundary(),
            final(self).spec_apple() == old(self).spec_apple(),
            final(self).spec_score() == old(self).spec_score(),
    {
        &mut self.snake_component
    }

    pub fn score(&self) -> (r: &ScoreComponent<T>)
        ensures
            *r == self.spec_score(),
    {
        &self.score
    }

    pub fn score_mut(&mut self) -> (r: &mut ScoreComponent<T>)
        ensures
            *r == old(self).spec_score(),
            final(self).spec_score() == *final(r),
            final(self).spec_boundary() == old(self).spec_boundary(),
            final(self).spec_apple() == old(self).spec_apple(),
            final(self).spec_snake_component() == old(self).spec_snake_component(),
    {
        &mut self.score
    }
}

} // verus!
