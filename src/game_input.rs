//! What the player asks for.
use vstd::prelude::*;

use crate::component::snake::Direction;

verus! {

#[derive(Debug, Clone, Copy, PartialEq, Eq, Structural)]
pub enum GameInput {
    Up,
    Down,
    Left,
    Right,
    Quit,
}

impl GameInput {
    /// The direction that the input asks the snake to take, if any.
    pub fn direction(&self) -> (r: Option<Direction>)
        ensures
            r == match *self {
                GameInput::Up => Some(Direction::Up),
                GameInput::Down => Some(Direction::Down),
                GameInput::Left => Some(Direction::Left),
                GameInput::Right => Some(Direction::Right),
                GameInput::Quit => None::<Direction>,
            },
    {
        match self {
            GameInput::Up => Some(Direction::Up),
            GameInput::Down => Some(Direction::Down),
            GameInput::Left => Some(Direction::Left),
            GameInput::Right => Some(Direction::Right),
            GameInput::Quit => None,
        }
    }
}

} // verus!
