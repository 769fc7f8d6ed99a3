//! Terminal control for a snake game: escape-sequence encoding, text
//! styling, a cursor and screen over a byte sink, and a shared screen whose
//! guard brackets each drawing transaction with a cursor save and restore;
//! and the game's components, which draw through it.
pub mod component;
pub mod game_input;
pub mod layout;
pub mod terminus;
