//! A terminal pong game for two local players: the rules of the game
//! (input mapping, scoring, the ball trail, the paddles' reach, the tick
//! schedule and the play-field geometry), each stated and proved.

pub mod input;
pub mod pong;
pub mod layout;
pub mod app;
