//! A two-player Pong game: the per-frame simulation (held keys, paddle and
//! ball motion, collisions, scoring, serve lifecycle) and the layout of what
//! is drawn, as plain integer logic.

pub mod config;
pub mod heading;
pub mod input;
pub mod game;
pub mod scene;
pub mod laws;

pub use heading::Heading;
pub use input::{HeldKeys, InputEvent, Key};
pub use game::{FrameAction, Game};
pub use scene::{score_label, score_rect, ScreenRect};
