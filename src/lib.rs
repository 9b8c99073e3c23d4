//! A tiny register machine whose program is assembled by dropping instruction
//! cards into a fixed playfield, together with the immediate-mode interaction
//! model that drives its buttons and card dragging.

pub mod engine;
pub mod game;
pub mod geometry;
pub mod input;
mod rng;
pub mod ui;
pub mod value;

pub use game::{clamp_scroll_offset, hand_height, Card, Game};
pub use geometry::{inside_rect, Color, Point, Rect, Size};
pub use input::{Event, KeyCode};
pub use ui::{ButtonSpec, UIContext, UiId};
pub use value::{get_instructions, to_register, Data, Instruction, Register, PLAYFIELD_SIZE};
