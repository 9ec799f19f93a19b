//! The state and rendering core of a four-pane, screen-resident text editor.
//!
//! A [`Document`](document::Document) owns one pane's page of text, its cursor
//! and its scroll position. A [`UserInterface`](interface::UserInterface) owns
//! four documents, remembers which one is active and feeds it the buffered
//! input. Neither draws anything: each operation returns the cell writes
//! ([`Plot`](display::Plot)) that bring the display up to date.

pub mod chrome;
pub mod command;
pub mod display;
pub mod document;
pub mod interface;
pub mod keys;

pub use command::Command;
pub use display::{is_drawable, Color, ColorCode, Plot, BUFFER_HEIGHT, BUFFER_WIDTH};
pub use document::Document;
pub use interface::UserInterface;
pub use keys::{DecodedKey, KeyCode};
