//! A safe, verified core for a 2D immediate-mode graphics binding:
//! color and style models, a total key-code mapping, an input-message
//! classifier with filtered polling over a message queue, a cooperative
//! frame-loop state machine, and the game logic of a falling-block demo.
//!
//! The native rendering engine itself (rasterization, fonts, window
//! management) is an external collaborator; everything here is the
//! engine-agnostic logic around it.

pub mod color;
pub mod enums;
pub mod fillstyle;
pub mod frame;
pub mod image;
pub mod input;
pub mod keycode;
pub mod linestyle;
pub mod logfont;
pub mod msg;
pub mod queue;
pub mod surface;
pub mod tetris;
