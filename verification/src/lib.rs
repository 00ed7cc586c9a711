//! A real-time character action controller.
//!
//! Raw key and button events become per-action edge flags and an analog
//! direction ([`input`]); edges and animation-completion signals drive the
//! action of each character ([`action`]); sprite frames advance on a timer
//! ([`sprite_sheet`]), their clips come from tables that are checked before
//! play starts ([`clips`]); and the action decides how a character moves
//! inside the arena each tick ([`player`]). The frame times of the engine
//! reach the controller as whole milliseconds ([`clock`]).
//!
//! Time is counted in whole milliseconds, speed in world units per second
//! and position in thousandths of a world unit, so that one unit of speed
//! over one millisecond moves a character by exactly one position step.

pub mod action;
pub mod clips;
pub mod clock;
pub mod input;
pub mod player;
pub mod sprite_sheet;
