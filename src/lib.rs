//! Core of a game-console GPU emulator: the authoritative video memory, the
//! decoders for packed command words, the tracker of regions that live in the
//! accelerated render target, the translation of semi-transparency modes and
//! the state of the drawing context.

pub mod pixel;
pub mod decode;
pub mod vram;
pub mod region;
pub mod blend;
pub mod context;
