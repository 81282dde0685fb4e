//! A terminal notepad shell: a menu with wraparound selection, a tail-append
//! text buffer, a soft-wrap cursor layout, and the screen state machine that
//! ties them together. Rendering and terminal I/O live outside this crate.

pub mod buffer;
pub mod machine;
pub mod menu;
pub mod wrap;
