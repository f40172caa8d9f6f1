//! TimeUp: the window-effect, colour-mode and configuration rules of a small
//! desktop task tool, and the state machines of its user interface.

pub mod localdata;
pub mod prodata;
pub mod window;
pub mod frontend;
pub mod components;
