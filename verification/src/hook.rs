//! Watching the host: which application is in front, which window the pointer
//! is over, and the input tap.

pub mod foreground;
pub mod laws;
pub mod pointer;
pub mod pointer_laws;
pub mod tap;
pub mod x11;
