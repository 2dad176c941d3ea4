//! Window inspection for a desktop with Win32-style windows: the rules of
//! the library, free of any call into the operating system.
//!
//! Every function here takes what the platform layer has observed as plain
//! values and says what follows from it: which call to make next, which
//! value to hand to the caller, which error to report. The heart of it is
//! [`find::HwndGetterWithCache`], the bounded cache that stands in front of
//! the window finder.

pub mod class_title;
pub mod command;
pub mod entries;
pub mod error;
pub mod find;
pub mod foreground;
pub mod position_size;
pub mod process;
pub mod resolution;
pub mod store;
pub mod top_most;
pub mod wide;
