//! Decision rules and size reporting for a command-line clipboard bridge.
//!
//! The library decides what one invocation of the tool does from its
//! arguments and from which standard streams are redirected, and renders
//! byte counts in binary units. Clipboard access and stream I/O are left to
//! the program that uses it.
pub mod size;
pub mod dispatch;
