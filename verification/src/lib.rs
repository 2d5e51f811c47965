//! Elevated process launching: a command builder, the argument encoding that
//! each platform's elevation mechanism expects, and the launch request that is
//! handed to the operating system.

pub mod command;
pub mod error;
pub mod escape;
pub mod impl_darwin;
pub mod impl_unix;
pub mod impl_windows;
pub mod tokenize;
pub mod wide;

pub use command::{Command, CommandView, Launch, Platform};
pub use error::LaunchError;
pub use escape::{escape_arg, escape_args};
pub use tokenize::split_args;
