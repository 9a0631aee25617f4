//! Decision logic of a tool that tells a desktop user when a process has
//! finished: either a process that already runs and is watched until it is
//! gone, or a command that is started and waited for.
//!
//! Nothing in this crate touches the operating system. The two modes are
//! state machines: the caller performs the [`machine::Action`] that a machine
//! asks for and hands back what happened as a [`machine::Event`].

pub mod cli;
pub mod decimal;
pub mod failure;
pub mod launch;
pub mod machine;
pub mod notification;
pub mod procfs;
pub mod watch;
