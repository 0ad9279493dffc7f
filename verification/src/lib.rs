//! dotsync: keeps dotfiles in a git repository and restores them on other machines.
//!
//! The library holds the decisions of every command as state machines that ask
//! for one effect at a time (a file-system call, a git run, a prompt) and are told
//! what came of it; the program around the library performs the effects.
pub mod add;
pub mod clone_repo;
pub mod config;
pub mod copy;
pub mod diff;
pub mod effect;
pub mod env;
pub mod error;
pub mod init;
pub mod path;
pub mod pull;
pub mod push;
pub mod remote;
pub mod resolve;
pub mod session;
pub mod restore;
pub mod store;
pub mod sync;
pub mod text;

use vstd::prelude::*;

verus! {

} // verus!
