//! Planning layer of the `c2rust-xw` front end: it decides which `c2rust-*`
//! tool runs, with which arguments and extra environment, where the tools and
//! support files of an installation lie, and what is reported when something
//! is missing. Reading the environment, probing the file system and spawning
//! processes are left to the caller, which hands the results in as values.

pub mod platform;
pub mod path;
pub mod install;
pub mod command;
pub mod launch;
pub mod laws;
pub mod layout;
