//! A local, single-user credential vault: named secrets, the rules of their
//! storage and retrieval, the policy of the password generator and the order in
//! which clipboard mechanisms are tried.
//!
//! But for the drawing of random passwords and the lookup of the platform's
//! data directory, everything here works on plain values. Reading and writing
//! the files of the vault directory, spawning clipboard helpers and parsing the
//! command line are left to the program that uses this library.

pub mod clipboard;
pub mod command;
pub mod directory;
pub mod entry;
pub mod generator;
pub mod store;
pub mod vault;
