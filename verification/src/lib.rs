//! A mailbox presented as a file tree: labels are the directories, messages are the files.
//!
//! The library decides and computes; it reads no file, opens no connection and prints
//! nothing. A run of a command is a sequence of turns ([`cli::start`], then [`cli::step`]):
//! each turn hands out the lines to print and the one thing to do next, and takes what came
//! of it. The program around the library does those things and nothing else.
//!
//! - [`auth`]: the stored bearer token and its place on disk.
//! - [`gmail`]: the provider's interface: the requests to make, the replies read.
//! - [`filesystem`]: the same under the names of a file tree.
//! - [`cli`]: the commands, turn by turn.
//! - [`render`]: what the commands print.
//! - [`error`]: the ways in which a command can fail.
//! - [`percent`], [`base64url`], [`text`]: encodings and text helpers.
//!
//! The contracts speak of the mathematical values of the data (`@`); what they promise
//! together is stated in the proof functions whose names begin with `lemma_`. Two things are
//! taken on trust from the standard library, and marked where they stand: what
//! `String::push` and `String::from_utf8` do.

pub mod auth;
pub mod base64url;
pub mod cli;
pub mod error;
pub mod filesystem;
pub mod gmail;
pub mod percent;
pub mod render;
pub mod text;
