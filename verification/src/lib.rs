//! Writes a piece of source text to a target path and has `rustfmt` format it.
//!
//! The library holds every decision of that job: how the command line is
//! read into a [`config::Config`], where the text is written, how the
//! formatter is found and called, and what is reported. The file system and
//! the child processes stay with the caller, who performs each
//! [`session::Action`] and answers with a [`session::Event`].

pub mod config;
pub mod failure;
pub mod formatter;
pub mod session;
pub mod target;
pub mod text;
