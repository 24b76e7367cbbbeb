//! Verified core of `epifetch`, a command-line client for the Epitech intranet
//! and for the Blih repository service: request building and signing, the
//! command dispatch, and the text of every table that the client shows.

pub mod blih;
pub mod cli;
pub mod data;
pub mod signing;
pub mod table;
pub mod text;
