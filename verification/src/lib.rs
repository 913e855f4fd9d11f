//! A tour of the language in small verified pieces.
//!
//! Every module takes one topic: bindings and control flow, ownership,
//! borrowing and slices, structs, enums, error handling, modules, a guessing
//! game, and the standard collections. Each function states what it computes
//! in its contract.

pub mod collections;
pub mod concepts;
pub mod enums;
pub mod error_handling;
pub mod guessing_game;
pub mod ownership;
pub mod references;
pub mod restaurant;
pub mod structs;
pub mod text;
