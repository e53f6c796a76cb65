//! A playground of small routines behind a menu: a score classifier, an
//! address renderer, token accounting for chat messages, two units of
//! background work, and a handful of walks through bindings, control flow,
//! closures, optional values, ownership, texts and pointers.
//!
//! Every routine works on plain values and hands back the lines it has to
//! show. Reading answers, printing lines and scheduling the background work
//! are left to the caller.

pub mod access_point;
pub mod bindings;
pub mod chars;
pub mod closures;
pub mod decimal;
pub mod flow;
pub mod generics;
pub mod menu;
pub mod ownership;
pub mod pointers;
pub mod score;
pub mod strings;
pub mod tasks;
pub mod tokens;
