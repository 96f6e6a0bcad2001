//! Core of a spaced-repetition vocabulary trainer.
//!
//! The library holds the verified logic: the SuperMemo-2 memory-state
//! update (`sm2`), the data model for words and per-word learning
//! progress (`models`), and the review-session state machine (`review`).
//! Everything that talks to a terminal or a database lives outside and
//! hands the library plain values.

pub mod common;
pub mod components;
pub mod dictionary;
pub mod event;
pub mod history;
pub mod models;
pub mod review;
pub mod screen;
pub mod sm2;
pub mod wordbook;
mod strutil;
