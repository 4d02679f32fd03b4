//! Request validation, normalization and response shaping for a registry of
//! agent records.
//!
//! The registry's rows live in a relational store that this library never
//! touches. Each operation is split into steps: a step takes plain values (the
//! request, or what the store answered) and says what to ask the store next or
//! which response to send.

pub mod address;
pub mod timestamp;
pub mod model;
pub mod messages;
pub mod registration;
pub mod lookup;
pub mod number;
pub mod listing;
pub mod json;
