//! Incremental single-seat state tracker for a riichi tile game.
//!
//! The tracker consumes one protocol event at a time, keeps a complete view
//! of the tracked seat's concealed hand, every seat's discards and melds, and
//! the cross-cutting legality flags (furiten, riichi windows, kan counts),
//! and derives after each event the exact set of actions the seat may take.

pub mod action;
pub mod eval;
pub mod event;
pub mod laws;
pub mod ops;
pub mod render;
pub mod resolver;
pub mod state;
pub mod tile;
pub mod validator;
