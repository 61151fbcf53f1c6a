//! Authoritative engine for a real-time territory-claiming grid game.
//!
//! Players move on a shared rectangular grid; every step claims the occupied
//! cell for the moving player, and the match ends once no neutral cell is
//! left. This crate holds the data model with its invariants, the
//! move-validation and territory-claim rules, the win-condition check, and a
//! state owner that serializes all mutations and offers a versioned
//! replacement protocol so that a remotely held state stays consistent under
//! concurrent moves. Transport, rendering and process bootstrap live outside
//! the engine and talk to it through plain values.

pub mod engine;
pub mod laws;
pub mod model;
pub mod owner;
pub mod score;
pub mod state;
pub mod types;
pub mod wire;
