//! Zero-knowledge two-player games: a Groth16 verifier over BLS12-381 and the
//! state machines of a battleship game and a trading-card combat game.
pub mod curve;
pub mod groth16;
pub mod inputs;
pub mod ledger;
pub mod battleship;
pub mod laws;
pub mod tcg;
