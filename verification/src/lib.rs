//! Game-rules engine for single-player blackjack ("Twenty-One").
//!
//! The engine is split into the card/deck/hand model, the hand-scoring
//! algorithm with soft/hard ace valuation, and the round state machine that
//! governs dealing, standing, dealer auto-play and outcome resolution.
//! Presentation (rendering, window lifecycle, timers) lives outside this
//! crate; the engine only exposes the data and predicates it needs.

pub mod card;
pub mod deck;
pub mod hand;
pub mod round;
pub mod theme;
