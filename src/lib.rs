//! Decision core of a price-step trading strategy.
//!
//! Prices are held as whole micro-dollars (millionths of a US dollar) and
//! position sizes as lamports (billionths of a SOL), so every rule below is
//! exact integer arithmetic.
pub mod strategy;
pub mod pointer;
pub mod hand;
pub mod lock;
pub mod errors;
pub mod priority;
pub mod swap;
pub mod tick;
