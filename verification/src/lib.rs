//! Deferred, stack-safe composition of single-use transformation steps.
//!
//! A [`Morphism`] holds an ordered sequence of steps and behaves as one
//! composed transformation. Steps can be attached at the front
//! ([`Morphism::head`]) or at the back ([`Morphism::tail`]), two chains can
//! be concatenated ([`Morphism::then`]), and the whole chain is evaluated in
//! a single iterative pass ([`Morphism::run`]) whose stack use does not grow
//! with the number of steps.

pub mod chain;
pub mod laws;
pub mod steps;

pub use chain::eval;
pub use chain::Morphism;
pub use chain::Step;
