//! Peano arithmetic as a closed, verified relation system.
//!
//! A natural number is a closed recursive value: `Zero`, or the `Successor`
//! of another natural number; the nesting depth of `Successor` is the number
//! denoted. Addition, truncated subtraction and multiplication are recursive
//! relations over that domain, and the four order relations are all derived
//! from the partiality of subtraction. Every relation comes with a proved
//! characterisation in terms of the number a value denotes, so a proposition
//! over the domain holds precisely when the verifier accepts it.

pub mod natural;
pub mod arithmetic;
pub mod ordering;
pub mod laws;
pub mod ratio;
