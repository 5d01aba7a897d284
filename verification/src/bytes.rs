//! Concrete matchers and tokens over byte input.

pub mod matchers;
pub mod token;
