//! The syntactic units that the parser works on.

pub mod operator;
pub mod token;
