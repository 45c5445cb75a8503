//! Extensible abstract syntax trees for a simply-typed lambda calculus.
//!
//! One expression family is indexed by a descriptor that picks, for every
//! constructor, the extra data that rides along with it, and the payload of
//! one open constructor. Algorithms are written once against the family.

pub mod checker;
pub mod decimal;
pub mod env;
pub mod exp;
pub mod printer;
pub mod typ;
