//! Resolving a value that is either given or computed on demand.
pub mod value;
pub mod when;
