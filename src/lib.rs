//! Small utilities: an ordered container with verified transforms, a
//! value-or-computation resolver with a conditional built on it, and a
//! string-keyed attribute bag of JSON values.
pub mod collection;
pub mod helpers;
pub mod fluent;
pub mod json;

pub use collection::Collection;
pub use fluent::Fluent;
pub use helpers::value::{value, IntoCondition, IntoValueOrFn, ValueOrFn};
