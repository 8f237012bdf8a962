//! A small verified library around a `Person` record: a display name and a
//! non-negative age, with two presentation operations whose exact output
//! text is stated and proved.

pub mod decimal;
pub mod person;
