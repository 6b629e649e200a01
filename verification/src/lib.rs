//! Two small verified building blocks: the sum of a slice of `i32` values and
//! a `Person` record that can introduce itself.

pub mod person;
pub mod sum;

pub use person::Person;
pub use sum::calculate_sum;
