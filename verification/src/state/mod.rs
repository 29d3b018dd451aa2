//! The two kinds of persistent record.

pub mod contributor;
pub mod global;

pub use contributor::Contribution;
pub use global::State;
