//! A value cell that is written from one side of a language boundary and
//! watched from the other.
//!
//! The owner of a [`Readable`] reads the value through a shared reference and
//! changes it through an exclusive one. Observers never see the value itself:
//! they receive what a [`Projection`] makes of it, through a publish function
//! that the host's store hands to the cell when the first observer arrives.
//! Until then a change updates the value and tells nobody.

pub mod laws;
pub mod model;
pub mod projection;
pub mod readable;

pub use model::Snapshot;
pub use projection::{CloneInto, Projection};
pub use readable::Readable;
