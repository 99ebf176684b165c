//! Just an [`Error`] with its location, an optional message and a chain of causes.

pub mod error;
pub mod laws;
pub mod location;
pub mod propagate;

pub use error::{Cause, ChainIter, Error, ErrorView};
pub use location::{Location, LocationView};
pub use propagate::{ensure, raise, Wrap};
