//! Errors reported by the driver.

use vstd::prelude::*;
use vstd::std_specs::convert::FromSpecImpl;

verus! {

/// An error interacting with a monitor.
///
/// `E` is the error type of the bus that carries the transactions.
#[derive(Debug, PartialEq, Eq)]
pub enum Error<E> {
    /// The device did not identify itself as an INA233.
    Verification,
    /// A bus transaction failed; the bus error is passed on untouched.
    Communication(E),
}

/// The error of a failed bus transaction becomes a communication error.
impl<E> From<E> for Error<E> {
    fn from(value: E) -> (r: Self) {
        Error::Communication(value)
    }
}

impl<E> FromSpecImpl<E> for Error<E> {
    open spec fn obeys_from_spec() -> bool {
        true
    }

    open spec fn from_spec(value: E) -> Self {
        Error::Communication(value)
    }
}

} // verus!
