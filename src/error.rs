use vstd::prelude::*;

verus! {

/// Why a textual or numeric value could not become a `Timestamp`.
#[derive(Clone, Debug, PartialEq, Eq)]
pub enum ValidationError {
    InvalidFormat { message: String },
}

/// Failure of an operation of the hosting system, such as reading a clock.
#[derive(Clone, Debug, PartialEq, Eq)]
pub struct Status {
    pub message: String,
}

pub type StatusResult<T> = Result<T, Status>;

} // verus!
