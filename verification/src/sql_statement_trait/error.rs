//! The errors of the statement trait.
use vstd::prelude::*;

verus! {

/// Why a statement could not be made.
#[derive(Debug, PartialEq, Eq)]
pub enum Error {
    InvalidInput(String),
    SqlError(String),
    InvalidFieldName(String),
}

} // verus!
