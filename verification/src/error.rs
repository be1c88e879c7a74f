//! The error a configuration build can end in.

use vstd::prelude::*;

verus! {

/// Finalizing a configuration fails only when a field was never given a
/// value; the payload names the missing field.
#[derive(Debug)]
pub enum ConfigurationError {
    MissingValue(String),
}

impl ConfigurationError {
    /// The name of the field the error reports as missing.
    pub fn field_name(&self) -> (r: &str)
        ensures
            self matches ConfigurationError::MissingValue(f) && r@ == f@,
    {
        match self {
            ConfigurationError::MissingValue(f) => f.as_str(),
        }
    }
}

} // verus!
