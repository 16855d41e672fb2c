use vstd::prelude::*;

verus! {

/// Errors of the aggregate layer.
#[derive(Debug)]
pub enum DataFusionError {
    /// An internal invariant of the engine was broken.
    Internal(String),
}

/// The result type of the aggregate layer.
pub type Result<T> = std::result::Result<T, DataFusionError>;

} // verus!
