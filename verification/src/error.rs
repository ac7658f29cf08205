//! The shared error contract of the solver engines.

use vstd::prelude::*;

verus! {

/// Why a `solve` call (or a solver construction) failed.
#[derive(Debug)]
pub enum SolverError {
    /// A dimension mismatch or a wrong structural assumption, detected
    /// before any mutation; the payload names the violated assumption.
    IncompatibleMatrixFormat(String),
    /// An unrecoverable near-zero denominator at the given iteration.
    BreakDown(usize),
    /// The iteration budget was exhausted without meeting the tolerance.
    InsufficientIterNum(usize),
}

/// The result of every fallible solver operation.
pub type SolveResult<T> = Result<T, SolverError>;

} // verus!
