use vstd::prelude::*;

pub mod config;
pub mod error;
pub mod laws;
pub mod sql;
pub mod table;

verus! {

use crate::error::StoreError;

/// Entry point of the program: there is no work of its own to do yet, so it
/// always succeeds.
pub fn run() -> (r: Result<(), StoreError>)
    ensures
        r is Ok,
{
    Ok(())
}

} // verus!
