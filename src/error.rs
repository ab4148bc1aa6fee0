use vstd::prelude::*;

verus! {

/// The two kinds of failure a store reports.
///
/// Each carries the driver's message unchanged.
#[derive(Debug)]
pub enum StoreError {
    /// The database could not be reached or authenticated against, or the
    /// table could not be created.
    Connection(String),
    /// A statement issued on a live connection failed (a uniqueness
    /// violation, for instance).
    Query(String),
}

impl StoreError {
    /// The message the driver gave.
    pub fn message(&self) -> (r: &String)
        ensures
            r == match self {
                StoreError::Connection(m) => m,
                StoreError::Query(m) => m,
            },
    {
        match self {
            StoreError::Connection(m) => m,
            StoreError::Query(m) => m,
        }
    }

    pub fn is_connection(&self) -> (r: bool)
        ensures
            r == (self is Connection),
    {
        match self {
            StoreError::Connection(_) => true,
            StoreError::Query(_) => false,
        }
    }
}

} // verus!
