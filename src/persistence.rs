//! The queries a policy may put to the persistence layer.
use vstd::prelude::*;

verus! {

/// Existence and uniqueness queries, implemented by a database or driver.
/// Both are pure: asking again gives the same answer and changes nothing.
pub trait DBConds<Target> {
    /// Whether persisted state holds a record that conflicts with `data`.
    spec fn records(&self, data: Target) -> bool;

    /// Whether no persisted record shares the identifying value of `data`.
    spec fn unique(&self, data: Target) -> bool;

    /// We can verify if `data` exists in the persistence layer.
    fn record_exists(&self, data: Target) -> (r: bool)
        ensures
            r == self.records(data),
    ;

    /// We can verify if `data` is unique in the persistence layer.
    fn is_unique(&self, data: Target) -> (r: bool)
        ensures
            r == self.unique(data),
    ;
}

} // verus!
