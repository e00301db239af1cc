use vstd::prelude::*;

verus! {

/// What one unit of a service's work yields: a value, a request to keep going,
/// or a request to stop.
#[derive(Debug, Clone, PartialEq, Eq)]
pub enum Step<T> {
    /// The unit of work produced a value for the service's consumer.
    Item(T),
    /// The unit of work produced nothing; the service keeps running.
    Continue,
    /// The service completes.
    Break,
}

} // verus!
