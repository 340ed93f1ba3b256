use vstd::prelude::*;

verus! {

/// What one query of a source yields, and what one poll of the adapter
/// yields: a new item, completion, "not ready yet", or a failure.
#[derive(Debug)]
pub enum Outcome<T, E> {
    Ready(T),
    Done,
    Pending,
    Failed(E),
}

/// What the adapter asks of its caller during a poll.
#[derive(Debug)]
pub enum Action<T, E> {
    /// Query the first source once and hand the outcome to `resume_first`.
    PollFirst,
    /// Query the second source once and hand the outcome to `resume_second`.
    PollSecond,
    /// The poll is over: this is its result.
    Reply(Outcome<T, E>),
}

} // verus!
