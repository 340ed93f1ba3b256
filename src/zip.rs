use vstd::prelude::*;
use crate::model::{fails, fed, initial, initial_side, replies, begins, resumes_first, resumes_second, terminal, wants_poll, zip_wf, SideModel, ZipModel};
use crate::poll::{Action, Outcome};

verus! {

/// One side of the adapter: the latest value of its source, whether that
/// value is still unpaired, and whether the source has finished (after which
/// it is never queried again).
#[derive(Debug)]
struct Latest<T> {
    queued: Option<T>,
    fresh: bool,
    done: bool,
}

impl<T> Latest<T> {
    closed spec fn model(self) -> SideModel<T> {
        SideModel { queued: self.queued, fresh: self.fresh, done: self.done }
    }

    fn empty() -> (r: Latest<T>)
        ensures
            r.model() == initial_side::<T>(),
    {
        Latest { queued: None, fresh: false, done: false }
    }

    /// Whether the source is to be queried in this poll.
    fn wants_poll(&self) -> (r: bool)
        ensures
            r == wants_poll(self.model()),
    {
        !self.done && (self.queued.is_none() || !self.fresh)
    }
}

/// Takes what the side's source yielded, where a query was due; returns the
/// side's freshness, or the source's failure.
fn enqueue<T, E>(side: &mut Latest<T>, outcome: Outcome<T, E>) -> (r: Result<bool, E>)
    ensures
        final(side).model() == fed(old(side).model(), outcome),
        match r {
            Ok(f) => !fails(old(side).model(), outcome) && f == final(side).fresh,
            Err(e) => fails(old(side).model(), outcome) && outcome == Outcome::<T, E>::Failed(e),
        },
{
    if side.wants_poll() {
        match outcome {
            Outcome::Ready(item) => {
                side.queued = Some(item);
                side.fresh = true;
                Ok(true)
            },
            Outcome::Done => {
                side.done = true;
                Ok(side.fresh)
            },
            Outcome::Pending => Ok(side.fresh),
            Outcome::Failed(e) => Err(e),
        }
    } else {
        Ok(side.fresh)
    }
}

/// Zips two sources by their latest values.
///
/// Each poll starts with `poll_next`, and goes on with `resume_first` and
/// `resume_second` as the returned actions ask, until an `Action::Reply`.
#[derive(Debug)]
pub struct ZipLatest<A, B> {
    first: Latest<A>,
    second: Latest<B>,
}

impl<A, B> View for ZipLatest<A, B> {
    type V = ZipModel<A, B>;

    closed spec fn view(&self) -> ZipModel<A, B> {
        ZipModel { first: self.first.model(), second: self.second.model() }
    }
}

/// An adapter with both slots empty and both sources unfinished.
pub fn new<A, B>() -> (r: ZipLatest<A, B>)
    ensures
        r@ == initial::<A, B>(),
        zip_wf(r@),
{
    ZipLatest { first: Latest::empty(), second: Latest::empty() }
}

impl<A: Clone, B: Clone> ZipLatest<A, B> {
    /// Whether the adapter has completed: no pair can come and none is due.
    fn is_terminal(&self) -> (r: bool)
        ensures
            r == terminal(self@),
    {
        let emits = self.first.queued.is_some() && self.second.queued.is_some() && (
        self.first.fresh || self.second.fresh);
        let finished = self.first.done && self.second.done || self.first.done
            && self.first.queued.is_none() || self.second.done && self.second.queued.is_none();
        finished && !emits
    }

    /// Ends a poll once both sides are refreshed.
    fn settle<E>(&mut self) -> (r: Action<(A, B), E>)
        requires
            zip_wf(old(self)@),
        ensures
            replies(old(self)@, final(self)@, r),
            zip_wf(final(self)@),
    {
        let fresh = self.first.fresh || self.second.fresh;
        let done = self.first.done && self.second.done || self.first.done
            && self.first.queued.is_none() || self.second.done && self.second.queued.is_none();
        if fresh {
            match (&self.first.queued, &self.second.queued) {
                (Some(item1), Some(item2)) => {
                    let pair = (item1.clone(), item2.clone());
                    self.first.fresh = false;
                    self.second.fresh = false;
                    return Action::Reply(Outcome::Ready(pair));
                },
                _ => {},
            }
        }
        if done {
            Action::Reply(Outcome::Done)
        } else {
            Action::Reply(Outcome::Pending)
        }
    }

    /// Starts a poll.
    pub fn poll_next<E>(&mut self) -> (r: Action<(A, B), E>)
        requires
            zip_wf(old(self)@),
        ensures
            begins(old(self)@, final(self)@, r),
            zip_wf(final(self)@),
    {
        if self.is_terminal() {
            Action::Reply(Outcome::Done)
        } else if self.first.wants_poll() {
            Action::PollFirst
        } else if self.second.wants_poll() {
            Action::PollSecond
        } else {
            self.settle()
        }
    }

    /// Goes on with a poll once the first source has yielded `outcome`.
    pub fn resume_first<E>(&mut self, outcome: Outcome<A, E>) -> (r: Action<(A, B), E>)
        requires
            zip_wf(old(self)@),
        ensures
            resumes_first(old(self)@, outcome, final(self)@, r),
            zip_wf(final(self)@),
    {
        match enqueue(&mut self.first, outcome) {
            Err(e) => Action::Reply(Outcome::Failed(e)),
            Ok(_) => {
                if self.second.wants_poll() {
                    Action::PollSecond
                } else {
                    self.settle()
                }
            },
        }
    }

    /// Ends a poll once the second source has yielded `outcome`.
    pub fn resume_second<E>(&mut self, outcome: Outcome<B, E>) -> (r: Action<(A, B), E>)
        requires
            zip_wf(old(self)@),
        ensures
            resumes_second(old(self)@, outcome, final(self)@, r),
            zip_wf(final(self)@),
    {
        match enqueue(&mut self.second, outcome) {
            Err(e) => Action::Reply(Outcome::Failed(e)),
            Ok(_) => self.settle(),
        }
    }
}

} // verus!
