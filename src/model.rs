use vstd::prelude::*;
use crate::poll::{Action, Outcome};

verus! {

/// The state of one side: the latest value taken from its source, whether that
/// value is still unpaired, and whether the source has signalled completion.
pub struct SideModel<T> {
    pub queued: Option<T>,
    pub fresh: bool,
    pub done: bool,
}

/// The state of the whole adapter.
pub struct ZipModel<A, B> {
    pub first: SideModel<A>,
    pub second: SideModel<B>,
}

/// A fresh value is always a held value.
pub open spec fn side_wf<T>(s: SideModel<T>) -> bool {
    s.fresh ==> s.queued is Some
}

pub open spec fn zip_wf<A, B>(m: ZipModel<A, B>) -> bool {
    side_wf(m.first) && side_wf(m.second)
}

/// Both sides empty, nothing fresh, neither source finished.
pub open spec fn initial_side<T>() -> SideModel<T> {
    SideModel { queued: None, fresh: false, done: false }
}

pub open spec fn initial<A, B>() -> ZipModel<A, B> {
    ZipModel { first: initial_side(), second: initial_side() }
}

/// A side's source is queried only while it has not finished and its slot is
/// empty or already paired: a fresh value is never put at risk.
pub open spec fn wants_poll<T>(s: SideModel<T>) -> bool {
    !s.done && (s.queued is None || !s.fresh)
}

/// The side after its source was queried and yielded `o`.
pub open spec fn polled<T, E>(s: SideModel<T>, o: Outcome<T, E>) -> SideModel<T> {
    match o {
        Outcome::Ready(v) => SideModel { queued: Some(v), fresh: true, done: s.done },
        Outcome::Done => SideModel { queued: s.queued, fresh: s.fresh, done: true },
        Outcome::Pending => s,
        Outcome::Failed(_) => s,
    }
}

/// The side after `o` was handed to it: taken only where a query was due.
pub open spec fn fed<T, E>(s: SideModel<T>, o: Outcome<T, E>) -> SideModel<T> {
    if wants_poll(s) {
        polled(s, o)
    } else {
        s
    }
}

/// `o` is a failure that the side took, and so the poll's result.
pub open spec fn fails<T, E>(s: SideModel<T>, o: Outcome<T, E>) -> bool {
    wants_poll(s) && o is Failed
}

/// A pair is due: both slots hold a value and at least one of them is fresh.
pub open spec fn emits<A, B>(m: ZipModel<A, B>) -> bool {
    m.first.queued is Some && m.second.queued is Some && (m.first.fresh || m.second.fresh)
}

/// No pair can come any more: both sources finished, or one finished with
/// nothing held.
pub open spec fn finished<A, B>(m: ZipModel<A, B>) -> bool {
    (m.first.done && m.second.done) || (m.first.done && m.first.queued is None) || (
    m.second.done && m.second.queued is None)
}

/// The adapter has completed: no pair can come and none is due.
pub open spec fn terminal<A, B>(m: ZipModel<A, B>) -> bool {
    finished(m) && !emits(m)
}

/// The adapter with both freshness flags cleared.
pub open spec fn consumed<A, B>(m: ZipModel<A, B>) -> ZipModel<A, B> {
    ZipModel {
        first: SideModel { queued: m.first.queued, fresh: false, done: m.first.done },
        second: SideModel { queued: m.second.queued, fresh: false, done: m.second.done },
    }
}

/// The end of a poll, once both sides are refreshed: a pair of clones of the
/// held values when one is due (and both become stale), else completion when
/// no pair can come, else "not ready yet".
pub open spec fn replies<A: Clone, B: Clone, E>(
    pre: ZipModel<A, B>,
    post: ZipModel<A, B>,
    r: Action<(A, B), E>,
) -> bool {
    if emits(pre) {
        post == consumed(pre) && match r {
            Action::Reply(Outcome::Ready(p)) => cloned(pre.first.queued.unwrap(), p.0) && cloned(
                pre.second.queued.unwrap(),
                p.1,
            ),
            _ => false,
        }
    } else if finished(pre) {
        post == pre && r == Action::<(A, B), E>::Reply(Outcome::Done)
    } else {
        post == pre && r == Action::<(A, B), E>::Reply(Outcome::Pending)
    }
}

/// A poll begins: once the adapter has completed it replies completion again
/// and queries nothing; otherwise the first source is queried if due, else the
/// second, else the poll ends at once.
pub open spec fn begins<A: Clone, B: Clone, E>(
    pre: ZipModel<A, B>,
    post: ZipModel<A, B>,
    r: Action<(A, B), E>,
) -> bool {
    if terminal(pre) {
        post == pre && r == Action::<(A, B), E>::Reply(Outcome::Done)
    } else if wants_poll(pre.first) {
        post == pre && r == Action::<(A, B), E>::PollFirst
    } else if wants_poll(pre.second) {
        post == pre && r == Action::<(A, B), E>::PollSecond
    } else {
        replies(pre, post, r)
    }
}

/// The first source yielded `o`: a failure ends the poll with that failure;
/// otherwise the second source is queried if due, else the poll ends.
pub open spec fn resumes_first<A: Clone, B: Clone, E>(
    pre: ZipModel<A, B>,
    o: Outcome<A, E>,
    post: ZipModel<A, B>,
    r: Action<(A, B), E>,
) -> bool {
    let mid = ZipModel { first: fed(pre.first, o), second: pre.second };
    if fails(pre.first, o) {
        post == mid && r == Action::<(A, B), E>::Reply(Outcome::Failed(o->Failed_0))
    } else if wants_poll(mid.second) {
        post == mid && r == Action::<(A, B), E>::PollSecond
    } else {
        replies(mid, post, r)
    }
}

/// The second source yielded `o`: a failure ends the poll with that failure;
/// otherwise the poll ends.
pub open spec fn resumes_second<A: Clone, B: Clone, E>(
    pre: ZipModel<A, B>,
    o: Outcome<B, E>,
    post: ZipModel<A, B>,
    r: Action<(A, B), E>,
) -> bool {
    let mid = ZipModel { first: pre.first, second: fed(pre.second, o) };
    if fails(pre.second, o) {
        post == mid && r == Action::<(A, B), E>::Reply(Outcome::Failed(o->Failed_0))
    } else {
        replies(mid, post, r)
    }
}

} // verus!
