use vstd::prelude::*;
use crate::model::{
    begins, fails, fed, initial, replies, resumes_first, resumes_second, side_wf, terminal,
    wants_poll, zip_wf, SideModel, ZipModel,
};
use crate::poll::{Action, Outcome};

verus! {

/// `r` emits a pair whose first component is a clone of `v`.
pub open spec fn pairs_first<A: Clone, B, E>(v: A, r: Action<(A, B), E>) -> bool {
    match r {
        Action::Reply(Outcome::Ready(p)) => cloned(v, p.0),
        _ => false,
    }
}

/// `r` emits a pair whose second component is a clone of `v`.
pub open spec fn pairs_second<A, B: Clone, E>(v: B, r: Action<(A, B), E>) -> bool {
    match r {
        Action::Reply(Outcome::Ready(p)) => cloned(v, p.1),
        _ => false,
    }
}

/// Every fresh value is still held after the step, and is either still fresh
/// or part of the pair that the step emits.
pub open spec fn keeps_fresh<A: Clone, B: Clone, E>(
    pre: ZipModel<A, B>,
    post: ZipModel<A, B>,
    r: Action<(A, B), E>,
) -> bool {
    (pre.first.fresh ==> post.first.queued == pre.first.queued && (post.first.fresh || pairs_first(
        pre.first.queued.unwrap(),
        r,
    ))) && (pre.second.fresh ==> post.second.queued == pre.second.queued && (post.second.fresh
        || pairs_second(pre.second.queued.unwrap(), r)))
}


/// A value that is fresh, i.e. not yet part of any emitted pair, is never
/// discarded: no step of a poll overwrites it or clears its freshness without
/// emitting a pair that carries it.
pub proof fn law_fresh_value_is_paired_before_dropped<A: Clone, B: Clone, E>(
    pre: ZipModel<A, B>,
    post: ZipModel<A, B>,
    r: Action<(A, B), E>,
    o1: Outcome<A, E>,
    o2: Outcome<B, E>,
)
    requires
        zip_wf(pre),
    ensures
        begins(pre, post, r) ==> keeps_fresh(pre, post, r),
        resumes_first(pre, o1, post, r) ==> keeps_fresh(pre, post, r),
        resumes_second(pre, o2, post, r) ==> keeps_fresh(pre, post, r),
{
}

/// Once a poll has signalled completion, the adapter stays complete: every
/// later poll replies completion at once, without querying either source, so
/// neither a pair, nor "not ready yet", nor a failure ever follows.
pub proof fn law_completion_is_final<A: Clone, B: Clone, E>(
    pre: ZipModel<A, B>,
    post: ZipModel<A, B>,
    r: Action<(A, B), E>,
)
    requires
        zip_wf(pre),
    ensures
        replies(pre, post, r) && r == Action::<(A, B), E>::Reply(Outcome::Done) ==> terminal(post),
        terminal(pre) && begins(pre, post, r) ==> post == pre && r == Action::<(A, B),
            E>::Reply(Outcome::Done),
{
}

/// A side that holds a fresh value is not queried, and an outcome handed to
/// it leaves it as it was: the value cannot be overwritten before it is
/// paired.
pub proof fn law_fresh_slot_is_not_queried<T, E>(s: SideModel<T>, o: Outcome<T, E>)
    requires
        side_wf(s),
        s.fresh,
    ensures
        !wants_poll(s),
        fed(s, o) == s,
        !fails(s, o),
{
}

/// A first source that finishes before yielding anything ends the zip in its
/// first poll, whatever the second source yields, unless that fails.
pub proof fn law_empty_first_source_ends_zip<A: Clone, B: Clone, E>(
    m1: ZipModel<A, B>,
    m2: ZipModel<A, B>,
    r1: Action<(A, B), E>,
    r2: Action<(A, B), E>,
    o2: Outcome<B, E>,
)
    requires
        resumes_first(initial(), Outcome::<A, E>::Done, m1, r1),
        resumes_second(m1, o2, m2, r2),
        !(o2 is Failed),
    ensures
        r1 == Action::<(A, B), E>::PollSecond,
        r2 == Action::<(A, B), E>::Reply(Outcome::Done),
        terminal(m2),
{
}

/// A second source that finishes before yielding anything ends the zip in its
/// first poll, whatever the first source yields, unless that fails.
pub proof fn law_empty_second_source_ends_zip<A: Clone, B: Clone, E>(
    m1: ZipModel<A, B>,
    m2: ZipModel<A, B>,
    r1: Action<(A, B), E>,
    r2: Action<(A, B), E>,
    o1: Outcome<A, E>,
)
    requires
        resumes_first(initial(), o1, m1, r1),
        resumes_second(m1, Outcome::<B, E>::Done, m2, r2),
        !(o1 is Failed),
    ensures
        r1 == Action::<(A, B), E>::PollSecond,
        r2 == Action::<(A, B), E>::Reply(Outcome::Done),
        terminal(m2),
{
}

} // verus!
