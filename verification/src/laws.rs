use vstd::prelude::*;

use crate::data::PartitionV;
use crate::flight_service::{execute_post, finish_post, ExecuteResponse, ServiceView};
use crate::framing::frames_of;
use crate::registry::StatusV;

verus! {

/// The registry only ever moves forward: every key keeps its entry, and a
/// key that reached a terminal state keeps that exact state.
pub open spec fn no_regression(
    pre: Map<Seq<char>, StatusV>,
    post: Map<Seq<char>, StatusV>,
) -> bool {
    forall|k: Seq<char>| #[trigger] pre.contains_key(k) ==> {
        &&& post.contains_key(k)
        &&& (pre[k] is Completed || pre[k] is Failed) ==> post[k] == pre[k]
    }
}

/// First admission happens exactly once. A key never seen before, admitted
/// while the guard has room, moves the registry from absent to `Running`
/// and takes one guard slot; a duplicate submission of the same key right
/// after — a serialised concurrent retry — changes nothing at all and takes
/// no second slot.
pub proof fn lemma_first_admission(
    s: ServiceView,
    s1: ServiceView,
    s2: ServiceView,
    k: Seq<char>,
    r1: ExecuteResponse,
    r2: ExecuteResponse,
)
    requires
        !s.tasks.contains_key(k),
        s.current < s.limit,
        execute_post(s, s1, k, r1),
        execute_post(s1, s2, k, r2),
    ensures
        s1.tasks == s.tasks.insert(k, StatusV::Running),
        r1 is Accepted,
        s1.current == s.current + 1,
        s2 == s1,
        r2 is StillRunning,
        s2.current == s.current + 1,
{
}

/// Polling a completed key is idempotent and read-only: every poll returns
/// the framed result of the stored snapshot — the same schema message and
/// the same ordered batch bytes — and leaves the service exactly as it was.
pub proof fn lemma_poll_idempotent(
    s: ServiceView,
    s1: ServiceView,
    s2: ServiceView,
    k: Seq<char>,
    p: PartitionV,
    r1: ExecuteResponse,
    r2: ExecuteResponse,
)
    requires
        s.tasks.contains_key(k),
        s.tasks[k] == StatusV::Completed(p),
        execute_post(s, s1, k, r1),
        execute_post(s1, s2, k, r2),
    ensures
        s1 == s,
        s2 == s,
        r1 matches ExecuteResponse::Ready(f1) && f1.deep_view() == frames_of(p),
        r2 matches ExecuteResponse::Ready(f2) && f2.deep_view() == frames_of(p),
{
}

/// One `Execute` request never makes a registry entry go backwards, for
/// any key.
pub proof fn lemma_execute_no_regression(
    s: ServiceView,
    s1: ServiceView,
    k: Seq<char>,
    r: ExecuteResponse,
)
    requires
        execute_post(s, s1, k, r),
    ensures
        no_regression(s.tasks, s1.tasks),
{
}

/// Publishing a terminal outcome for a `Running` key never makes any
/// registry entry go backwards.
pub proof fn lemma_finish_no_regression(
    s: ServiceView,
    s1: ServiceView,
    k: Seq<char>,
    st: StatusV,
)
    requires
        s.tasks.contains_key(k),
        s.tasks[k] is Running,
        finish_post(s, s1, k, st),
    ensures
        no_regression(s.tasks, s1.tasks),
{
}

/// Forward-only steps compose: a whole sequence of operations, each of
/// which never regresses the registry, never regresses it either.
pub proof fn lemma_no_regression_trans(
    a: Map<Seq<char>, StatusV>,
    b: Map<Seq<char>, StatusV>,
    c: Map<Seq<char>, StatusV>,
)
    requires
        no_regression(a, b),
        no_regression(b, c),
    ensures
        no_regression(a, c),
{
}

/// Completion order is independent of submission order: two running tasks
/// with distinct keys may publish their terminal outcomes in either order,
/// and the service ends in the very same state — no component may read
/// anything into which of the two finished first.
pub proof fn lemma_completion_order_independent(
    s: ServiceView,
    a1: ServiceView,
    a12: ServiceView,
    b2: ServiceView,
    b21: ServiceView,
    k1: Seq<char>,
    k2: Seq<char>,
    st1: StatusV,
    st2: StatusV,
)
    requires
        k1 != k2,
        finish_post(s, a1, k1, st1),
        finish_post(a1, a12, k2, st2),
        finish_post(s, b2, k2, st2),
        finish_post(b2, b21, k1, st1),
    ensures
        a12 == b21,
{
    assert(a12.tasks =~= b21.tasks);
    assert(a12 =~= b21);
}

} // verus!
