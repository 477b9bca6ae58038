use vstd::prelude::*;

use crate::data::{Action, LogicalPlan, PartitionV, Schema, ShuffleId, ShufflePartition};
use crate::error::ServiceError;
use crate::framing::{frames_of, copy_schema, frame_partition, Frame};
use crate::guard::ConcurrencyGuard;
use crate::registry::{StatusRegistry, StatusV, TaskStatus};
use crate::results_cache::ResultsCache;

verus! {

/// What one `Execute` request is told, keyed by the task's registry state.
///
/// `Accepted` and `StillRunning` are the distinguished "in progress" signal
/// of the poll protocol, not faults: the caller is expected to repeat the
/// same request until it sees `Ready` or `Aborted`. Only `Accepted` means
/// the service just admitted the key, so exactly that reply obliges the
/// caller to start the background runner for it.
#[derive(Debug, PartialEq, Eq)]
pub enum ExecuteResponse {
    /// The key was unknown, a concurrency slot was taken, and the key is
    /// now `Running`; the caller starts the runner and polls later.
    Accepted,
    /// The key is already `Running`; nothing changed.
    StillRunning,
    /// The key was unknown but the guard is at its bound; nothing changed.
    ResourceExhausted,
    /// The key resolved to `Failed`; the text is its stored reason.
    Aborted(String),
    /// The key resolved to `Completed`: the framed result stream.
    Ready(Vec<Frame>),
}

/// What the request handler decides for one decoded action: an immediate
/// `Execute` reply, or the executor call the caller must perform next —
/// retrieving a stored shuffle output, or running an ad-hoc query. The
/// caller feeds that call's outcome to [`fetch_shuffle_response`] or
/// [`interactive_query_response`] to finish the request.
#[derive(Debug, PartialEq, Eq)]
pub enum Handling {
    Executed(ExecuteResponse),
    NeedCollect(ShuffleId),
    NeedQuery(LogicalPlan),
}

/// Abstract state of the whole service.
#[verifier::ext_equal]
pub ghost struct ServiceView {
    /// The results cache: identifier to stored snapshot.
    pub cache: Map<Seq<char>, PartitionV>,
    /// The task status registry: task key to lifecycle state.
    pub tasks: Map<Seq<char>, StatusV>,
    /// How many tasks the concurrency guard has admitted.
    pub current: int,
    /// The guard's fixed bound.
    pub limit: int,
}

/// How one `Execute(key)` request relates the service's state before and
/// after, and the reply it returns. The transition is deterministic: the
/// registry state of the key alone decides the branch, an unknown key is
/// admitted exactly when the guard has room, and every branch but that one
/// leaves the service untouched.
pub open spec fn execute_post(
    pre: ServiceView,
    post: ServiceView,
    k: Seq<char>,
    r: ExecuteResponse,
) -> bool {
    &&& (!pre.tasks.contains_key(k) && pre.current < pre.limit ==> {
        &&& post.tasks == pre.tasks.insert(k, StatusV::Running)
        &&& post.cache == pre.cache
        &&& post.current == pre.current + 1
        &&& post.limit == pre.limit
        &&& r is Accepted
    })
    &&& (!pre.tasks.contains_key(k) && pre.current >= pre.limit ==> {
        &&& post == pre
        &&& r is ResourceExhausted
    })
    &&& (pre.tasks.contains_key(k) && pre.tasks[k] is Running ==> {
        &&& post == pre
        &&& r is StillRunning
    })
    &&& (pre.tasks.contains_key(k) && pre.tasks[k] is Failed ==> {
        &&& post == pre
        &&& r matches ExecuteResponse::Aborted(m) && m@ == pre.tasks[k]->Failed_0
    })
    &&& (pre.tasks.contains_key(k) && pre.tasks[k] is Completed ==> {
        &&& post == pre
        &&& r matches ExecuteResponse::Ready(frames) && frames.deep_view() == frames_of(
            pre.tasks[k]->Completed_0,
        )
    })
}

/// How publishing one task's terminal outcome `st` relates the service's
/// state before and after: the key's entry becomes `st` and the guard gives
/// exactly one slot back, as a single sequential cleanup.
pub open spec fn finish_post(
    pre: ServiceView,
    post: ServiceView,
    k: Seq<char>,
    st: StatusV,
) -> bool {
    &&& post.tasks == pre.tasks.insert(k, st)
    &&& post.cache == pre.cache
    &&& post.current == pre.current - 1
    &&& post.limit == pre.limit
}

/// The task-execution front door: the admission, deduplication and
/// status-tracking protocol shared by every request.
///
/// All methods take the whole service mutably or immutably; a caller that
/// serves concurrent requests serialises the calls (for instance behind one
/// mutex), which makes each one the single critical section the protocol's
/// atomicity guarantees ask for. The executor and planner collaborators are
/// driven by the caller; their outcomes enter through plain values.
pub struct BallistaFlightService {
    results_cache: ResultsCache,
    task_status_map: StatusRegistry,
    concurrent_tasks: ConcurrencyGuard,
}

impl View for BallistaFlightService {
    type V = ServiceView;

    closed spec fn view(&self) -> ServiceView {
        ServiceView {
            cache: self.results_cache@,
            tasks: self.task_status_map@,
            current: self.concurrent_tasks@.current,
            limit: self.concurrent_tasks@.limit,
        }
    }
}

impl BallistaFlightService {
    /// The service's internal invariant: each table keys its entries
    /// uniquely, and the guard's counter equals the number of `Running`
    /// registry entries — every admission is matched by exactly one later
    /// release, so the guard can never leak a slot.
    pub closed spec fn wf(&self) -> bool {
        &&& self.results_cache.wf()
        &&& self.task_status_map.wf()
        &&& self.concurrent_tasks.wf()
        &&& self.concurrent_tasks@.current == self.task_status_map.running()
    }

    /// A fresh service: empty registry, empty cache, idle guard with the
    /// given admission bound.
    pub fn new(max_concurrency: usize) -> (r: Self)
        ensures
            r.wf(),
            r@.cache == Map::<Seq<char>, PartitionV>::empty(),
            r@.tasks == Map::<Seq<char>, StatusV>::empty(),
            r@.current == 0,
            r@.limit == max_concurrency,
    {
        BallistaFlightService {
            results_cache: ResultsCache::new(),
            task_status_map: StatusRegistry::new(),
            concurrent_tasks: ConcurrencyGuard::new(max_concurrency),
        }
    }

    /// One `Execute` request for a task key: consults the registry and
    /// either admits the key through the concurrency guard or reports its
    /// current state. Re-submitting a key never admits it twice, never
    /// touches the guard again, and a completed key's framed result is
    /// returned identically on every poll.
    pub fn execute_task(&mut self, key: String) -> (r: ExecuteResponse)
        requires
            old(self).wf(),
        ensures
            final(self).wf(),
            execute_post(old(self)@, final(self)@, key@, r),
    {
        let found = self.task_status_map.get(&key);
        match found {
            None => {
                match self.concurrent_tasks.acquire() {
                    Ok(_level) => {
                        self.task_status_map.insert_running(key);
                        ExecuteResponse::Accepted
                    },
                    Err(_saturated) => ExecuteResponse::ResourceExhausted,
                }
            },
            Some(status) => match status {
                TaskStatus::Running => ExecuteResponse::StillRunning,
                TaskStatus::Failed(reason) => ExecuteResponse::Aborted(reason.clone()),
                TaskStatus::Completed(p) => ExecuteResponse::Ready(frame_partition(p)),
            },
        }
    }

    /// Publishes the background runner's terminal outcome for an admitted
    /// key and releases its concurrency slot, as one step: success stores
    /// the produced snapshot under `Completed`, failure stores the
    /// diagnostic under `Failed`. Exactly one release happens either way.
    pub fn finish_task(&mut self, key: &String, outcome: Result<ShufflePartition, String>)
        requires
            old(self).wf(),
            old(self)@.tasks.contains_key(key@),
            old(self)@.tasks[key@] is Running,
        ensures
            final(self).wf(),
            outcome matches Ok(p) ==> finish_post(
                old(self)@,
                final(self)@,
                key@,
                StatusV::Completed(p@),
            ),
            outcome matches Err(e) ==> finish_post(
                old(self)@,
                final(self)@,
                key@,
                StatusV::Failed(e@),
            ),
    {
        proof {
            self.task_status_map.lemma_running_positive(key@);
        }
        match outcome {
            Ok(p) => self.task_status_map.mark_completed(key, p),
            Err(e) => self.task_status_map.mark_failed(key, e),
        }
        self.concurrent_tasks.release();
    }

    /// Decodes nothing itself: takes one already-decoded action and decides
    /// what the service does with it. `Execute` is handled in place;
    /// `FetchShuffle` and `InteractiveQuery` name the executor call the
    /// caller performs next, with no registry interaction at all.
    pub fn handle_action(&mut self, action: Action) -> (r: Handling)
        requires
            old(self).wf(),
        ensures
            final(self).wf(),
            action matches Action::Execute(t) ==> (r matches Handling::Executed(resp)
                && execute_post(old(self)@, final(self)@, t.key@, resp)),
            action matches Action::FetchShuffle(id) ==> r == Handling::NeedCollect(id)
                && final(self)@ == old(self)@,
            action matches Action::InteractiveQuery(p) ==> r == Handling::NeedQuery(p)
                && final(self)@ == old(self)@,
    {
        match action {
            Action::Execute(task) => Handling::Executed(self.execute_task(task.key)),
            Action::FetchShuffle(id) => Handling::NeedCollect(id),
            Action::InteractiveQuery(plan) => Handling::NeedQuery(plan),
        }
    }

    /// Whether a key is currently admitted and executing. A read-only
    /// observation for the caller driving a background runner.
    pub fn task_running(&self, key: &String) -> (r: bool)
        requires
            self.wf(),
        ensures
            r == (self@.tasks.contains_key(key@) && self@.tasks[key@] is Running),
    {
        match self.task_status_map.get(key) {
            Some(status) => match status {
                TaskStatus::Running => true,
                _ => false,
            },
            None => false,
        }
    }

    /// How many tasks are admitted right now; the guard's counter.
    pub fn current_concurrency(&self) -> (r: usize)
        ensures
            r as int == self@.current,
    {
        self.concurrent_tasks.current_level()
    }

    /// Out-of-band schema lookup: the stored schema for a result
    /// identifier, or not-found. A pure read; no state transition.
    pub fn get_schema(&self, id: &String) -> (r: Result<Schema, ServiceError>)
        requires
            self.wf(),
        ensures
            self@.cache.contains_key(id@) ==> (r matches Ok(s) && s@ == self@.cache[id@].schema),
            !self@.cache.contains_key(id@) ==> r == Err::<Schema, ServiceError>(
                ServiceError::NotFound,
            ),
    {
        match self.results_cache.get(id) {
            Some(p) => Ok(copy_schema(&p.schema)),
            None => Err(ServiceError::NotFound),
        }
    }

    /// Stores a produced snapshot in the results cache under an opaque
    /// identifier. The population path sits outside this protocol; the
    /// registry and the guard are untouched.
    pub fn store_result(&mut self, id: String, result: ShufflePartition)
        requires
            old(self).wf(),
        ensures
            final(self).wf(),
            final(self)@.cache == old(self)@.cache.insert(id@, result@),
            final(self)@.tasks == old(self)@.tasks,
            final(self)@.current == old(self)@.current,
            final(self)@.limit == old(self)@.limit,
    {
        self.results_cache.insert(id, result);
    }
}

/// Finishes a `FetchShuffle` request from the executor's retrieval
/// outcome: the stored snapshot is framed as a stream, a missing one is
/// not-found. The service's state plays no part in this.
pub fn fetch_shuffle_response(collected: Option<ShufflePartition>) -> (r: Result<
    Vec<Frame>,
    ServiceError,
>)
    ensures
        collected matches Some(p) ==> r matches Ok(frames) && frames.deep_view() == frames_of(p@),
        collected is None ==> r == Err::<Vec<Frame>, ServiceError>(ServiceError::NotFound),
{
    match collected {
        Some(p) => Ok(frame_partition(&p)),
        None => Err(ServiceError::NotFound),
    }
}

/// Finishes an `InteractiveQuery` request from the executor's outcome: a
/// produced snapshot is framed as a stream, an execution error is reported
/// as the collaborator's fault with its message.
pub fn interactive_query_response(outcome: Result<ShufflePartition, String>) -> (r: Result<
    Vec<Frame>,
    ServiceError,
>)
    ensures
        outcome matches Ok(p) ==> r matches Ok(frames) && frames.deep_view() == frames_of(p@),
        outcome matches Err(e) ==> r == Err::<Vec<Frame>, ServiceError>(ServiceError::Internal(e)),
{
    match outcome {
        Ok(p) => Ok(frame_partition(&p)),
        Err(e) => Err(ServiceError::Internal(e)),
    }
}

/// Validates a flight-info request: only an `InteractiveQuery` action may
/// ask for planning; anything else is an invalid argument.
pub fn flight_info_request(action: Action) -> (r: Result<LogicalPlan, ServiceError>)
    ensures
        action matches Action::InteractiveQuery(p) ==> r == Ok::<LogicalPlan, ServiceError>(p),
        !(action is InteractiveQuery) ==> r == Err::<LogicalPlan, ServiceError>(
            ServiceError::InvalidArgument,
        ),
{
    match action {
        Action::InteractiveQuery(plan) => Ok(plan),
        _ => Err(ServiceError::InvalidArgument),
    }
}

/// Decides the reply once the caller has driven the planner collaborator
/// through its three stages in strict sequence — physical plan, requirement
/// enforcement, job graph. A stage's error is the collaborator's fault with
/// its message; success through the job graph is deliberately answered
/// "not implemented": dispatching the graph's stages across executors is
/// outside this service, and the reply must say "never available" rather
/// than "try again".
pub fn flight_info_response(planning_error: Option<String>) -> (r: ServiceError)
    ensures
        planning_error matches Some(e) ==> r == ServiceError::Internal(e),
        planning_error is None ==> r == ServiceError::Unimplemented,
{
    match planning_error {
        Some(e) => ServiceError::Internal(e),
        None => ServiceError::Unimplemented,
    }
}

} // verus!
