use ballista::data::{Action, DataType, Field, LogicalPlan, Schema, ShuffleId, ShufflePartition, Task};
use ballista::error::ServiceError;
use ballista::flight_service::{
    fetch_shuffle_response, flight_info_request, flight_info_response, interactive_query_response,
    BallistaFlightService, ExecuteResponse, Handling,
};
use ballista::framing::Frame;
use ballista::guard::ConcurrencyGuard;

fn small_partition() -> ShufflePartition {
    ShufflePartition {
        schema: Schema {
            fields: vec![Field {
                name: "v".to_string(),
                data_type: DataType::Int64,
                nullable: true,
            }],
        },
        data: vec![vec![7u8]],
    }
}

#[test]
fn handle_action_dispatches_each_action() {
    let mut svc = BallistaFlightService::new(1);
    let task = Task { key: "t1".to_string(), plan: LogicalPlan { encoded: vec![1u8] } };
    assert_eq!(
        svc.handle_action(Action::Execute(task)),
        Handling::Executed(ExecuteResponse::Accepted)
    );
    let id = ShuffleId { job_id: 1, stage_id: 2, partition_id: 3 };
    assert_eq!(svc.handle_action(Action::FetchShuffle(id)), Handling::NeedCollect(id));
    let plan = LogicalPlan { encoded: vec![9u8, 9] };
    assert_eq!(
        svc.handle_action(Action::InteractiveQuery(plan.clone())),
        Handling::NeedQuery(plan)
    );
    // Neither of the two executor-bound actions touched the registry.
    assert!(svc.task_running(&"t1".to_string()));
    assert_eq!(svc.current_concurrency(), 1);
}

#[test]
fn fetch_shuffle_miss_is_not_found() {
    assert_eq!(fetch_shuffle_response(None), Err(ServiceError::NotFound));
}

#[test]
fn fetch_shuffle_hit_frames_the_snapshot() {
    let frames = fetch_shuffle_response(Some(small_partition())).unwrap();
    assert_eq!(
        frames,
        vec![
            Frame::Schema(Schema {
                fields: vec![Field {
                    name: "v".to_string(),
                    data_type: DataType::Int64,
                    nullable: true,
                }],
            }),
            Frame::Batch(vec![7u8]),
        ]
    );
}

#[test]
fn interactive_query_outcomes() {
    let frames = interactive_query_response(Ok(small_partition())).unwrap();
    assert_eq!(frames.len(), 2);
    assert_eq!(
        interactive_query_response(Err("planner exploded".to_string())),
        Err(ServiceError::Internal("planner exploded".to_string()))
    );
}

#[test]
fn flight_info_only_accepts_interactive_query() {
    let plan = LogicalPlan { encoded: vec![3u8] };
    assert_eq!(flight_info_request(Action::InteractiveQuery(plan.clone())), Ok(plan));
    let id = ShuffleId { job_id: 0, stage_id: 0, partition_id: 0 };
    assert_eq!(
        flight_info_request(Action::FetchShuffle(id)),
        Err(ServiceError::InvalidArgument)
    );
    let task = Task { key: "k".to_string(), plan: LogicalPlan { encoded: vec![] } };
    assert_eq!(
        flight_info_request(Action::Execute(task)),
        Err(ServiceError::InvalidArgument)
    );
}

#[test]
fn flight_info_reply_after_planning() {
    assert_eq!(flight_info_response(None), ServiceError::Unimplemented);
    assert_eq!(
        flight_info_response(Some("bad plan".to_string())),
        ServiceError::Internal("bad plan".to_string())
    );
}

#[test]
fn guard_counts_up_and_down() {
    let mut guard = ConcurrencyGuard::new(2);
    assert_eq!(guard.current_level(), 0);
    assert_eq!(guard.acquire(), Ok(1));
    assert_eq!(guard.acquire(), Ok(2));
    assert_eq!(guard.acquire(), Err(ServiceError::ResourceExhausted));
    assert_eq!(guard.current_level(), 2);
    guard.release();
    assert_eq!(guard.current_level(), 1);
    assert_eq!(guard.acquire(), Ok(2));
}

#[test]
fn zero_limit_guard_rejects_everything() {
    let mut svc = BallistaFlightService::new(0);
    assert_eq!(svc.execute_task("t".to_string()), ExecuteResponse::ResourceExhausted);
    assert!(!svc.task_running(&"t".to_string()));
    assert_eq!(svc.current_concurrency(), 0);
}
