use ballista::data::{DataType, Field, Schema, ShufflePartition};
use ballista::error::ServiceError;
use ballista::flight_service::{BallistaFlightService, ExecuteResponse};
use ballista::framing::Frame;

fn field(name: &str) -> Field {
    Field { name: name.to_string(), data_type: DataType::Utf8, nullable: false }
}

fn sample_partition() -> ShufflePartition {
    ShufflePartition {
        schema: Schema { fields: vec![field("shuffle_id"), field("rows")] },
        data: vec![vec![1u8, 2, 3], vec![4u8, 5]],
    }
}

#[test]
fn admit_then_poll_until_ready() {
    let mut svc = BallistaFlightService::new(1);
    assert_eq!(svc.execute_task("t1".to_string()), ExecuteResponse::Accepted);
    assert_eq!(svc.current_concurrency(), 1);
    // An immediate poll reports the in-progress signal.
    assert_eq!(svc.execute_task("t1".to_string()), ExecuteResponse::StillRunning);
    // The background runner finishes successfully.
    svc.finish_task(&"t1".to_string(), Ok(sample_partition()));
    assert_eq!(svc.current_concurrency(), 0);
    // The poll now yields the schema message plus one message per batch.
    let expected = vec![
        Frame::Schema(Schema { fields: vec![field("shuffle_id"), field("rows")] }),
        Frame::Batch(vec![1u8, 2, 3]),
        Frame::Batch(vec![4u8, 5]),
    ];
    match svc.execute_task("t1".to_string()) {
        ExecuteResponse::Ready(frames) => assert_eq!(frames, expected),
        other => panic!("expected Ready, got {:?}", other),
    }
}

#[test]
fn saturated_guard_rejects_second_key() {
    let mut svc = BallistaFlightService::new(1);
    assert_eq!(svc.execute_task("t1".to_string()), ExecuteResponse::Accepted);
    assert_eq!(svc.execute_task("t2".to_string()), ExecuteResponse::ResourceExhausted);
    // The first task is still running; the rejected key left no trace.
    assert!(svc.task_running(&"t1".to_string()));
    assert!(!svc.task_running(&"t2".to_string()));
    assert_eq!(svc.execute_task("t1".to_string()), ExecuteResponse::StillRunning);
}

#[test]
fn failed_task_reports_reason_and_releases_once() {
    let mut svc = BallistaFlightService::new(4);
    assert_eq!(svc.execute_task("t2".to_string()), ExecuteResponse::Accepted);
    assert_eq!(svc.current_concurrency(), 1);
    svc.finish_task(&"t2".to_string(), Err("internal fault".to_string()));
    assert_eq!(svc.current_concurrency(), 0);
    assert_eq!(
        svc.execute_task("t2".to_string()),
        ExecuteResponse::Aborted("internal fault".to_string())
    );
    // Polling the failed key again neither re-admits nor touches the guard.
    assert_eq!(
        svc.execute_task("t2".to_string()),
        ExecuteResponse::Aborted("internal fault".to_string())
    );
    assert_eq!(svc.current_concurrency(), 0);
}

#[test]
fn guard_sequence_fills_rejects_and_reopens() {
    let mut svc = BallistaFlightService::new(3);
    assert_eq!(svc.execute_task("a".to_string()), ExecuteResponse::Accepted);
    assert_eq!(svc.execute_task("b".to_string()), ExecuteResponse::Accepted);
    assert_eq!(svc.execute_task("c".to_string()), ExecuteResponse::Accepted);
    // One more admission before any release is rejected.
    assert_eq!(svc.execute_task("d".to_string()), ExecuteResponse::ResourceExhausted);
    // After one release, one more admission succeeds.
    svc.finish_task(&"b".to_string(), Ok(sample_partition()));
    assert_eq!(svc.execute_task("d".to_string()), ExecuteResponse::Accepted);
}

#[test]
fn polling_completed_is_byte_identical() {
    let mut svc = BallistaFlightService::new(2);
    assert_eq!(svc.execute_task("t1".to_string()), ExecuteResponse::Accepted);
    svc.finish_task(&"t1".to_string(), Ok(sample_partition()));
    let first = match svc.execute_task("t1".to_string()) {
        ExecuteResponse::Ready(frames) => frames,
        other => panic!("expected Ready, got {:?}", other),
    };
    let second = match svc.execute_task("t1".to_string()) {
        ExecuteResponse::Ready(frames) => frames,
        other => panic!("expected Ready, got {:?}", other),
    };
    assert_eq!(first, second);
}

#[test]
fn completion_order_is_independent_of_submission_order() {
    let mut svc = BallistaFlightService::new(2);
    assert_eq!(svc.execute_task("a".to_string()), ExecuteResponse::Accepted);
    assert_eq!(svc.execute_task("b".to_string()), ExecuteResponse::Accepted);
    // The later submission finishes first.
    svc.finish_task(&"b".to_string(), Ok(sample_partition()));
    assert!(matches!(svc.execute_task("b".to_string()), ExecuteResponse::Ready(_)));
    assert_eq!(svc.execute_task("a".to_string()), ExecuteResponse::StillRunning);
    svc.finish_task(&"a".to_string(), Ok(sample_partition()));
    assert!(matches!(svc.execute_task("a".to_string()), ExecuteResponse::Ready(_)));
    assert_eq!(svc.current_concurrency(), 0);
}

#[test]
fn empty_result_set_yields_just_the_schema_message() {
    let mut svc = BallistaFlightService::new(1);
    assert_eq!(svc.execute_task("t1".to_string()), ExecuteResponse::Accepted);
    let empty = ShufflePartition { schema: Schema { fields: vec![field("only")] }, data: vec![] };
    svc.finish_task(&"t1".to_string(), Ok(empty));
    match svc.execute_task("t1".to_string()) {
        ExecuteResponse::Ready(frames) => {
            assert_eq!(frames, vec![Frame::Schema(Schema { fields: vec![field("only")] })]);
        }
        other => panic!("expected Ready, got {:?}", other),
    }
}

#[test]
fn schema_lookup_hit_and_miss() {
    let mut svc = BallistaFlightService::new(1);
    assert_eq!(svc.get_schema(&"u-1".to_string()), Err(ServiceError::NotFound));
    svc.store_result("u-1".to_string(), sample_partition());
    assert_eq!(
        svc.get_schema(&"u-1".to_string()),
        Ok(Schema { fields: vec![field("shuffle_id"), field("rows")] })
    );
    assert_eq!(svc.get_schema(&"u-2".to_string()), Err(ServiceError::NotFound));
}
