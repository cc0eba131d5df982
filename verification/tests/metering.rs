use ibm_appconfiguration_rust_sdk::client::ConfigurationId;
use ibm_appconfiguration_rust_sdk::metering::{
    evaluation_event, is_retryable_error, metering_retry_delay_ms, EvaluationEvent, EvaluationEventData, MeteringBatcher, MeteringError, SubjectId,
};

fn batcher() -> MeteringBatcher {
    MeteringBatcher::new(ConfigurationId::new("guid".into(), "env".into(), "coll".into()))
}

fn feature_event(entity: &str) -> EvaluationEvent {
    EvaluationEvent::Feature(EvaluationEventData { subject_id: SubjectId::Feature("f1".into()), entity_id: entity.into(), segment_id: None })
}

#[test]
fn metering_test_metrics_multiple_same_evaluation_events_are_batched_to_one_entry() {
    let mut b = batcher();
    b.handle_event(feature_event("e1"), 10);
    b.handle_event(feature_event("e1"), 20);
    b.handle_event(feature_event("e1"), 30);
    let data = b.prepare_flush(40).unwrap();
    assert_eq!(data.collection_id, "coll");
    assert_eq!(data.environment_id, "env");
    assert_eq!(data.usages.len(), 1);
    assert_eq!(data.usages[0].count, 3);
    assert_eq!(data.usages[0].evaluation_time_millis, 30);
    assert_eq!(data.usages[0].feature_id.as_deref(), Some("f1"));
    assert_eq!(data.usages[0].property_id, None);
}

#[test]
fn metering_test_record_evaluation_leads_to_metering_data_sent() {
    let mut b = batcher();
    assert!(b.prepare_flush(0).is_none());
    b.handle_event(feature_event("e1"), 1);
    b.handle_event(
        EvaluationEvent::Property(EvaluationEventData { subject_id: SubjectId::Property("p1".into()), entity_id: "e1".into(), segment_id: Some("s".into()) }),
        2,
    );
    b.handle_event(feature_event("e2"), 3);
    let data = b.prepare_flush(5).unwrap();
    assert_eq!(data.usages.len(), 3);
    assert_eq!(data.usages[1].property_id.as_deref(), Some("p1"));
    assert_eq!(data.usages[1].segment_id.as_deref(), Some("s"));
    b.complete_flush(Ok(()), 6);
    assert!(b.prepare_flush(7).is_none());
    assert!(b.evaluations.is_empty());
}

#[test]
fn failed_reports_are_retried_later() {
    let mut b = batcher();
    b.handle_event(feature_event("e1"), 1);
    b.complete_flush(Err(MeteringError::DataNotAccepted(503)), 1_000);
    assert_eq!(b.retry_attempt, 1);
    assert_eq!(b.next_retry_at_millis, Some(16_000));
    assert!(b.prepare_flush(15_999).is_none());
    assert!(b.prepare_flush(16_000).is_some());
    b.complete_flush(Err(MeteringError::NetworkError("down".into())), 16_000);
    assert_eq!(b.next_retry_at_millis, Some(46_000));
    b.complete_flush(Err(MeteringError::DataNotAccepted(400)), 50_000);
    assert!(b.evaluations.is_empty());
    assert_eq!(b.retry_attempt, 0);
    assert_eq!(b.next_retry_at_millis, None);
}

#[test]
fn retryable_statuses() {
    assert!(is_retryable_error(&MeteringError::DataNotAccepted(429)));
    assert!(is_retryable_error(&MeteringError::DataNotAccepted(500)));
    assert!(is_retryable_error(&MeteringError::DataNotAccepted(599)));
    assert!(!is_retryable_error(&MeteringError::DataNotAccepted(404)));
    assert!(is_retryable_error(&MeteringError::NetworkError("x".into())));
    assert_eq!(metering_retry_delay_ms(0), 15_000);
    assert_eq!(metering_retry_delay_ms(20), 3_600_000);
}

#[test]
fn evaluation_events_follow_their_subject() {
    let f = evaluation_event(SubjectId::Feature("f1".into()), "e".into(), Some("s".into()));
    assert_eq!(
        f,
        EvaluationEvent::Feature(EvaluationEventData {
            subject_id: SubjectId::Feature("f1".into()),
            entity_id: "e".into(),
            segment_id: Some("s".into()),
        })
    );
    let p = evaluation_event(SubjectId::Property("p1".into()), "e".into(), None);
    assert_eq!(
        p,
        EvaluationEvent::Property(EvaluationEventData { subject_id: SubjectId::Property("p1".into()), entity_id: "e".into(), segment_id: None })
    );
}
