use workdup::history::{
    Attributes, EventType, Failure, FailureInfo, HistoryEvent, MarkerDetail,
    StartChildWorkflowExecutionFailedCause,
};
use workdup::tokenizer::{
    bucket, event_token, marker_payload_string, marker_text_from_raw, semantic_hash,
    version_marker_token, workflow_semantic_hash,
};

fn ev(id: i64, event_type: EventType, attributes: Option<Attributes>) -> HistoryEvent {
    HistoryEvent { event_id: id, event_type, attributes }
}

fn tok(e: &HistoryEvent) -> Option<String> {
    event_token(e).expect("token")
}

fn err(e: &HistoryEvent) -> String {
    event_token(e).expect_err("error")
}

fn started(id: i64, name: &str) -> HistoryEvent {
    ev(
        id,
        EventType::WorkflowExecutionStarted,
        Some(Attributes::WorkflowExecutionStartedEventAttributes {
            workflow_type: Some(name.to_string()),
        }),
    )
}

fn scheduled(id: i64, name: &str) -> HistoryEvent {
    ev(
        id,
        EventType::ActivityTaskScheduled,
        Some(Attributes::ActivityTaskScheduledEventAttributes {
            activity_type: Some(name.to_string()),
        }),
    )
}

fn timer(id: i64, secs: i64) -> HistoryEvent {
    ev(
        id,
        EventType::TimerStarted,
        Some(Attributes::TimerStartedEventAttributes { start_to_fire_timeout: Some(secs) }),
    )
}

fn marker(id: i64, name: &str, details: Vec<(&str, Vec<&[u8]>)>) -> HistoryEvent {
    ev(
        id,
        EventType::MarkerRecorded,
        Some(Attributes::MarkerRecordedEventAttributes {
            marker_name: name.to_string(),
            details: details
                .into_iter()
                .map(|(k, ps)| MarkerDetail {
                    key: k.to_string(),
                    payloads: ps.into_iter().map(|p| p.to_vec()).collect(),
                })
                .collect(),
        }),
    )
}

fn failed(event_type: EventType, info: Option<FailureInfo>) -> HistoryEvent {
    let failure = Some(Failure { failure_info: info });
    let attributes = match event_type {
        EventType::ActivityTaskFailed => Attributes::ActivityTaskFailedEventAttributes { failure },
        EventType::ChildWorkflowExecutionFailed => {
            Attributes::ChildWorkflowExecutionFailedEventAttributes { failure }
        }
        _ => Attributes::WorkflowExecutionFailedEventAttributes { failure },
    };
    ev(9, event_type, Some(attributes))
}

#[test]
fn bucket_rounds_up_to_fixed_steps() {
    assert_eq!(bucket(0), 60);
    assert_eq!(bucket(60), 60);
    assert_eq!(bucket(61), 600);
    assert_eq!(bucket(600), 600);
    assert_eq!(bucket(601), 3600);
    assert_eq!(bucket(3600), 3600);
    assert_eq!(bucket(3601), 86400);
    assert_eq!(bucket(86400), 86400);
    assert_eq!(bucket(86401), 604800);
    assert_eq!(bucket(604800), 604800);
    assert_eq!(bucket(604801), 2592000);
    assert_eq!(bucket(2592000), 2592000);
    assert_eq!(bucket(2592001), 7776000);
    assert_eq!(bucket(7776000), 7776000);
    assert_eq!(bucket(7776001), 7776000);
    assert_eq!(bucket(-1), 7776000);
    assert_eq!(bucket(i64::MIN), 7776000);
    assert_eq!(bucket(i64::MAX), 7776000);
}

#[test]
fn bucket_laws_on_samples() {
    for s in [0i64, 1, 59, 60, 61, 599, 601, 3599, 86399, 604799, 2591999, 7775999, 7776000] {
        assert!(s <= bucket(s));
        assert_eq!(bucket(bucket(s)), bucket(s));
        assert!(bucket(s) <= bucket(s + 1));
    }
}

#[test]
fn tokens_of_names_and_fixed_kinds() {
    assert_eq!(tok(&started(1, "OrderFulfillment")), Some("WS:OrderFulfillment".to_string()));
    assert_eq!(tok(&scheduled(5, "payments.charge")), Some("A:payments.charge".to_string()));
    assert_eq!(
        tok(&ev(
            3,
            EventType::StartChildWorkflowExecutionInitiated,
            Some(Attributes::StartChildWorkflowExecutionInitiatedEventAttributes {
                workflow_type: Some("Child".to_string())
            })
        )),
        Some("C:Child".to_string())
    );
    let fixed = [
        (EventType::ActivityTaskCompleted, "AC"),
        (EventType::ActivityTaskCanceled, "ACx"),
        (EventType::ActivityTaskTimedOut, "ATO"),
        (EventType::TimerFired, "TF"),
        (EventType::TimerCanceled, "TX"),
        (EventType::ChildWorkflowExecutionCompleted, "CC"),
        (EventType::ChildWorkflowExecutionTerminated, "CTx"),
        (EventType::ChildWorkflowExecutionTimedOut, "CTO"),
        (EventType::ChildWorkflowExecutionCanceled, "CCx"),
        (EventType::WorkflowExecutionCancelRequested, "CR"),
        (EventType::WorkflowExecutionCanceled, "DONE:canceled"),
        (EventType::WorkflowExecutionCompleted, "DONE:success"),
        (EventType::WorkflowExecutionTimedOut, "DONE:timedout"),
        (EventType::WorkflowExecutionTerminated, "DONE:terminated"),
        (EventType::WorkflowExecutionContinuedAsNew, "DONE:continue-as-new"),
        (EventType::RequestCancelExternalWorkflowExecutionInitiated, "RCE"),
        (EventType::RequestCancelExternalWorkflowExecutionFailed, "RCEF"),
        (EventType::SignalExternalWorkflowExecutionFailed, "SIGF"),
        (EventType::WorkflowExecutionUpdateCompleted, "UC"),
    ];
    for (t, expected) in fixed {
        assert_eq!(tok(&ev(7, t, None)), Some(expected.to_string()));
    }
}

#[test]
fn ignored_events_have_no_token() {
    let ignored = [
        EventType::WorkflowTaskScheduled,
        EventType::WorkflowTaskStarted,
        EventType::WorkflowTaskCompleted,
        EventType::WorkflowTaskFailed,
        EventType::WorkflowTaskTimedOut,
        EventType::ActivityTaskStarted,
        EventType::ActivityTaskCancelRequested,
        EventType::ChildWorkflowExecutionStarted,
        EventType::UpsertWorkflowSearchAttributes,
        EventType::ExternalWorkflowExecutionSignaled,
        EventType::ExternalWorkflowExecutionCancelRequested,
        EventType::WorkflowExecutionUpdateAdmitted,
        EventType::WorkflowPropertiesModified,
        EventType::WorkflowPropertiesModifiedExternally,
        EventType::ActivityPropertiesModifiedExternally,
        EventType::WorkflowExecutionOptionsUpdated,
        EventType::WorkflowExecutionPaused,
        EventType::WorkflowExecutionUnpaused,
        EventType::WorkflowExecutionTimeSkippingTransitioned,
    ];
    for t in ignored {
        assert_eq!(event_token(&ev(2, t, None)), Ok(None));
    }
}

#[test]
fn timer_token_uses_bucket() {
    assert_eq!(tok(&timer(4, 30)), Some("T:60".to_string()));
    assert_eq!(tok(&timer(4, 300)), Some("T:600".to_string()));
    assert_eq!(tok(&timer(4, 100_000)), Some("T:604800".to_string()));
    assert_eq!(tok(&timer(4, -5)), Some("T:7776000".to_string()));
}

#[test]
fn timers_in_one_bucket_share_a_token() {
    assert_eq!(tok(&timer(4, 61)), tok(&timer(10, 600)));
    assert_ne!(tok(&timer(4, 60)), tok(&timer(4, 61)));
}

#[test]
fn failure_tokens() {
    let app = Some(FailureInfo::ApplicationFailureInfo { failure_type: "MyError".to_string() });
    assert_eq!(tok(&failed(EventType::ActivityTaskFailed, app.clone())), Some("AF:MyError".to_string()));
    assert_eq!(
        tok(&failed(EventType::ChildWorkflowExecutionFailed, Some(FailureInfo::TimeoutFailureInfo))),
        Some("CF:Timeout".to_string())
    );
    assert_eq!(
        tok(&failed(EventType::WorkflowExecutionFailed, Some(FailureInfo::CanceledFailureInfo))),
        Some("DONE:failure:Canceled".to_string())
    );
    assert_eq!(
        tok(&failed(EventType::WorkflowExecutionFailed, app)),
        Some("DONE:failure:MyError".to_string())
    );
}

#[test]
fn failure_errors() {
    assert_eq!(
        err(&failed(EventType::ActivityTaskFailed, None)),
        "ActivityTaskFailed event 9 has no failure_info set"
    );
    assert_eq!(
        err(&failed(
            EventType::WorkflowExecutionFailed,
            Some(FailureInfo::Other { debug: "ServerFailureInfo(ServerFailureInfo { non_retryable: true })".to_string() })
        )),
        "WorkflowExecutionFailed event 9 has an unhandled 'failure_info' variant: ServerFailureInfo(ServerFailureInfo { non_retryable: true }), please handle it"
    );
    let no_failure = ev(
        12,
        EventType::ChildWorkflowExecutionFailed,
        Some(Attributes::ChildWorkflowExecutionFailedEventAttributes { failure: None }),
    );
    assert_eq!(err(&no_failure), "ChildWorkflowExecutionFailed event 12 is missing 'failure' attribute");
}

#[test]
fn signal_cause_and_update_tokens() {
    assert_eq!(
        tok(&ev(
            3,
            EventType::WorkflowExecutionSignaled,
            Some(Attributes::WorkflowExecutionSignaledEventAttributes { signal_name: "approve".to_string() })
        )),
        Some("S:approve".to_string())
    );
    assert_eq!(
        tok(&ev(
            3,
            EventType::SignalExternalWorkflowExecutionInitiated,
            Some(Attributes::SignalExternalWorkflowExecutionInitiatedEventAttributes {
                signal_name: "ping".to_string()
            })
        )),
        Some("SIG:ping".to_string())
    );
    assert_eq!(
        tok(&ev(
            3,
            EventType::StartChildWorkflowExecutionFailed,
            Some(Attributes::StartChildWorkflowExecutionFailedEventAttributes {
                cause: StartChildWorkflowExecutionFailedCause::WorkflowAlreadyExists
            })
        )),
        Some("CSF:WorkflowAlreadyExists".to_string())
    );
    assert_eq!(
        tok(&ev(
            3,
            EventType::WorkflowExecutionUpdateAccepted,
            Some(Attributes::WorkflowExecutionUpdateAcceptedEventAttributes {
                update_name: Some("setAddress".to_string()),
                accepted_request: "Some(Request { .. })".to_string(),
            })
        )),
        Some("U:setAddress".to_string())
    );
    assert_eq!(
        err(&ev(
            21,
            EventType::WorkflowExecutionUpdateAccepted,
            Some(Attributes::WorkflowExecutionUpdateAcceptedEventAttributes {
                update_name: None,
                accepted_request: "None".to_string(),
            })
        )),
        "WorkflowExecutionUpdateAccepted event 21 has incorrect 'workflowExecutionUpdateAcceptedEventAttributes.accepted_request' attribute None"
    );
}

#[test]
fn attribute_errors() {
    assert_eq!(
        err(&ev(1, EventType::WorkflowExecutionStarted, None)),
        "WorkflowExecutionStarted event 1 is missing expected 'WorkflowExecutionStartedEventAttributes'"
    );
    assert_eq!(
        err(&ev(4, EventType::TimerStarted, Some(Attributes::Other))),
        "TimerStarted event 4 is missing expected 'TimerStartedEventAttributes'"
    );
    assert_eq!(
        err(&ev(
            1,
            EventType::WorkflowExecutionStarted,
            Some(Attributes::WorkflowExecutionStartedEventAttributes { workflow_type: None })
        )),
        "'WorkflowExecutionStarted' event 1 is missing 'workflowExecutionStartedEventAttributes'"
    );
    assert_eq!(
        err(&ev(
            5,
            EventType::ActivityTaskScheduled,
            Some(Attributes::ActivityTaskScheduledEventAttributes { activity_type: None })
        )),
        "'ActivityTaskScheduled' event 5 is missing 'ActivityTaskScheduledEventAttributes'"
    );
    assert_eq!(
        err(&ev(
            4,
            EventType::TimerStarted,
            Some(Attributes::TimerStartedEventAttributes { start_to_fire_timeout: None })
        )),
        "TimerStarted event 4 has incorrect 'timerStartedEventAttributes.startToFireTimeout' attribute None"
    );
    assert_eq!(
        err(&ev(-3, EventType::WorkflowExecutionUpdateRejected, None)),
        "WorkflowExecutionUpdateRejected event -3 does not expect to be in history"
    );
    assert_eq!(
        err(&ev(8, EventType::NexusOperationScheduled, None)),
        "NexusOperationScheduled event 8 is not supported yet"
    );
    assert_eq!(
        err(&ev(8, EventType::Unspecified, None)),
        "Undefined type while trying to make hash string: Unspecified"
    );
}

#[test]
fn version_marker_with_go_change_id() {
    let e = marker(6, "Version", vec![("changeId", vec![b"\"my-change\""]), ("version", vec![b"2"])]);
    assert_eq!(tok(&e), Some("V:\"my-change\":2".to_string()));
}

#[test]
fn version_marker_with_java_change_id_and_raw_bytes() {
    let e = marker(6, "Version", vec![("change-id", vec![b"my-change"]), ("version", vec![b"-1"])]);
    assert_eq!(tok(&e), Some("V:\"my-change\":-1".to_string()));
}

#[test]
fn version_marker_without_change_id_degrades() {
    let e = marker(6, "Version", vec![("version", vec![b"3"])]);
    assert_eq!(tok(&e), Some("V:?:3".to_string()));
    let blank = marker(6, "Version", vec![("changeId", vec![b"  \t "]), ("version", vec![b"3"])]);
    assert_eq!(tok(&blank), Some("V:?:3".to_string()));
    let empty_json = marker(6, "Version", vec![("changeId", vec![b"  \"\"  "]), ("version", vec![b"3"])]);
    assert_eq!(tok(&empty_json), Some("V:\"\":3".to_string()));
    let no_payload = marker(6, "Version", vec![("changeId", vec![]), ("change-id", vec![b"x"]), ("version", vec![b"3"])]);
    assert_eq!(tok(&no_payload), Some("V:?:3".to_string()));
}

#[test]
fn version_marker_without_version_is_an_error() {
    let e = marker(6, "Version", vec![("changeId", vec![b"\"a\""]), ("version", vec![b"x"])]);
    assert_eq!(
        err(&e),
        "MarkerRecorded event 6 has an unparseable 'Version' marker (changeId=Some(\"a\"), version=None)"
    );
    let none = marker(6, "Version", vec![]);
    assert_eq!(
        err(&none),
        "MarkerRecorded event 6 has an unparseable 'Version' marker (changeId=None, version=None)"
    );
}

#[test]
fn side_effect_and_unknown_markers() {
    assert_eq!(tok(&marker(2, "SideEffect", vec![])), Some("SE".to_string()));
    assert_eq!(
        err(&marker(2, "LocalActivity", vec![])),
        "MarkerRecorded event 2 has undefined markerName value: LocalActivity, please pay attention and handle it.."
    );
}

#[test]
fn marker_payload_reading() {
    assert_eq!(marker_payload_string(b"\"my-change\""), Some("my-change".to_string()));
    assert_eq!(marker_payload_string(b" \"my-change\" "), Some("my-change".to_string()));
    assert_eq!(marker_payload_string(b"my-change"), Some("my-change".to_string()));
    assert_eq!(marker_payload_string(b"\"unterminated"), Some("unterminated".to_string()));
    assert_eq!(marker_payload_string(b"\"\""), Some(String::new()));
    assert_eq!(marker_payload_string(b"\"a\\u0041\""), Some("aA".to_string()));
    assert_eq!(marker_payload_string(b"  \t"), None);
    assert_eq!(marker_payload_string(b"\"\"\"\""), None);
    assert_eq!(marker_payload_string(&[0xff, b'a']), Some("\u{fffd}a".to_string()));
}

#[test]
fn raw_marker_text_trims() {
    assert_eq!(marker_text_from_raw("  \"abc\"\n"), Some("abc".to_string()));
    assert_eq!(marker_text_from_raw("\u{3000}x\u{2003}"), Some("x".to_string()));
    assert_eq!(marker_text_from_raw(" \" a \" "), Some(" a ".to_string()));
    assert_eq!(marker_text_from_raw("   "), None);
}

#[test]
fn version_token_from_parts() {
    let e = marker(6, "Version", vec![]);
    assert_eq!(
        version_marker_token(&e, Some("x\"y".to_string()), Some(10)),
        Ok(Some("V:\"x\\\"y\":10".to_string()))
    );
    assert_eq!(version_marker_token(&e, None, Some(i64::MIN)), Ok(Some("V:?:-9223372036854775808".to_string())));
}

#[test]
fn semantic_hash_is_sha256_hex() {
    assert_eq!(semantic_hash(""), "e3b0c44298fc1c149afbf4c8996fb92427ae41e4649b934ca495991b7852b855");
    assert_eq!(semantic_hash("abc"), "ba7816bf8f01cfea414140de5dae2223b00361a396177a9cb410ff61f20015ad");
    let h = semantic_hash("WS:Order");
    assert_eq!(h.len(), 64);
    assert!(h.chars().all(|c| c.is_ascii_digit() || ('a'..='f').contains(&c)));
}

fn sample_history(base_id: i64) -> Vec<HistoryEvent> {
    vec![
        started(base_id, "Order"),
        ev(base_id + 1, EventType::WorkflowTaskScheduled, None),
        ev(base_id + 2, EventType::WorkflowTaskStarted, None),
        scheduled(base_id + 3, "charge"),
        ev(base_id + 4, EventType::ActivityTaskStarted, None),
        ev(base_id + 5, EventType::ActivityTaskCompleted, None),
        timer(base_id + 6, 300),
        ev(base_id + 7, EventType::WorkflowExecutionCompleted, None),
    ]
}

#[test]
fn workflow_hash_joins_tokens_with_newlines() {
    assert_eq!(
        workflow_semantic_hash(&sample_history(1)),
        Ok("b9ff737657b89dc20aeef73b404e9f6043cb8cd6a30364370e7261e850b4bc71".to_string())
    );
    assert_eq!(
        workflow_semantic_hash(&[]),
        Ok("e3b0c44298fc1c149afbf4c8996fb92427ae41e4649b934ca495991b7852b855".to_string())
    );
}

#[test]
fn same_path_same_hash_whatever_the_ids() {
    assert_eq!(workflow_semantic_hash(&sample_history(1)), workflow_semantic_hash(&sample_history(500)));
}

#[test]
fn ignored_events_do_not_change_the_hash() {
    let mut h = sample_history(1);
    let before = workflow_semantic_hash(&h);
    h.insert(3, ev(99, EventType::UpsertWorkflowSearchAttributes, None));
    h.push(ev(100, EventType::WorkflowTaskCompleted, None));
    assert_eq!(workflow_semantic_hash(&h), before);
}

#[test]
fn different_paths_different_hashes() {
    let mut h = sample_history(1);
    h[3] = scheduled(4, "refund");
    assert_ne!(workflow_semantic_hash(&h), workflow_semantic_hash(&sample_history(1)));
}

#[test]
fn first_bad_event_drops_the_history() {
    let mut h = sample_history(1);
    h.insert(2, ev(50, EventType::NexusOperationStarted, None));
    h.push(ev(51, EventType::Unspecified, None));
    assert_eq!(workflow_semantic_hash(&h), Err("NexusOperationStarted event 50 is not supported yet".to_string()));
}
