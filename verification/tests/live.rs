use ibm_appconfiguration_rust_sdk::client::{RuntimeEvent, RuntimeEventEmitter, RuntimeEventKind, RuntimeMode, RuntimeStatus};
use ibm_appconfiguration_rust_sdk::errors::{CurrentModeOfflineReason, Error, LiveConfigurationError, LiveError, NetworkError};
use ibm_appconfiguration_rust_sdk::live::{
    configuration_source, fetch_failure, is_online, offline_event_kind, online_without_waiting, recoverable_error, runtime_status,
    thread_finished_status, thread_result_text, ConfigurationSource, CurrentMode, OfflineModeKind, ThreadStatus,
};
use ibm_appconfiguration_rust_sdk::worker::{
    backoff_step, calculate_config_refresh_delay_ms, calculate_retry_delay_ms, refetch_jitter_ms, stopped_with, BackoffAction, BackoffEvent, jittered_retry_delay_ms, next_config_refresh_delay_ms,
    retry_base_delay_ms, websocket_reaction, WebsocketMessage, WebsocketReaction, WorkerAction, WorkerEvent, WorkerState,
};
use ibm_appconfiguration_rust_sdk::client::ConfigurationId;
use ibm_appconfiguration_rust_sdk::requests::websocket_url;
use ibm_appconfiguration_rust_sdk::service_address::ServiceAddress;
use std::cell::RefCell;

#[test]
fn test_wrong_url() {
    let address = ServiceAddress::new("bad host".to_string(), None, Some("apprapp".to_string()));
    let id = ConfigurationId::new("guid".to_string(), "dev".to_string(), "collection".to_string());
    let error = websocket_url(&address, &id).unwrap_err();
    assert_eq!(error, NetworkError::UrlParseError("wss://bad host/apprapp/wsfeature".to_string()));
    assert_eq!(
        WorkerState::new().step(WorkerEvent::WebsocketFailed(error)),
        Err(LiveError::UnrecoverableError("wss://bad host/apprapp/wsfeature".to_string()))
    );
}

#[test]
fn test_wait_for_initial_configuration() {
    let initializing = CurrentMode::Offline(CurrentModeOfflineReason::Initializing);
    assert!(!is_online(&initializing));
    assert!(!online_without_waiting(&initializing, OfflineModeKind::Fail));
    assert_eq!(
        configuration_source(&initializing, false, OfflineModeKind::Fail),
        Err(LiveError::Offline(CurrentModeOfflineReason::Initializing))
    );
    let (s, a) = WorkerState::new().step(WorkerEvent::Started).unwrap();
    assert_eq!(a, WorkerAction::OpenWebsocket);
    let (s, a) = s.step(WorkerEvent::WebsocketOpened).unwrap();
    assert_eq!(a, WorkerAction::AnnounceConnected);
    let (_, a) = s.step(WorkerEvent::ConfigurationFetched(Ok(true))).unwrap();
    assert_eq!(a, WorkerAction::ReadMessage);
    assert!(is_online(&CurrentMode::Online));
    assert_eq!(configuration_source(&CurrentMode::Online, true, OfflineModeKind::Fail), Ok(ConfigurationSource::InMemory));
}

#[test]
fn test_when_thread_stopped_we_need_to_be_offline() {
    let stopped = CurrentMode::Defunct(Ok(()));
    assert!(!is_online(&stopped));
    assert_eq!(runtime_status(&stopped).is_connected, false);
    assert_eq!(runtime_status(&stopped).mode, Some(RuntimeMode::Defunct));
    let (_, a) = WorkerState::new().step(WorkerEvent::TerminationRequested).unwrap();
    assert_eq!(a, WorkerAction::Stop);
}

#[test]
fn in_memory_configuration_is_served_first() {
    for mode in [CurrentMode::Online, CurrentMode::Offline(CurrentModeOfflineReason::WebsocketError), CurrentMode::Defunct(Ok(()))] {
        assert_eq!(configuration_source(&mode, true, OfflineModeKind::Fail), Ok(ConfigurationSource::InMemory));
    }
}

#[test]
fn offline_modes_without_configuration() {
    let offline = CurrentMode::Offline(CurrentModeOfflineReason::Initializing);
    assert_eq!(
        configuration_source(&offline, false, OfflineModeKind::Fail),
        Err(LiveError::Offline(CurrentModeOfflineReason::Initializing))
    );
    assert_eq!(configuration_source(&offline, false, OfflineModeKind::Cache), Err(LiveError::ConfigurationNotYetAvailable));
    assert_eq!(configuration_source(&offline, false, OfflineModeKind::FallbackData), Ok(ConfigurationSource::Fallback));
    assert_eq!(configuration_source(&offline, false, OfflineModeKind::BootstrapFile), Ok(ConfigurationSource::File));
    assert_eq!(configuration_source(&offline, false, OfflineModeKind::PersistentCacheFile), Ok(ConfigurationSource::File));
    let defunct = CurrentMode::Defunct(Err(LiveError::UnrecoverableError("bad \"url\"".to_string())));
    assert_eq!(
        configuration_source(&defunct, false, OfflineModeKind::Fail),
        Err(LiveError::ThreadInternalError("Thread finished with status: Err(UnrecoverableError(\"bad \\\"url\\\"\"))".to_string()))
    );
    assert_eq!(
        configuration_source(&CurrentMode::Defunct(Ok(())), false, OfflineModeKind::Cache),
        Err(LiveError::UnrecoverableError("Initial configuration failed to retrieve: Ok(())".to_string()))
    );
}

#[test]
fn thread_result_debug_text() {
    assert_eq!(thread_result_text(&Ok(())), format!("{:?}", Ok::<(), ()>(())));
    let e = LiveError::Offline(CurrentModeOfflineReason::WebsocketClosed);
    assert_eq!(thread_result_text(&Err(e)), "Err(Offline(WebsocketClosed))");
    assert_eq!(thread_result_text(&Err(LiveError::ThreadInternalError("a\nb".into()))), "Err(ThreadInternalError(\"a\\nb\"))");
}

#[test]
fn thread_status_after_join() {
    assert_eq!(thread_finished_status(Ok(Ok(()))), ThreadStatus::Finished(Ok(())));
    assert_eq!(
        thread_finished_status(Err(Some("panic for test".to_string()))),
        ThreadStatus::Finished(Err(LiveError::ThreadInternalError("Thread panicked: panic for test".to_string())))
    );
    assert_eq!(
        thread_finished_status(Err(None)),
        ThreadStatus::Finished(Err(LiveError::ThreadInternalError("Thread panicked".to_string())))
    );
}

#[test]
fn statuses_and_events() {
    assert!(is_online(&CurrentMode::Online));
    assert!(!is_online(&CurrentMode::Defunct(Ok(()))));
    assert_eq!(runtime_status(&CurrentMode::Online), RuntimeStatus { is_connected: true, mode: Some(RuntimeMode::Online), offline_reason: None });
    assert_eq!(
        runtime_status(&CurrentMode::Offline(CurrentModeOfflineReason::WebsocketClosed)),
        RuntimeStatus { is_connected: false, mode: Some(RuntimeMode::Offline), offline_reason: Some(CurrentModeOfflineReason::WebsocketClosed) }
    );
    assert_eq!(offline_event_kind(CurrentModeOfflineReason::WebsocketClosed), RuntimeEventKind::Closed);
    assert_eq!(offline_event_kind(CurrentModeOfflineReason::WebsocketHeartbeatTimeout), RuntimeEventKind::HeartbeatTimeout);
    assert_eq!(offline_event_kind(CurrentModeOfflineReason::WebsocketError), RuntimeEventKind::Disconnected);
    assert!(online_without_waiting(&CurrentMode::Defunct(Ok(())), OfflineModeKind::FallbackData));
    assert!(!online_without_waiting(&CurrentMode::Defunct(Ok(())), OfflineModeKind::Cache));
}

#[test]
fn recoverable_errors() {
    assert_eq!(recoverable_error(NetworkError::ProtocolError), Ok(()));
    assert_eq!(recoverable_error(NetworkError::ContactToServerLost), Ok(()));
    assert_eq!(recoverable_error(NetworkError::UrlParseError("u".into())), Err(LiveError::UnrecoverableError("u".into())));
    assert_eq!(recoverable_error(NetworkError::CannotAcquireLock), Err(LiveError::CannotAcquireLock));
    assert_eq!(
        recoverable_error(NetworkError::WebsocketHttpStatus { status_code: 401, message: "Unauthorized".into() }),
        Err(LiveError::UnrecoverableError("Unauthorized".into()))
    );
    assert_eq!(recoverable_error(NetworkError::WebsocketHttpStatus { status_code: 429, message: "x".into() }), Ok(()));
    assert_eq!(recoverable_error(NetworkError::WebsocketHttpStatus { status_code: 503, message: "x".into() }), Ok(()));
}

#[test]
fn test_update_configuration_protocol_error_recoverable() {
    assert_eq!(
        fetch_failure(CurrentModeOfflineReason::FailedToGetNewConfiguration, true, NetworkError::ProtocolError),
        Ok(Some(CurrentModeOfflineReason::FailedToGetNewConfiguration))
    );
}

#[test]
fn test_update_configuration_reqwest_error_classified_as_connectivity_issue() {
    assert_eq!(
        fetch_failure(CurrentModeOfflineReason::WebsocketError, true, NetworkError::ContactToServerLost),
        Ok(Some(CurrentModeOfflineReason::WebsocketError))
    );
    assert_eq!(fetch_failure(CurrentModeOfflineReason::WebsocketError, false, NetworkError::ContactToServerLost), Ok(None));
}

#[test]
fn test_update_configuration_network_error_non_recoverable() {
    assert_eq!(
        fetch_failure(CurrentModeOfflineReason::FailedToGetNewConfiguration, true, NetworkError::CannotAcquireLock),
        Err(LiveError::CannotAcquireLock)
    );
}

#[test]
fn websocket_reactions() {
    assert_eq!(websocket_reaction(&WebsocketMessage::Text("test message".into())), WebsocketReaction::KeepListening);
    assert_eq!(websocket_reaction(&WebsocketMessage::Text("changed".into())), WebsocketReaction::RefetchConfiguration);
    assert_eq!(
        websocket_reaction(&WebsocketMessage::Close),
        WebsocketReaction::GoOffline(CurrentModeOfflineReason::WebsocketClosed)
    );
    assert_eq!(websocket_reaction(&WebsocketMessage::Ping), WebsocketReaction::FlushPong);
    assert_eq!(websocket_reaction(&WebsocketMessage::Other), WebsocketReaction::KeepListening);
    assert_eq!(
        websocket_reaction(&WebsocketMessage::TimedOut),
        WebsocketReaction::GoOffline(CurrentModeOfflineReason::WebsocketHeartbeatTimeout)
    );
    assert_eq!(
        websocket_reaction(&WebsocketMessage::Failed),
        WebsocketReaction::GoOffline(CurrentModeOfflineReason::WebsocketError)
    );
}

#[test]
fn retry_delays() {
    assert_eq!(retry_base_delay_ms(0), 15_000);
    assert_eq!(retry_base_delay_ms(1), 30_000);
    assert_eq!(retry_base_delay_ms(7), 1_920_000);
    assert_eq!(retry_base_delay_ms(8), 3_600_000);
    assert_eq!(retry_base_delay_ms(u32::MAX), 3_600_000);
    assert_eq!(jittered_retry_delay_ms(0, 0), 10_500);
    assert_eq!(jittered_retry_delay_ms(0, 9_000), 19_500);
    for attempt in 0..10 {
        let d = calculate_retry_delay_ms(attempt);
        let base = retry_base_delay_ms(attempt);
        assert!(d >= base - base * 3 / 10 && d <= base + base * 3 / 10);
    }
    assert_eq!(next_config_refresh_delay_ms(0, 120_000, 3_600_000), 120_000);
    assert_eq!(next_config_refresh_delay_ms(3, 120_000, 3_600_000), 960_000);
    assert_eq!(next_config_refresh_delay_ms(40, 120_000, 3_600_000), 3_600_000);
    assert_eq!(next_config_refresh_delay_ms(40, u64::MAX, u64::MAX), u64::MAX);
    let d = calculate_config_refresh_delay_ms(0);
    assert!((120_000..=125_000).contains(&d));
    let d = calculate_config_refresh_delay_ms(30);
    assert!((3_600_000..=3_659_000).contains(&d));
}

#[test]
fn worker_loop_steps() {
    let s = WorkerState::new();
    let (s, a) = s.step(WorkerEvent::Started).unwrap();
    assert_eq!(a, WorkerAction::OpenWebsocket);
    let (s, a) = s.step(WorkerEvent::WebsocketFailed(NetworkError::ContactToServerLost)).unwrap();
    assert_eq!(a, WorkerAction::GoOfflineAndWait { reason: CurrentModeOfflineReason::WebsocketError, attempt: 0 });
    let (s, a) = s.step(WorkerEvent::RetryWaitEnded { terminated: false, internet_restored: false }).unwrap();
    assert_eq!(a, WorkerAction::OpenWebsocket);
    assert_eq!(s.websocket_retry_attempt, 1);
    let (s, a) = s.step(WorkerEvent::WebsocketOpened).unwrap();
    assert_eq!(a, WorkerAction::AnnounceConnected);
    assert_eq!(s.websocket_retry_attempt, 0);
    let (s, a) = s.step(WorkerEvent::ConfigurationFetched(Ok(false))).unwrap();
    assert_eq!(a, WorkerAction::WaitBeforeRefresh { attempt: 0 });
    let (s, a) = s.step(WorkerEvent::RefreshWaitEnded { terminated: false }).unwrap();
    assert_eq!(a, WorkerAction::OpenWebsocket);
    assert_eq!(s.config_refresh_retry_attempt, 1);
    let (s, _) = s.step(WorkerEvent::WebsocketOpened).unwrap();
    let (s, a) = s.step(WorkerEvent::ConfigurationFetched(Ok(true))).unwrap();
    assert_eq!(a, WorkerAction::ReadMessage);
    let (s, a) = s.step(WorkerEvent::MessageHandled(Ok(true))).unwrap();
    assert_eq!(a, WorkerAction::ReadMessage);
    let (s, a) = s.step(WorkerEvent::MessageHandled(Ok(false))).unwrap();
    assert_eq!(a, WorkerAction::WaitBeforeReconnect { attempt: 0 });
    let (_, a) = s.step(WorkerEvent::RetryWaitEnded { terminated: true, internet_restored: false }).unwrap();
    assert_eq!(a, WorkerAction::Stop);
    assert_eq!(s.step(WorkerEvent::TerminationRequested).unwrap().1, WorkerAction::Stop);
}

#[test]
fn test_run_get_websocket_fail() {
    let s = WorkerState::new();
    assert_eq!(
        s.step(WorkerEvent::WebsocketFailed(NetworkError::UrlParseError("".into()))),
        Err(LiveError::UnrecoverableError("".into()))
    );
}

#[test]
fn test_run_initial_config_retrieval_fails_unrecoverably() {
    let s = WorkerState::new();
    let (s, _) = s.step(WorkerEvent::WebsocketOpened).unwrap();
    assert_eq!(
        s.step(WorkerEvent::ConfigurationFetched(Err(LiveError::UnrecoverableError("".into())))),
        Err(LiveError::UnrecoverableError("".into()))
    );
}

#[test]
fn emitter_hands_events_to_listeners_in_order() {
    let first: RefCell<Vec<RuntimeEventKind>> = RefCell::new(Vec::new());
    let second: RefCell<Vec<RuntimeEventKind>> = RefCell::new(Vec::new());
    let mut emitter: RuntimeEventEmitter<Box<dyn Fn(RuntimeEvent) + '_>> = RuntimeEventEmitter::new();
    emitter.on(Box::new(|e: RuntimeEvent| first.borrow_mut().push(e.kind))).unwrap();
    emitter.on(Box::new(|e: RuntimeEvent| second.borrow_mut().push(e.kind))).unwrap();
    let status = runtime_status(&CurrentMode::Online);
    emitter.emit(RuntimeEvent { kind: RuntimeEventKind::Connected, status }).unwrap();
    emitter.emit(RuntimeEvent { kind: RuntimeEventKind::RefreshSuccess, status }).unwrap();
    drop(emitter);
    for seen in [first, second] {
        assert_eq!(seen.into_inner(), vec![RuntimeEventKind::Connected, RuntimeEventKind::RefreshSuccess]);
    }
}

#[test]
fn error_messages() {
    assert_eq!(Error::LiveConfigurationError(LiveConfigurationError(LiveError::Offline(CurrentModeOfflineReason::WebsocketError))).message(), "Connection to server lost: WebsocketError");
    assert_eq!(Error::NetworkError(NetworkError::UrlParseError("x".into())).message(), "Cannot parse 'x' as URL");
    assert_eq!(
        Error::FeatureDoesNotExist { collection_id: "c".into(), environment_id: "e".into(), feature_id: "f".into() }.message(),
        "Feature 'f' does not exist in environment 'e' and collection 'c'"
    );
    assert_eq!(Error::MismatchType.message(), "Inner type cannot be converted to requested type");
}

#[test]
fn refetch_jitter_stays_below_five_seconds() {
    for _ in 0..200 {
        assert!(refetch_jitter_ms() < 5000);
    }
}

#[test]
fn thread_result_text_is_the_debug_notation() {
    for message in ["plain", "quote \" and \\ back", "tab\tnew\nline", "\u{1}\u{7f}\u{200b}e\u{301}", "\u{10ffff}"] {
        for r in [
            Err(LiveError::UnrecoverableError(message.to_string())),
            Err(LiveError::ThreadInternalError(message.to_string())),
        ] {
            assert_eq!(thread_result_text(&r), format!("{:?}", r));
        }
    }
    let ok: Result<(), LiveError> = Ok(());
    assert_eq!(thread_result_text(&ok), format!("{:?}", ok));
}

#[test]
fn waiting_before_reconnecting() {
    assert_eq!(backoff_step(1200, false, BackoffEvent::Started), BackoffAction::Sleep(500));
    assert_eq!(backoff_step(300, true, BackoffEvent::Started), BackoffAction::Sleep(300));
    assert_eq!(backoff_step(0, true, BackoffEvent::Started), BackoffAction::Finish { terminated: false, internet_restored: false });
    assert_eq!(
        backoff_step(700, false, BackoffEvent::Slept { terminated: true }),
        BackoffAction::Finish { terminated: true, internet_restored: false }
    );
    assert_eq!(backoff_step(700, false, BackoffEvent::Slept { terminated: false }), BackoffAction::ProbeInternet);
    assert_eq!(backoff_step(700, true, BackoffEvent::Slept { terminated: false }), BackoffAction::Sleep(500));
    assert_eq!(
        backoff_step(700, false, BackoffEvent::Probed { answered: true }),
        BackoffAction::Finish { terminated: false, internet_restored: true }
    );
    assert_eq!(backoff_step(200, false, BackoffEvent::Probed { answered: false }), BackoffAction::Sleep(200));
}

#[test]
fn a_stopped_worker_is_defunct_and_closed() {
    let error = LiveError::UnrecoverableError("x".to_string());
    assert_eq!(stopped_with(Err(error.clone())), (CurrentMode::Defunct(Err(error)), RuntimeEventKind::Closed));
    assert_eq!(stopped_with(Ok(())), (CurrentMode::Defunct(Ok(())), RuntimeEventKind::Closed));
}
