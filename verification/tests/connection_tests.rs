use session_server::connection::{ConnState, Connection, OutboundMessage};
use session_server::service::{Service, WorkerStatus};
use session_server::service_name::{monitor_name, ServiceName};

#[test]
fn connection_walks_its_lifecycle() {
    let mut conn = Connection::new(17);
    assert_eq!(conn.id, 17);
    assert_eq!(conn.state, ConnState::Handshaking);
    conn.on_handshake_success();
    assert_eq!(conn.state, ConnState::Active);
    conn.begin_close();
    assert_eq!(conn.state, ConnState::Closing);
    conn.finish_close();
    assert_eq!(conn.state, ConnState::Closed);
}

#[test]
fn failed_handshake_closes_directly() {
    let mut conn = Connection::new(3);
    conn.on_handshake_failure();
    assert_eq!(conn.state, ConnState::Closed);
    assert!(conn.outbound.is_empty());
}

#[test]
fn send_keeps_queueing_order() {
    let mut conn = Connection::new(1);
    conn.on_handshake_success();
    conn.send(OutboundMessage::AudioFormat { sample_rate: 48000, channels: 2 });
    conn.send(OutboundMessage::StopService);
    assert_eq!(
        conn.outbound,
        vec![
            OutboundMessage::AudioFormat { sample_rate: 48000, channels: 2 },
            OutboundMessage::StopService,
        ]
    );
}

#[test]
fn send_on_closed_connection_is_noop() {
    let mut conn = Connection::new(1);
    conn.on_handshake_failure();
    conn.send(OutboundMessage::StopService);
    assert!(conn.outbound.is_empty());
}

#[test]
fn first_subscriber_wakes_worker_last_parks_it() {
    let mut svc = Service::new(monitor_name(0));
    assert_eq!(svc.worker, WorkerStatus::Idle);
    svc.on_subscribe(5);
    assert_eq!(svc.worker, WorkerStatus::Running);
    svc.on_subscribe(6);
    assert_eq!(svc.worker, WorkerStatus::Running);
    svc.on_unsubscribe(5);
    assert_eq!(svc.worker, WorkerStatus::Running);
    svc.on_unsubscribe(6);
    assert_eq!(svc.worker, WorkerStatus::Idle);
}

#[test]
fn service_subscription_is_a_set() {
    let mut svc = Service::new(ServiceName::Audio);
    svc.on_subscribe(5);
    svc.on_subscribe(5);
    assert_eq!(svc.subscribers, vec![5]);
    assert!(svc.is_subed(5));
    svc.on_unsubscribe(9);
    assert_eq!(svc.subscribers, vec![5]);
    svc.on_unsubscribe(5);
    assert!(svc.subscribers.is_empty());
    assert!(!svc.is_subed(5));
}

#[test]
fn join_requires_prior_stop_request() {
    let mut svc = Service::new(ServiceName::Clipboard);
    svc.on_subscribe(1);
    assert!(svc.ok);
    svc.request_stop();
    assert!(!svc.ok);
    svc.join();
    assert_eq!(svc.worker, WorkerStatus::Joined);
    assert!(svc.is_subed(1));
}

#[test]
fn service_records_options_in_order() {
    let mut svc = Service::new(monitor_name(0));
    svc.set_option("quality".to_string(), "best".to_string());
    svc.set_option("quality".to_string(), "balanced".to_string());
    assert_eq!(
        svc.options,
        vec![
            ("quality".to_string(), "best".to_string()),
            ("quality".to_string(), "balanced".to_string()),
        ]
    );
}
