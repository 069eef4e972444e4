use session_server::connection::{ConnState, Connection, OutboundMessage};
use session_server::registry::Server;
use session_server::service::{Service, WorkerStatus};
use session_server::service_name::{camera_name, monitor_name, ServiceName, VideoSource};

fn subscribed(server: &Server, name: ServiceName, id: i32) -> bool {
    server
        .services
        .iter()
        .any(|s| s.name == name && s.subscribers.contains(&id))
}

fn admitted_connection(server: &mut Server, noperms: &Vec<ServiceName>) -> i32 {
    let id = server.get_new_id();
    let mut conn = Connection::new(id);
    conn.on_handshake_success();
    server.add_connection(conn, noperms);
    id
}

#[test]
fn new_server_seeds_positive_offset() {
    let server = Server::new(1234, 0, false, false);
    assert_eq!(server.id_count, 1234 % 1000 + 1000);
    assert_eq!(server.id_count, 1234);
    assert!(server.connections.is_empty());
    let server2 = Server::new(0, 0, false, false);
    assert_eq!(server2.id_count, 1000);
    let server3 = Server::new(999, 0, false, false);
    assert_eq!(server3.id_count, 1999);
}

#[test]
fn new_server_has_base_services() {
    let server = Server::new(7, 0, false, false);
    assert!(server.contains(ServiceName::Audio));
    assert!(server.contains(ServiceName::Clipboard));
    assert!(server.contains(ServiceName::Cursor));
    assert!(server.contains(ServiceName::Pos));
    assert!(server.contains(ServiceName::WindowFocus));
    assert!(!server.contains(ServiceName::Printer));
    assert!(!server.contains(monitor_name(0)));
}

#[test]
fn new_server_embedded_cursor_drops_input_services() {
    let server = Server::new(7, 0, false, true);
    assert!(server.contains(ServiceName::Audio));
    assert!(!server.contains(ServiceName::Cursor));
    assert!(!server.contains(ServiceName::Pos));
    assert!(!server.contains(ServiceName::WindowFocus));
}

#[test]
fn allocated_ids_are_distinct() {
    let mut server = Server::new(42, 0, false, false);
    let a = server.get_new_id();
    let b = server.get_new_id();
    let c = server.get_new_id();
    assert!(a != b && b != c && a != c);
    assert_eq!(b, a + 1);
    assert_eq!(c, b + 1);
    assert!(a > 0);
}

#[test]
fn try_add_primary_video_service_is_idempotent() {
    let mut server = Server::new(7, 0, false, false);
    server.try_add_primay_video_service();
    assert!(server.contains(monitor_name(0)));
    let count = server.services.len();
    server.try_add_primay_video_service();
    assert_eq!(server.services.len(), count);
}

#[test]
fn try_add_camera_service_needs_camera() {
    let mut server = Server::new(7, 0, false, false);
    server.try_add_primary_camera_service();
    assert!(!server.contains(camera_name(0)));

    let mut with_camera = Server::new(7, 0, true, false);
    with_camera.try_add_primary_camera_service();
    assert!(with_camera.contains(camera_name(0)));
    let count = with_camera.services.len();
    with_camera.try_add_primary_camera_service();
    assert_eq!(with_camera.services.len(), count);
}

#[test]
fn default_admission_excludes_secondary_display() {
    let mut server = Server::new(7, 0, false, false);
    server.try_add_primay_video_service();
    server.services.push(Service::new(monitor_name(1)));

    let id = admitted_connection(&mut server, &vec![]);

    assert!(subscribed(&server, monitor_name(0), id));
    assert!(!subscribed(&server, monitor_name(1), id));
    assert!(subscribed(&server, ServiceName::Audio, id));
    assert!(subscribed(&server, ServiceName::Clipboard, id));

    server.capture_displays(id, VideoSource::Monitor, &vec![1], true, false);
    assert!(subscribed(&server, monitor_name(0), id));
    assert!(subscribed(&server, monitor_name(1), id));
}

#[test]
fn default_admission_excludes_cameras() {
    let mut server = Server::new(7, 0, true, false);
    server.try_add_primay_video_service();
    server.try_add_primary_camera_service();

    let id = admitted_connection(&mut server, &vec![]);

    assert!(subscribed(&server, monitor_name(0), id));
    assert!(!subscribed(&server, camera_name(0), id));
}

#[test]
fn denylist_blocks_audio_subscription() {
    let mut server = Server::new(7, 0, false, false);
    server.try_add_primay_video_service();

    let id = admitted_connection(&mut server, &vec![ServiceName::Audio]);

    assert!(!subscribed(&server, ServiceName::Audio, id));
    assert!(subscribed(&server, ServiceName::Clipboard, id));
    assert!(subscribed(&server, monitor_name(0), id));
}

#[test]
fn denylist_can_block_even_the_primary_monitor() {
    let mut server = Server::new(7, 0, false, false);
    server.try_add_primay_video_service();
    let id = admitted_connection(&mut server, &vec![monitor_name(0)]);
    assert!(!subscribed(&server, monitor_name(0), id));
    assert!(subscribed(&server, ServiceName::Audio, id));
}

#[test]
fn allocator_walks_up_to_the_counter_limit() {
    let mut server = Server::new(7, 0, false, false);
    server.id_count = i32::MAX - 1;
    assert_eq!(server.get_new_id(), i32::MAX);
}

#[test]
fn subscribe_is_idempotent() {
    let mut server = Server::new(7, 0, false, false);
    let id = admitted_connection(&mut server, &vec![ServiceName::Audio]);

    server.subscribe(ServiceName::Audio, id, true);
    let snapshot: Vec<Vec<i32>> = server.services.iter().map(|s| s.subscribers.clone()).collect();
    server.subscribe(ServiceName::Audio, id, true);
    let again: Vec<Vec<i32>> = server.services.iter().map(|s| s.subscribers.clone()).collect();
    assert_eq!(snapshot, again);
    let audio = server.services.iter().find(|s| s.name == ServiceName::Audio).unwrap();
    assert_eq!(audio.subscribers.iter().filter(|c| **c == id).count(), 1);
}

#[test]
fn subscribe_to_unknown_service_is_ignored() {
    let mut server = Server::new(7, 0, false, false);
    let id = admitted_connection(&mut server, &vec![]);
    let before: Vec<Vec<i32>> = server.services.iter().map(|s| s.subscribers.clone()).collect();
    server.subscribe(ServiceName::Printer, id, true);
    let after: Vec<Vec<i32>> = server.services.iter().map(|s| s.subscribers.clone()).collect();
    assert_eq!(before, after);
}

#[test]
fn unsubscribe_then_resubscribe() {
    let mut server = Server::new(7, 0, false, false);
    let id = admitted_connection(&mut server, &vec![]);
    assert!(subscribed(&server, ServiceName::Audio, id));
    server.subscribe(ServiceName::Audio, id, false);
    assert!(!subscribed(&server, ServiceName::Audio, id));
    server.subscribe(ServiceName::Audio, id, true);
    assert!(subscribed(&server, ServiceName::Audio, id));
}

#[test]
fn capture_displays_exclude_half_removes_unlisted() {
    let mut server = Server::new(7, 0, false, false);
    server.try_add_primay_video_service();
    server.services.push(Service::new(monitor_name(1)));
    let id = admitted_connection(&mut server, &vec![]);
    server.capture_displays(id, VideoSource::Monitor, &vec![1], true, false);
    assert!(subscribed(&server, monitor_name(0), id));
    assert!(subscribed(&server, monitor_name(1), id));

    server.capture_displays(id, VideoSource::Monitor, &vec![1], false, true);
    assert!(!subscribed(&server, monitor_name(0), id));
    assert!(subscribed(&server, monitor_name(1), id));

    server.capture_displays(id, VideoSource::Monitor, &vec![0, 1], true, false);
    assert!(subscribed(&server, monitor_name(0), id));
    assert!(subscribed(&server, monitor_name(1), id));
}

#[test]
fn capture_displays_confined_to_requested_source() {
    let mut server = Server::new(7, 0, true, false);
    server.try_add_primay_video_service();
    server.try_add_primary_camera_service();
    let id = admitted_connection(&mut server, &vec![]);
    server.subscribe(camera_name(0), id, true);
    assert!(subscribed(&server, camera_name(0), id));
    assert!(subscribed(&server, monitor_name(0), id));

    server.capture_displays(id, VideoSource::Monitor, &vec![], false, true);
    assert!(!subscribed(&server, monitor_name(0), id));
    assert!(subscribed(&server, camera_name(0), id));
}

#[test]
fn capture_displays_never_touches_nonvideo() {
    let mut server = Server::new(7, 0, false, false);
    server.try_add_primay_video_service();
    let id = admitted_connection(&mut server, &vec![]);
    server.capture_displays(id, VideoSource::Monitor, &vec![], false, true);
    assert!(!subscribed(&server, monitor_name(0), id));
    assert!(subscribed(&server, ServiceName::Audio, id));
    assert!(subscribed(&server, ServiceName::Clipboard, id));
}

#[test]
fn camera_connection_subscribes_camera_only() {
    let mut server = Server::new(7, 0, true, false);
    server.try_add_primay_video_service();
    server.try_add_primary_camera_service();
    let id = server.get_new_id();
    let mut conn = Connection::new(id);
    conn.on_handshake_success();
    server.add_camera_connection(conn);

    assert!(subscribed(&server, camera_name(0), id));
    assert!(!subscribed(&server, monitor_name(0), id));
    assert!(!subscribed(&server, ServiceName::Audio, id));
    assert_eq!(server.connections.len(), 1);
}

#[test]
fn remove_connection_unsubscribes_everywhere() {
    let mut server = Server::new(7, 0, false, false);
    server.try_add_primay_video_service();
    let id = admitted_connection(&mut server, &vec![]);
    assert_eq!(server.connections.len(), 1);

    server.remove_connection(id);
    assert!(server.connections.is_empty());
    for svc in &server.services {
        assert!(!svc.subscribers.contains(&id));
    }
}

#[test]
fn remove_unknown_connection_is_ignored() {
    let mut server = Server::new(7, 0, false, false);
    let id = admitted_connection(&mut server, &vec![]);
    server.remove_connection(id + 5);
    assert_eq!(server.connections.len(), 1);
    assert!(subscribed(&server, ServiceName::Audio, id));
}

#[test]
fn close_connections_queues_stop_for_all() {
    let mut server = Server::new(7, 0, false, false);
    let a = admitted_connection(&mut server, &vec![]);
    let b = admitted_connection(&mut server, &vec![]);
    assert!(a != b);

    server.close_connections();
    assert_eq!(server.connections.len(), 2);
    for conn in &server.connections {
        assert_eq!(conn.outbound, vec![OutboundMessage::StopService]);
    }
}

#[test]
fn close_connections_skips_closed() {
    let mut server = Server::new(7, 0, false, false);
    let id = server.get_new_id();
    let mut conn = Connection::new(id);
    conn.on_handshake_success();
    conn.begin_close();
    conn.finish_close();
    server.add_connection(conn, &vec![]);

    server.close_connections();
    assert_eq!(server.connections[0].state, ConnState::Closed);
    assert!(server.connections[0].outbound.is_empty());
}

#[test]
fn shutdown_joins_every_worker_and_clears_connections() {
    let mut server = Server::new(7, 0, true, false);
    server.try_add_primay_video_service();
    server.try_add_primary_camera_service();
    let _ = admitted_connection(&mut server, &vec![]);
    let _ = admitted_connection(&mut server, &vec![]);

    server.shutdown();
    assert!(server.connections.is_empty());
    for svc in &server.services {
        assert_eq!(svc.worker, WorkerStatus::Joined);
        assert!(!svc.ok);
    }
}

#[test]
fn shutdown_is_idempotent() {
    let mut server = Server::new(7, 0, false, false);
    let _ = admitted_connection(&mut server, &vec![]);
    server.shutdown();
    let workers: Vec<WorkerStatus> = server.services.iter().map(|s| s.worker).collect();
    server.shutdown();
    let again: Vec<WorkerStatus> = server.services.iter().map(|s| s.worker).collect();
    assert_eq!(workers, again);
    assert!(server.connections.is_empty());
}

#[test]
fn subbed_displays_count_counts_video_only() {
    let mut server = Server::new(7, 0, false, false);
    server.try_add_primay_video_service();
    server.services.push(Service::new(monitor_name(1)));
    let id = admitted_connection(&mut server, &vec![]);
    assert_eq!(server.get_subbed_displays_count(id), 1);

    server.capture_displays(id, VideoSource::Monitor, &vec![0, 1], true, false);
    assert_eq!(server.get_subbed_displays_count(id), 2);

    server.subscribe(ServiceName::Audio, id, true);
    assert_eq!(server.get_subbed_displays_count(id), 2);
    assert_eq!(server.get_subbed_displays_count(id + 1), 0);
}

#[test]
fn high_res_capture_needs_fewer_than_two_video_services() {
    let mut server = Server::new(7, 0, false, false);
    assert!(server.enable_high_res_capture());
    server.try_add_primay_video_service();
    assert!(server.enable_high_res_capture());
    server.services.push(Service::new(monitor_name(1)));
    assert!(!server.enable_high_res_capture());
}

#[test]
fn service_send_reaches_subscribers_in_order() {
    let mut server = Server::new(7, 0, false, false);
    let listener = admitted_connection(&mut server, &vec![]);
    let deaf = admitted_connection(&mut server, &vec![ServiceName::Audio]);

    let first = OutboundMessage::AudioFormat { sample_rate: 48000, channels: 2 };
    let second = OutboundMessage::AudioFormat { sample_rate: 24000, channels: 1 };
    server.send_from_service(ServiceName::Audio, first);
    server.send_from_service(ServiceName::Audio, second);

    let listening = server.connections.iter().find(|c| c.id == listener).unwrap();
    assert_eq!(listening.outbound, vec![first, second]);
    let other = server.connections.iter().find(|c| c.id == deaf).unwrap();
    assert!(other.outbound.is_empty());
}

#[test]
fn service_send_without_service_sends_nothing() {
    let mut server = Server::new(7, 0, false, false);
    let id = admitted_connection(&mut server, &vec![]);
    server.send_from_service(ServiceName::Printer, OutboundMessage::StopService);
    let conn = server.connections.iter().find(|c| c.id == id).unwrap();
    assert!(conn.outbound.is_empty());
}

#[test]
fn video_service_options_respect_display_filter() {
    let mut server = Server::new(7, 0, false, false);
    server.try_add_primay_video_service();
    server.services.push(Service::new(monitor_name(1)));

    server.set_video_service_opt(Some((VideoSource::Monitor, 0)), "quality", "best");
    let primary = server.services.iter().find(|s| s.name == monitor_name(0)).unwrap();
    let secondary = server.services.iter().find(|s| s.name == monitor_name(1)).unwrap();
    let audio = server.services.iter().find(|s| s.name == ServiceName::Audio).unwrap();
    assert_eq!(primary.options, vec![("quality".to_string(), "best".to_string())]);
    assert!(secondary.options.is_empty());
    assert!(audio.options.is_empty());

    server.set_video_service_opt(None, "fps", "30");
    let primary = server.services.iter().find(|s| s.name == monitor_name(0)).unwrap();
    let secondary = server.services.iter().find(|s| s.name == monitor_name(1)).unwrap();
    let audio = server.services.iter().find(|s| s.name == ServiceName::Audio).unwrap();
    assert_eq!(primary.options.len(), 2);
    assert_eq!(secondary.options, vec![("fps".to_string(), "30".to_string())]);
    assert!(audio.options.is_empty());
}
