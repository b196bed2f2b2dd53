use replmux_runtime_cli::broker::{
    after_broker, broker_connect_error, default_socket_path_from, parse_transport,
    read_wire_response, stale_socket, tries_broker, wire_response, AfterBroker,
    BrokerClientError, ConnectErrorKind, KernelResponse, TransportMode,
};

#[test]
fn parses_transport_modes() {
    assert_eq!("auto".parse(), Ok(TransportMode::Auto));
    assert_eq!("local".parse(), Ok(TransportMode::Local));
    assert_eq!("socket".parse(), Ok(TransportMode::Socket));
    assert!("remote".parse::<TransportMode>().is_err());
}

#[test]
fn unknown_transport_names_the_choices() {
    assert_eq!(
        parse_transport("Auto"),
        Err("transport must be auto, local, or socket".to_owned())
    );
}

#[test]
fn broker_answer_reaches_the_client_unchanged() {
    let sent = KernelResponse::Deleted { name: "analysis".to_owned() };
    match read_wire_response(wire_response(Ok(sent))) {
        Ok(KernelResponse::Deleted { name }) => assert_eq!(name, "analysis"),
        other => panic!("unexpected answer: {other:?}"),
    }
    match read_wire_response(wire_response(Err("kernel 'x' not found".to_owned()))) {
        Err(BrokerClientError::Failure(message)) => assert_eq!(message, "kernel 'x' not found"),
        other => panic!("unexpected answer: {other:?}"),
    }
}

#[test]
fn broker_answer_without_payload_is_a_failure() {
    let wire = replmux_runtime_cli::broker::WireResponse { ok: true, response: None, error: None };
    match read_wire_response(wire) {
        Err(BrokerClientError::Failure(message)) => {
            assert_eq!(message, "broker returned no response payload")
        }
        other => panic!("unexpected answer: {other:?}"),
    }
    let wire = replmux_runtime_cli::broker::WireResponse { ok: false, response: None, error: None };
    match read_wire_response(wire) {
        Err(BrokerClientError::Failure(message)) => assert_eq!(message, "broker request failed"),
        other => panic!("unexpected answer: {other:?}"),
    }
}

#[test]
fn auto_mode_falls_back_only_when_nobody_listens() {
    assert!(tries_broker(TransportMode::Auto));
    assert!(tries_broker(TransportMode::Socket));
    assert!(!tries_broker(TransportMode::Local));
    let missing = broker_connect_error("/tmp/b.sock", ConnectErrorKind::NotFound, "gone");
    assert!(matches!(
        after_broker(TransportMode::Auto, "/tmp/b.sock", Err(missing)),
        AfterBroker::ServeLocally
    ));
    let refused = broker_connect_error("/tmp/b.sock", ConnectErrorKind::ConnectionRefused, "no");
    match after_broker(TransportMode::Socket, "/tmp/b.sock", Err(refused)) {
        AfterBroker::Settled(Err(message)) => {
            assert_eq!(message, "broker is unavailable at /tmp/b.sock")
        }
        other => panic!("unexpected outcome: {other:?}"),
    }
    let denied = broker_connect_error("/tmp/b.sock", ConnectErrorKind::Other, "permission denied");
    match after_broker(TransportMode::Auto, "/tmp/b.sock", Err(denied)) {
        AfterBroker::Settled(Err(message)) => assert_eq!(
            message,
            "cannot connect to broker socket /tmp/b.sock: permission denied"
        ),
        other => panic!("unexpected outcome: {other:?}"),
    }
}

#[test]
fn stale_socket_is_replaced_but_a_live_broker_is_not() {
    assert_eq!(
        stale_socket("/tmp/b.sock", None),
        Err("broker is already running at /tmp/b.sock".to_owned())
    );
    assert_eq!(
        stale_socket("/tmp/b.sock", Some((ConnectErrorKind::ConnectionRefused, "refused"))),
        Ok(true)
    );
    assert_eq!(
        stale_socket("/tmp/b.sock", Some((ConnectErrorKind::Other, "denied"))),
        Err("cannot inspect broker socket /tmp/b.sock: denied".to_owned())
    );
}

#[test]
fn broker_socket_defaults_under_home() {
    assert_eq!(
        default_socket_path_from(Some("/run/b.sock".to_owned()), Some("/home/u".to_owned())),
        "/run/b.sock"
    );
    assert_eq!(
        default_socket_path_from(None, Some("/home/u".to_owned())),
        "/home/u/.multirepl/b.sock"
    );
    assert_eq!(default_socket_path_from(None, Some("/".to_owned())), "/.multirepl/b.sock");
    assert_eq!(default_socket_path_from(None, None), ".multirepl/b.sock");
}
