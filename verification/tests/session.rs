use cs104_session::cs104::CauseOfTransmission;
use cs104_session::cs104::ConnectionBuilder;
use cs104_session::cs104::ConnectionError;
use cs104_session::cs104::EngineOp;
use cs104_session::CommonAddr;
use cs104_session::Timestamp;
use cs104_session::IEC_60870_5_104_DEFAULT_PORT;
use cs104_session::QualifierOfInterrogation;

#[test]
fn build_uses_the_well_known_port_by_default() {
    let c = ConnectionBuilder::new("192.168.1.10".to_string()).build();
    assert_eq!(c.address(), "192.168.1.10");
    assert_eq!(c.port(), IEC_60870_5_104_DEFAULT_PORT);
    assert_eq!(c.port(), 2404);
    assert!(c.local_address().is_none());
    assert_eq!(c.local_bind_port(), 0);
    assert!(c.engine_log().is_empty());
}

#[test]
fn build_keeps_the_full_configuration() {
    let c = ConnectionBuilder::new("10.0.0.2".to_string())
        .with_port(2405)
        .with_local_ip("10.0.0.1".to_string())
        .with_local_port(30000)
        .build();
    assert_eq!(c.address(), "10.0.0.2");
    assert_eq!(c.port(), 2405);
    assert_eq!(c.local_address().as_deref(), Some("10.0.0.1"));
    assert_eq!(c.local_bind_port(), 30000);
}

#[test]
fn local_binding_without_port_is_ephemeral() {
    let c = ConnectionBuilder::new("10.0.0.2".to_string())
        .with_local_ip("10.0.0.1".to_string())
        .build();
    assert_eq!(c.local_address().as_deref(), Some("10.0.0.1"));
    assert_eq!(c.local_bind_port(), 0);
}

#[test]
fn successful_connect_keeps_the_single_handle() {
    let c = ConnectionBuilder::new("127.0.0.1".to_string()).build();
    let Ok(connected) = c.connect(true) else {
        panic!("engine accepted the handshake")
    };
    assert_eq!(connected.address(), "127.0.0.1");
    assert_eq!(connected.port(), 2404);
    assert_eq!(
        connected.engine_log().as_slice(),
        [EngineOp::Connect { accepted: true }]
    );
}

#[test]
fn failed_connect_reports_and_leaves_the_session_usable() {
    let c = ConnectionBuilder::new("203.0.113.1".to_string()).build();
    let (c, err) = match c.connect(false) {
        Ok(_) => panic!("the engine rejected the handshake"),
        Err(pair) => pair,
    };
    let ConnectionError::Failed(message) = &err;
    assert_eq!(message, "Failed to connect");
    assert_eq!(err.message(), "Failed to connect");
    // The same disconnected session can retry without rebuilding.
    assert_eq!(c.address(), "203.0.113.1");
    let Ok(connected) = c.connect(true) else {
        panic!("retry succeeded")
    };
    assert_eq!(
        connected.engine_log().as_slice(),
        [
            EngineOp::Connect { accepted: false },
            EngineOp::Connect { accepted: true },
        ]
    );
}

#[test]
fn disconnect_then_connect_returns_to_connected() {
    let c = ConnectionBuilder::new("127.0.0.1".to_string()).build();
    let Ok(c) = c.connect(true) else {
        panic!("first handshake")
    };
    let c = c.disconnect();
    let Ok(c) = c.connect(true) else {
        panic!("second handshake")
    };
    // The handle identity is unchanged across the full cycle: same endpoint,
    // one uninterrupted call history.
    assert_eq!(c.address(), "127.0.0.1");
    assert_eq!(c.port(), 2404);
    assert_eq!(
        c.engine_log().as_slice(),
        [
            EngineOp::Connect { accepted: true },
            EngineOp::Close,
            EngineOp::Connect { accepted: true },
        ]
    );
}

#[test]
fn release_from_disconnected_destroys_exactly_once() {
    let c = ConnectionBuilder::new("127.0.0.1".to_string()).build();
    let released = c.release();
    assert_eq!(released.destroy_calls(), 1);
    assert_eq!(released.engine_log().as_slice(), [EngineOp::Destroy]);
}

#[test]
fn release_from_connected_destroys_exactly_once() {
    let c = ConnectionBuilder::new("127.0.0.1".to_string()).build();
    let Ok(c) = c.connect(true) else {
        panic!("handshake")
    };
    let released = c.release();
    assert_eq!(released.destroy_calls(), 1);
    // Destroy is the last call; its own close step shuts the transport, so
    // no separate disconnect was needed.
    assert_eq!(
        released.engine_log().as_slice(),
        [EngineOp::Connect { accepted: true }, EngineOp::Destroy]
    );
}

#[test]
fn cause_codes_match_the_standard() {
    assert_eq!(CauseOfTransmission::Periodic.as_u8(), 1);
    assert_eq!(CauseOfTransmission::Background.as_u8(), 2);
    assert_eq!(CauseOfTransmission::Spontaneous.as_u8(), 3);
    assert_eq!(CauseOfTransmission::Initialized.as_u8(), 4);
    assert_eq!(CauseOfTransmission::Request.as_u8(), 5);
    assert_eq!(CauseOfTransmission::Activation.as_u8(), 6);
    assert_eq!(CauseOfTransmission::ActivationCon.as_u8(), 7);
    assert_eq!(CauseOfTransmission::Deactivation.as_u8(), 8);
    assert_eq!(CauseOfTransmission::DeactivationCon.as_u8(), 9);
    assert_eq!(CauseOfTransmission::ActivationTermination.as_u8(), 10);
}

#[test]
fn end_to_end_session_records_the_full_exchange() {
    let Ok(mut c) = ConnectionBuilder::new("127.0.0.1".to_string()).build().connect(true) else {
        panic!("the test server accepts")
    };
    c.start_transmission();
    c.send_interrogation_command(
        CauseOfTransmission::Activation,
        QualifierOfInterrogation::Station,
        CommonAddr(1),
    );
    let ts = Timestamp::now_ms();
    c.send_test_command_with_timestamp(0x4938, ts, CommonAddr(1));
    c.stop_transmission();
    let c = c.disconnect();
    let released = c.release();

    let log = released.engine_log();
    assert_eq!(log.len(), 7);
    assert_eq!(log[0], EngineOp::Connect { accepted: true });
    assert_eq!(log[1], EngineOp::StartDt);
    assert_eq!(
        log[2],
        EngineOp::Interrogation {
            cause: 6,
            station: 1,
            qualifier: 20,
        }
    );
    match log[3] {
        EngineOp::ClockSync {
            station,
            test_id,
            time,
        } => {
            assert_eq!(station, 1);
            assert_eq!(test_id, 0x4938);
            assert_eq!(time, ts);
        }
        other => panic!("expected the clock-sync command, got {:?}", other),
    }
    assert_eq!(log[4], EngineOp::StopDt);
    assert_eq!(log[5], EngineOp::Close);
    assert_eq!(log[6], EngineOp::Destroy);
    assert_eq!(released.destroy_calls(), 1);
}

#[test]
fn end_to_end_rejected_connect_stops_the_scenario() {
    let c = ConnectionBuilder::new("127.0.0.1".to_string()).build();
    match c.connect(false) {
        Ok(_) => panic!("the test server rejects"),
        Err((c, _err)) => {
            // Only the connect step failed; nothing later ran, and the
            // session still owns its handle.
            assert_eq!(
                c.engine_log().as_slice(),
                [EngineOp::Connect { accepted: false }]
            );
            let released = c.release();
            assert_eq!(released.destroy_calls(), 1);
        }
    }
}
