use remote_wol::address::MacAddr;
use remote_wol::reply::ReplyCode;
use remote_wol::settings::Settings;
use remote_wol::status::{DeviceStatus, StatusAggregator};
use remote_wol::wake::{
    authenticate, magic_packet, wake_up, wake_up_sent, AuthResult, Datagram, TransmitError,
    WakeOutcome, WakeReply, WakeStep, WakeUpResponse, WAKE_PORT,
};

fn settings_without_ip() -> Settings {
    Settings {
        mac_address: MacAddr { octets: [0x01, 0x02, 0x03, 0x04, 0x05, 0x06] },
        passphrase: "longpass1".to_string(),
        ip_address: None,
    }
}

#[test]
fn magic_packet_is_preamble_then_sixteen_addresses() {
    let mac = MacAddr::parse("AA:BB:CC:DD:EE:FF").unwrap();
    let packet = magic_packet(&mac);
    assert_eq!(packet.len(), 102);
    assert_eq!(&packet[..6], &[0xFF; 6]);
    for round in 0..16 {
        let at = 6 + round * 6;
        assert_eq!(&packet[at..at + 6], &[0xAA, 0xBB, 0xCC, 0xDD, 0xEE, 0xFF]);
    }
}

#[test]
fn magic_packet_keeps_the_order_of_the_octets() {
    let packet = magic_packet(&MacAddr { octets: [1, 2, 3, 4, 5, 6] });
    let mut expected = vec![0xFFu8; 6];
    for _ in 0..16 {
        expected.extend_from_slice(&[1, 2, 3, 4, 5, 6]);
    }
    assert_eq!(packet, expected);
    assert_eq!(packet[6], 1);
    assert_eq!(packet[11], 6);
    assert_eq!(packet[12], 1);
    assert_eq!(packet[101], 6);
}

#[test]
fn magic_packet_of_the_zero_address() {
    let packet = magic_packet(&MacAddr { octets: [0; 6] });
    assert_eq!(packet.len(), 102);
    assert_eq!(packet.iter().filter(|b| **b == 0xFF).count(), 6);
    assert_eq!(packet.iter().filter(|b| **b == 0).count(), 96);
}

#[test]
fn authenticate_accepts_only_the_configured_passphrase() {
    let settings = settings_without_ip();
    assert_eq!(authenticate(&settings, "longpass1"), AuthResult::Authorized);
    assert_eq!(authenticate(&settings, "longpass2"), AuthResult::Rejected);
    assert_eq!(authenticate(&settings, "longpass"), AuthResult::Rejected);
    assert_eq!(authenticate(&settings, "longpass11"), AuthResult::Rejected);
    assert_eq!(authenticate(&settings, "Longpass1"), AuthResult::Rejected);
    assert_eq!(authenticate(&settings, ""), AuthResult::Rejected);
}

#[test]
fn authenticate_compares_beyond_ascii() {
    let mut settings = settings_without_ip();
    settings.passphrase = "p\u{e4}ssw\u{f6}rd".to_string();
    assert_eq!(authenticate(&settings, "p\u{e4}ssw\u{f6}rd"), AuthResult::Authorized);
    assert_eq!(authenticate(&settings, "passw\u{f6}rd"), AuthResult::Rejected);
    assert_eq!(authenticate(&settings, "p\u{e4}ssw\u{f6}re"), AuthResult::Rejected);
}

#[test]
fn wake_up_without_settings_fails_the_dependency() {
    let step = wake_up(None, "longpass1");
    assert_eq!(
        step,
        WakeStep::Reply(WakeReply {
            response: WakeUpResponse {
                success: Some(false),
                error: Some("Settings not initialized".to_string()),
            },
            code: ReplyCode::FailedDependency,
        })
    );
}

#[test]
fn wake_up_with_a_wrong_passphrase_sends_nothing() {
    let settings = settings_without_ip();
    let step = wake_up(Some(&settings), "short");
    match step {
        WakeStep::Reply(reply) => {
            assert!(!reply.response.dispatched());
            assert_eq!(reply.response.success, None);
            assert_eq!(reply.response.error, Some("Wrong passphrase".to_string()));
            assert_eq!(reply.code, ReplyCode::BadRequest);
            assert_eq!(reply.response.outcome(), None);
        }
        WakeStep::Transmit(_) => panic!("a datagram for a wrong passphrase"),
    }
}

#[test]
fn wake_up_with_the_passphrase_sends_one_magic_packet() {
    let settings = settings_without_ip();
    let step = wake_up(Some(&settings), "longpass1");
    assert_eq!(
        step,
        WakeStep::Transmit(Datagram {
            destination: [255, 255, 255, 255],
            port: 9,
            payload: magic_packet(&settings.mac_address),
        })
    );
    assert_eq!(WAKE_PORT, 9);
}

#[test]
fn wake_up_sent_reports_success() {
    let reply = wake_up_sent(Ok(()));
    assert_eq!(reply.response, WakeUpResponse { success: Some(true), error: None });
    assert_eq!(reply.code, ReplyCode::Served);
    assert!(reply.response.dispatched());
    assert_eq!(
        reply.response.outcome(),
        Some(WakeOutcome { dispatched: true, error_detail: None })
    );
}

#[test]
fn wake_up_sent_reports_the_failure_in_the_stack_s_words() {
    let reply = wake_up_sent(Err(TransmitError { detail: "Network is unreachable".to_string() }));
    assert_eq!(reply.response.success, Some(false));
    assert_eq!(
        reply.response.error,
        Some("Error sending WOL packet: Network is unreachable".to_string())
    );
    assert_eq!(reply.code, ReplyCode::BadRequest);
    assert!(!reply.response.dispatched());
    assert_eq!(
        reply.response.outcome(),
        Some(WakeOutcome {
            dispatched: false,
            error_detail: Some("Error sending WOL packet: Network is unreachable".to_string()),
        })
    );
}

#[test]
fn wake_without_monitoring_dispatches_and_reports_monitoring_disabled() {
    let settings = settings_without_ip();
    let mut aggregator = StatusAggregator::new();
    let reply = match wake_up(Some(&settings), "longpass1") {
        WakeStep::Transmit(datagram) => {
            assert_eq!(datagram.payload.len(), 102);
            assert_eq!(&datagram.payload[6..12], &[1, 2, 3, 4, 5, 6]);
            wake_up_sent(Ok(()))
        }
        WakeStep::Reply(_) => panic!("the configured passphrase was refused"),
    };
    assert!(reply.response.dispatched());
    aggregator.record_wake(&reply.response);
    assert_eq!(aggregator.query_status(Some(&settings), None), DeviceStatus::MonitoringDisabled);
}
