use remote_wol::address::{IpAddress, MacAddr};
use remote_wol::ping::{ping_done, PingResponse, ProbeError};
use remote_wol::reply::ReplyCode;
use remote_wol::settings::Settings;
use remote_wol::status::{status_of, submit_disabled, DeviceStatus, StatusAggregator};
use remote_wol::wake::{wake_up, wake_up_sent, TransmitError, WakeOutcome, WakeStep, WakeUpResponse};

fn watched() -> Settings {
    Settings {
        mac_address: MacAddr { octets: [1, 2, 3, 4, 5, 6] },
        passphrase: "longpass1".to_string(),
        ip_address: Some(IpAddress::V4([127, 0, 0, 1])),
    }
}

fn unwatched() -> Settings {
    Settings { ip_address: None, ..watched() }
}

fn reachable() -> PingResponse {
    ping_done(Ok(())).response
}

fn unreachable() -> PingResponse {
    ping_done(Err(ProbeError::Unreachable)).response
}

fn forbidden() -> PingResponse {
    ping_done(Err(ProbeError::PermissionDenied)).response
}

fn sent() -> WakeOutcome {
    WakeOutcome { dispatched: true, error_detail: None }
}

fn not_sent() -> WakeOutcome {
    WakeOutcome { dispatched: false, error_detail: Some("no route".to_string()) }
}

#[test]
fn status_without_settings_is_settings_unavailable() {
    assert_eq!(status_of(None, None, None, false), DeviceStatus::SettingsUnavailable);
    assert_eq!(
        status_of(None, Some(&reachable()), Some(&sent()), true),
        DeviceStatus::SettingsUnavailable
    );
}

#[test]
fn status_without_an_address_is_monitoring_disabled() {
    let settings = unwatched();
    let probes = [None, Some(reachable()), Some(unreachable()), Some(forbidden())];
    let wakes = [None, Some(sent()), Some(not_sent())];
    for probe in probes.iter() {
        for wake in wakes.iter() {
            for fresh in [false, true] {
                assert_eq!(
                    status_of(Some(&settings), probe.as_ref(), wake.as_ref(), fresh),
                    DeviceStatus::MonitoringDisabled
                );
            }
        }
    }
}

#[test]
fn status_without_privilege_is_monitoring_forbidden() {
    let settings = watched();
    assert_eq!(
        status_of(Some(&settings), Some(&forbidden()), None, false),
        DeviceStatus::MonitoringForbidden
    );
    assert_eq!(
        status_of(Some(&settings), Some(&forbidden()), Some(&sent()), true),
        DeviceStatus::MonitoringForbidden
    );
    let odd = PingResponse { success: true, warning: None, error: Some("denied".to_string()) };
    assert_eq!(status_of(Some(&settings), Some(&odd), None, false), DeviceStatus::MonitoringForbidden);
}

#[test]
fn status_before_the_first_probe_is_unknown() {
    let settings = watched();
    assert_eq!(status_of(Some(&settings), None, None, false), DeviceStatus::Unknown);
    assert_eq!(status_of(Some(&settings), None, Some(&sent()), true), DeviceStatus::Unknown);
    assert_eq!(status_of(Some(&settings), None, Some(&not_sent()), true), DeviceStatus::Unknown);
    let mut aggregator = StatusAggregator::new();
    assert_eq!(aggregator.query_status(Some(&settings), None), DeviceStatus::Unknown);
}

#[test]
fn status_of_a_device_that_replied_is_online() {
    let settings = watched();
    assert_eq!(status_of(Some(&settings), Some(&reachable()), None, false), DeviceStatus::Online);
    assert_eq!(
        status_of(Some(&settings), Some(&reachable()), Some(&sent()), true),
        DeviceStatus::Online
    );
}

#[test]
fn online_wins_over_a_failed_wake() {
    let settings = watched();
    assert_eq!(
        status_of(Some(&settings), Some(&reachable()), Some(&not_sent()), true),
        DeviceStatus::Online
    );
    let mut aggregator = StatusAggregator::new();
    aggregator.record_wake(
        &wake_up_sent(Err(TransmitError { detail: "no route".to_string() })).response,
    );
    assert_eq!(
        aggregator.query_status(Some(&settings), Some(&reachable())),
        DeviceStatus::Online
    );
}

#[test]
fn status_after_a_fresh_wake_is_awaiting_online() {
    let settings = watched();
    assert_eq!(
        status_of(Some(&settings), Some(&unreachable()), Some(&sent()), true),
        DeviceStatus::WakeSucceededAwaitingOnline
    );
}

#[test]
fn status_after_a_stale_wake_is_offline() {
    let settings = watched();
    assert_eq!(
        status_of(Some(&settings), Some(&unreachable()), Some(&sent()), false),
        DeviceStatus::Offline
    );
}

#[test]
fn status_after_a_failed_wake_is_wake_failed() {
    let settings = watched();
    assert_eq!(
        status_of(Some(&settings), Some(&unreachable()), Some(&not_sent()), true),
        DeviceStatus::WakeFailed
    );
    assert_eq!(
        status_of(Some(&settings), Some(&unreachable()), Some(&not_sent()), false),
        DeviceStatus::WakeFailed
    );
}

#[test]
fn status_of_a_silent_device_is_offline() {
    let settings = watched();
    assert_eq!(status_of(Some(&settings), Some(&unreachable()), None, false), DeviceStatus::Offline);
    let mut aggregator = StatusAggregator::new();
    assert_eq!(
        aggregator.query_status(Some(&settings), Some(&unreachable())),
        DeviceStatus::Offline
    );
}

#[test]
fn wake_then_probe_goes_from_awaiting_to_online() {
    let settings = watched();
    let mut aggregator = StatusAggregator::new();
    let reply = match wake_up(Some(&settings), "longpass1") {
        WakeStep::Transmit(_) => wake_up_sent(Ok(())),
        WakeStep::Reply(_) => panic!("the configured passphrase was refused"),
    };
    aggregator.record_wake(&reply.response);
    assert_eq!(
        aggregator.query_status(Some(&settings), Some(&unreachable())),
        DeviceStatus::WakeSucceededAwaitingOnline
    );
    assert_eq!(
        aggregator.query_status(Some(&settings), Some(&unreachable())),
        DeviceStatus::WakeSucceededAwaitingOnline
    );
    assert_eq!(
        aggregator.query_status(Some(&settings), Some(&reachable())),
        DeviceStatus::Online
    );
}

#[test]
fn wake_does_not_outlive_an_online_report() {
    let settings = watched();
    let mut aggregator = StatusAggregator::new();
    aggregator.record_wake(&wake_up_sent(Ok(())).response);
    assert_eq!(
        aggregator.query_status(Some(&settings), Some(&reachable())),
        DeviceStatus::Online
    );
    assert_eq!(
        aggregator.query_status(Some(&settings), Some(&unreachable())),
        DeviceStatus::Offline
    );
    aggregator.record_wake(&wake_up_sent(Ok(())).response);
    assert_eq!(
        aggregator.query_status(Some(&settings), Some(&unreachable())),
        DeviceStatus::WakeSucceededAwaitingOnline
    );
}

#[test]
fn rejected_wake_leaves_the_status_as_it_was() {
    let settings = watched();
    let mut aggregator = StatusAggregator::new();
    let reply = match wake_up(Some(&settings), "short") {
        WakeStep::Reply(reply) => reply,
        WakeStep::Transmit(_) => panic!("a datagram for a wrong passphrase"),
    };
    assert_eq!(
        reply.response,
        WakeUpResponse { success: None, error: Some("Wrong passphrase".to_string()) }
    );
    assert!(!reply.response.dispatched());
    aggregator.record_wake(&reply.response);
    assert_eq!(
        aggregator.query_status(Some(&settings), Some(&unreachable())),
        DeviceStatus::Offline
    );
    assert_eq!(aggregator.diagnostic(DeviceStatus::WakeFailed, None), None);
}

#[test]
fn rejected_wake_keeps_an_earlier_wake() {
    let settings = watched();
    let mut aggregator = StatusAggregator::new();
    aggregator.record_wake(&wake_up_sent(Ok(())).response);
    aggregator.record_wake(&WakeUpResponse {
        success: None,
        error: Some("Wrong passphrase".to_string()),
    });
    assert_eq!(
        aggregator.query_status(Some(&settings), Some(&unreachable())),
        DeviceStatus::WakeSucceededAwaitingOnline
    );
}

#[test]
fn diagnostic_goes_with_the_status() {
    let mut aggregator = StatusAggregator::new();
    aggregator.record_wake(
        &wake_up_sent(Err(TransmitError { detail: "no route".to_string() })).response,
    );
    assert_eq!(
        aggregator.diagnostic(DeviceStatus::WakeFailed, Some(&unreachable())),
        Some("Error sending WOL packet: no route".to_string())
    );
    assert_eq!(
        aggregator.diagnostic(DeviceStatus::MonitoringForbidden, Some(&forbidden())),
        Some("Operation not permitted".to_string())
    );
    let warned = PingResponse {
        success: false,
        warning: Some("IP Address was not indicated".to_string()),
        error: None,
    };
    assert_eq!(
        aggregator.diagnostic(DeviceStatus::MonitoringDisabled, Some(&warned)),
        Some("IP Address was not indicated".to_string())
    );
    assert_eq!(aggregator.diagnostic(DeviceStatus::Online, Some(&reachable())), None);
    assert_eq!(aggregator.diagnostic(DeviceStatus::Offline, Some(&forbidden())), None);
    assert_eq!(aggregator.diagnostic(DeviceStatus::MonitoringForbidden, None), None);
}

#[test]
fn reply_codes_have_their_http_status() {
    assert_eq!(ReplyCode::Served.http_status(), 200);
    assert_eq!(ReplyCode::BadRequest.http_status(), 400);
    assert_eq!(ReplyCode::Forbidden.http_status(), 403);
    assert_eq!(ReplyCode::FailedDependency.http_status(), 424);
}

#[test]
fn submit_is_disabled_for_short_passphrases_and_online_devices() {
    assert!(submit_disabled("", DeviceStatus::Offline));
    assert!(submit_disabled("1234567", DeviceStatus::Offline));
    assert!(!submit_disabled("12345678", DeviceStatus::Offline));
    assert!(!submit_disabled("12345678", DeviceStatus::Unknown));
    assert!(submit_disabled("12345678", DeviceStatus::Online));
    assert!(submit_disabled("", DeviceStatus::Online));
}

#[test]
fn no_query_reports_auth_failed() {
    let all_settings = [None, Some(unwatched()), Some(watched())];
    let probes = [None, Some(reachable()), Some(unreachable()), Some(forbidden())];
    let wakes = [None, Some(sent()), Some(not_sent())];
    for settings in all_settings.iter() {
        for probe in probes.iter() {
            for wake in wakes.iter() {
                for fresh in [false, true] {
                    assert_ne!(
                        status_of(settings.as_ref(), probe.as_ref(), wake.as_ref(), fresh),
                        DeviceStatus::AuthFailed
                    );
                }
            }
        }
    }
}
