//! The device's status, folded from the latest probe and the latest wake.

use vstd::prelude::*;
use vstd::string::*;

use crate::ping::PingResponse;
use crate::reply::{held, text_of};
use crate::settings::{Settings, MIN_PASSPHRASE_CHARS};
use crate::wake::{outcome_of, WakeOutcome, WakeUpResponse};

verus! {

/// What is known of the device.
#[derive(Clone, Copy, Debug, PartialEq, Eq, Structural)]
pub enum DeviceStatus {
    /// The device was not probed yet.
    Unknown,
    /// The device replied to the latest probe.
    Online,
    /// The device did not reply to the latest probe.
    Offline,
    /// The device did not reply yet, and a magic packet is on its way.
    WakeSucceededAwaitingOnline,
    /// The device did not reply, and the latest magic packet was not sent.
    WakeFailed,
    /// No address to watch is configured.
    MonitoringDisabled,
    /// The process lacks the privilege to probe.
    MonitoringForbidden,
    /// A wake request came with a wrong passphrase. No query reports this:
    /// such a request leaves no trace.
    AuthFailed,
    /// The process has no settings.
    SettingsUnavailable,
}

/// The status that follows from the settings, the latest probe and the
/// latest wake attempt. `wake_is_fresh` says that the wake attempt came after
/// the device was last reported online. The first rule that applies decides:
///
/// 1. without settings, `SettingsUnavailable`;
/// 2. without an address to watch, `MonitoringDisabled`;
/// 3. where the probe could not be made, `MonitoringForbidden`;
/// 4. before the first probe, `Unknown`;
/// 5. where the device replied, `Online`;
/// 6. after a fresh wake attempt that was sent, `WakeSucceededAwaitingOnline`;
/// 7. after a wake attempt that was not sent, `WakeFailed`;
/// 8. else `Offline`.
pub open spec fn device_status(
    settings: Option<Settings>,
    probe: Option<PingResponse>,
    wake: Option<WakeOutcome>,
    wake_is_fresh: bool,
) -> DeviceStatus {
    if settings is None {
        DeviceStatus::SettingsUnavailable
    } else if settings->0.ip_address is None {
        DeviceStatus::MonitoringDisabled
    } else if probe is Some && probe->0.error is Some {
        DeviceStatus::MonitoringForbidden
    } else if probe is None {
        DeviceStatus::Unknown
    } else if probe->0.success {
        DeviceStatus::Online
    } else if wake is Some && wake_is_fresh && wake->0.dispatched {
        DeviceStatus::WakeSucceededAwaitingOnline
    } else if wake is Some && !wake->0.dispatched {
        DeviceStatus::WakeFailed
    } else {
        DeviceStatus::Offline
    }
}

/// Computes `device_status`.
pub fn status_of(
    settings: Option<&Settings>,
    probe: Option<&PingResponse>,
    wake: Option<&WakeOutcome>,
    wake_is_fresh: bool,
) -> (status: DeviceStatus)
    ensures
        status == device_status(held(settings), held(probe), held(wake), wake_is_fresh),
{
    let settings = match settings {
        Some(s) => s,
        None => {
            return DeviceStatus::SettingsUnavailable;
        },
    };
    if settings.ip_address.is_none() {
        return DeviceStatus::MonitoringDisabled;
    }
    let probe = match probe {
        Some(p) => p,
        None => {
            return DeviceStatus::Unknown;
        },
    };
    if probe.error.is_some() {
        return DeviceStatus::MonitoringForbidden;
    }
    if probe.success {
        return DeviceStatus::Online;
    }
    match wake {
        Some(w) => {
            if w.dispatched {
                if wake_is_fresh {
                    DeviceStatus::WakeSucceededAwaitingOnline
                } else {
                    DeviceStatus::Offline
                }
            } else {
                DeviceStatus::WakeFailed
            }
        },
        None => DeviceStatus::Offline,
    }
}

/// The words that go with a status: why no probe could be made, why none
/// was asked for, or why the magic packet was not sent. Other statuses come
/// without words.
pub open spec fn diagnostic_of(
    status: DeviceStatus,
    probe: Option<PingResponse>,
    wake: Option<WakeOutcome>,
) -> Option<Seq<char>> {
    match status {
        DeviceStatus::SettingsUnavailable | DeviceStatus::MonitoringForbidden => match probe {
            Some(p) => text_of(p.error),
            None => None,
        },
        DeviceStatus::MonitoringDisabled => match probe {
            Some(p) => text_of(p.warning),
            None => None,
        },
        DeviceStatus::WakeFailed => match wake {
            Some(w) => text_of(w.error_detail),
            None => None,
        },
        _ => None,
    }
}

fn copy_of(text: &Option<String>) -> (copy: Option<String>)
    ensures
        copy == *text,
{
    match text {
        Some(t) => Some(t.clone()),
        None => None,
    }
}

/// What an aggregator remembers, as plain values.
pub struct WakeMemory {
    /// The latest wake attempt, if there was one.
    pub latest: Option<WakeOutcome>,
    /// Whether that attempt came after the device was last reported online.
    pub fresh: bool,
}

/// The memory after the answer to a wake request. A request that was not
/// allowed is no wake attempt, and changes nothing.
pub open spec fn after_wake(memory: WakeMemory, response: WakeUpResponse) -> WakeMemory {
    match outcome_of(response) {
        Some(outcome) => WakeMemory { latest: Some(outcome), fresh: true },
        None => memory,
    }
}

/// The memory after a status was reported: the latest wake attempt stays,
/// and is fresh no more once the device was reported online.
pub open spec fn after_report(memory: WakeMemory, status: DeviceStatus) -> WakeMemory {
    WakeMemory { latest: memory.latest, fresh: memory.fresh && status != DeviceStatus::Online }
}

/// Remembers the latest wake attempt between queries, and whether it came
/// after the device was last reported online.
#[derive(Debug)]
pub struct StatusAggregator {
    wake: Option<WakeOutcome>,
    fresh: bool,
}

impl View for StatusAggregator {
    type V = WakeMemory;

    closed spec fn view(&self) -> WakeMemory {
        WakeMemory { latest: self.wake, fresh: self.fresh }
    }
}

impl StatusAggregator {
    /// An aggregator that has seen no wake attempt.
    pub fn new() -> (aggregator: StatusAggregator)
        ensures
            aggregator@ == (WakeMemory { latest: None, fresh: false }),
    {
        StatusAggregator { wake: None, fresh: false }
    }

    /// Takes note of the answer to a wake request.
    pub fn record_wake(&mut self, response: &WakeUpResponse)
        ensures
            final(self)@ == after_wake(old(self)@, *response),
    {
        match response.outcome() {
            Some(outcome) => {
                self.wake = Some(outcome);
                self.fresh = true;
            },
            None => {},
        }
    }

    /// Reports the device's status after a probe, or before the first one.
    pub fn query_status(&mut self, settings: Option<&Settings>, probe: Option<&PingResponse>) -> (status:
        DeviceStatus)
        ensures
            status == device_status(held(settings), held(probe), old(self)@.latest, old(self)@.fresh),
            final(self)@ == after_report(old(self)@, status),
    {
        let status = status_of(settings, probe, self.wake.as_ref(), self.fresh);
        if status == DeviceStatus::Online {
            self.fresh = false;
        }
        status
    }

    /// The words that go with a status that `query_status` reported for a
    /// probe.
    pub fn diagnostic(&self, status: DeviceStatus, probe: Option<&PingResponse>) -> (detail: Option<
        String,
    >)
        ensures
            text_of(detail) == diagnostic_of(status, held(probe), self@.latest),
    {
        match status {
            DeviceStatus::SettingsUnavailable | DeviceStatus::MonitoringForbidden => match probe {
                Some(p) => copy_of(&p.error),
                None => None,
            },
            DeviceStatus::MonitoringDisabled => match probe {
                Some(p) => copy_of(&p.warning),
                None => None,
            },
            DeviceStatus::WakeFailed => match &self.wake {
                Some(w) => copy_of(&w.error_detail),
                None => None,
            },
            _ => None,
        }
    }
}

/// Without an address to watch the status is `MonitoringDisabled`, whatever
/// was probed and whatever became of any wake attempt.
pub proof fn unwatched_is_monitoring_disabled(
    settings: Settings,
    probe: Option<PingResponse>,
    wake: Option<WakeOutcome>,
    wake_is_fresh: bool,
)
    requires
        settings.ip_address is None,
    ensures
        device_status(Some(settings), probe, wake, wake_is_fresh)
            == DeviceStatus::MonitoringDisabled,
{
}

/// A watched device that replied to the latest probe is `Online`, whatever
/// became of any wake attempt: also where the latest one was not sent.
pub proof fn reachable_is_online(
    settings: Settings,
    probe: PingResponse,
    wake: Option<WakeOutcome>,
    wake_is_fresh: bool,
)
    requires
        settings.ip_address is Some,
        probe.error is None,
        probe.success,
    ensures
        device_status(Some(settings), Some(probe), wake, wake_is_fresh) == DeviceStatus::Online,
{
}

/// A watched device that was never probed is `Unknown`: without a wake
/// attempt, and with one as well.
pub proof fn unprobed_is_unknown(settings: Settings, wake: Option<WakeOutcome>, wake_is_fresh: bool)
    requires
        settings.ip_address is Some,
    ensures
        device_status(Some(settings), None, wake, wake_is_fresh) == DeviceStatus::Unknown,
{
}

/// A wake request that was not allowed leaves the memory, and with it every
/// later status, as it was.
pub proof fn refused_wake_leaves_no_trace(memory: WakeMemory, response: WakeUpResponse)
    requires
        response.success is None,
    ensures
        after_wake(memory, response) == memory,
{
}

/// After a magic packet was sent, a watched device that does not reply is
/// `WakeSucceededAwaitingOnline`, query after query, until it is reported
/// `Online`. From then on the same silence is `Offline`.
pub proof fn sent_wake_shows_until_online(
    memory: WakeMemory,
    response: WakeUpResponse,
    settings: Settings,
    silent: PingResponse,
    replied: PingResponse,
)
    requires
        response.success == Some(true),
        settings.ip_address is Some,
        silent.error is None && !silent.success,
        replied.error is None && replied.success,
    ensures
        ({
            let woken = after_wake(memory, response);
            let waiting = device_status(Some(settings), Some(silent), woken.latest, woken.fresh);
            let still = after_report(woken, waiting);
            let online = device_status(Some(settings), Some(replied), still.latest, still.fresh);
            let stale = after_report(still, online);
            &&& waiting == DeviceStatus::WakeSucceededAwaitingOnline
            &&& still == woken
            &&& online == DeviceStatus::Online
            &&& device_status(Some(settings), Some(silent), stale.latest, stale.fresh)
                == DeviceStatus::Offline
        }),
{
}

/// No query reports `AuthFailed`.
pub proof fn never_auth_failed(
    settings: Option<Settings>,
    probe: Option<PingResponse>,
    wake: Option<WakeOutcome>,
    wake_is_fresh: bool,
)
    ensures
        device_status(settings, probe, wake, wake_is_fresh) != DeviceStatus::AuthFailed,
{
}

/// Whether the wake form may not be sent: while the passphrase is too short
/// to be the configured one, and while the device is online.
pub fn submit_disabled(passphrase: &str, status: DeviceStatus) -> (disabled: bool)
    ensures
        disabled == (passphrase@.len() < MIN_PASSPHRASE_CHARS || status == DeviceStatus::Online),
{
    passphrase.unicode_len() < MIN_PASSPHRASE_CHARS || status == DeviceStatus::Online
}

} // verus!
