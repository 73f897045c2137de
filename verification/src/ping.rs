//! The liveness probe: what echo request is sent, and what is answered.

use vstd::prelude::*;

use crate::address::{AddressFamily, IpAddress};
use crate::settings::Settings;
use crate::reply::{held, text_of, ReplyCode};

verus! {

/// The time that a probe waits for its reply where the caller names none,
/// in milliseconds.
pub const DEFAULT_TIMEOUT_MS: u64 = 2000;

/// The number of bytes that an echo request carries.
pub const PAYLOAD_LEN: usize = 56;

/// Why a probe found no device.
#[derive(Clone, Copy, Debug, PartialEq, Eq, Structural)]
pub enum ProbeError {
    /// The process may not open the sockets that probing needs.
    PermissionDenied,
    /// No matching reply came in time.
    Unreachable,
}

/// Calls `fastrand::u16` on the full range, which draws from the thread's
/// generator. Nothing is claimed of the number drawn.
#[verifier::external_body]
fn random_identifier() -> u16 {
    fastrand::u16(..)
}

/// One echo request that the caller is to send, through the client of the
/// request's family.
#[derive(Clone, Debug, PartialEq, Eq)]
pub struct ProbeRequest {
    pub address: IpAddress,
    pub family: AddressFamily,
    pub identifier: u16,
    pub sequence: u16,
    pub payload: Vec<u8>,
    pub timeout_ms: u64,
}

/// An echo request as plain values.
pub struct ProbeRequestView {
    pub address: IpAddress,
    pub family: AddressFamily,
    pub identifier: u16,
    pub sequence: u16,
    pub payload: Seq<u8>,
    pub timeout_ms: u64,
}

impl View for ProbeRequest {
    type V = ProbeRequestView;

    open spec fn view(&self) -> ProbeRequestView {
        ProbeRequestView {
            address: self.address,
            family: self.family,
            identifier: self.identifier,
            sequence: self.sequence,
            payload: self.payload@,
            timeout_ms: self.timeout_ms,
        }
    }
}

/// The echo request for an address: of the address's family, first in its
/// sequence, with a payload of `PAYLOAD_LEN` zero bytes, and waiting for the
/// time named or else for `DEFAULT_TIMEOUT_MS`.
pub open spec fn probe_request_of(
    address: IpAddress,
    timeout_ms: Option<u64>,
    identifier: u16,
) -> ProbeRequestView {
    ProbeRequestView {
        address,
        family: address.family(),
        identifier,
        sequence: 0,
        payload: Seq::new(PAYLOAD_LEN as nat, |i: int| 0u8),
        timeout_ms: match timeout_ms {
            Some(t) => t,
            None => DEFAULT_TIMEOUT_MS,
        },
    }
}

/// The identifier that follows another: the next number, and zero after the
/// last.
pub open spec fn identifier_after(identifier: u16) -> u16 {
    if identifier == u16::MAX {
        0
    } else {
        (identifier + 1) as u16
    }
}

/// Plans echo requests, each under an identifier of its own, and keeps the
/// two clients that send them: one for each address family.
pub struct Pinger<C> {
    client_v4: C,
    client_v6: C,
    next_identifier: u16,
}

impl<C> Pinger<C> {
    /// The identifier that the next request will carry.
    pub closed spec fn next_identifier(&self) -> u16 {
        self.next_identifier
    }

    /// The two clients: that for IPv4, then that for IPv6.
    pub closed spec fn clients(&self) -> (C, C) {
        (self.client_v4, self.client_v6)
    }

    /// The client that sends to addresses of a family.
    pub open spec fn client_of(&self, family: AddressFamily) -> C {
        match family {
            AddressFamily::V4 => self.clients().0,
            AddressFamily::V6 => self.clients().1,
        }
    }

    /// A pinger over two clients. Its first identifier is drawn at random.
    pub fn new(client_v4: C, client_v6: C) -> (pinger: Pinger<C>)
        ensures
            pinger.clients() == (client_v4, client_v6),
    {
        Pinger { client_v4, client_v6, next_identifier: random_identifier() }
    }

    /// The client through which a request of a family is to be sent.
    pub fn client(&self, family: AddressFamily) -> (client: &C)
        ensures
            *client == self.client_of(family),
    {
        match family {
            AddressFamily::V4 => &self.client_v4,
            AddressFamily::V6 => &self.client_v6,
        }
    }

    /// Plans one echo request to an address, and moves on to the next
    /// identifier.
    pub fn ping(&mut self, ip_addr: IpAddress, timeout_ms: Option<u64>) -> (request: ProbeRequest)
        ensures
            request@ == probe_request_of(ip_addr, timeout_ms, old(self).next_identifier()),
            final(self).next_identifier() == identifier_after(old(self).next_identifier()),
            final(self).clients() == old(self).clients(),
    {
        let identifier: u16 = self.next_identifier;
        self.next_identifier = if identifier == u16::MAX {
            0
        } else {
            identifier + 1
        };
        let mut payload: Vec<u8> = Vec::new();
        let mut i: usize = 0;
        while i < PAYLOAD_LEN
            invariant
                i <= PAYLOAD_LEN,
                payload@ == Seq::new(i as nat, |k: int| 0u8),
            decreases PAYLOAD_LEN - i,
        {
            payload.push(0);
            i += 1;
            assert(payload@ =~= Seq::new(i as nat, |k: int| 0u8));
        }
        let timeout_ms: u64 = match timeout_ms {
            Some(t) => t,
            None => DEFAULT_TIMEOUT_MS,
        };
        ProbeRequest {
            address: ip_addr,
            family: ip_addr.family(),
            identifier,
            sequence: 0,
            payload,
            timeout_ms,
        }
    }
}

/// Two requests that one pinger plans one after the other carry different
/// identifiers.
pub proof fn identifiers_vary(identifier: u16)
    ensures
        identifier_after(identifier) != identifier,
{
}

/// What a status request is answered with. `success` says that the device
/// replied. `error` says why no probe could be made; `warning` says that
/// none was asked for.
#[derive(Clone, Debug, Default, PartialEq, Eq)]
pub struct PingResponse {
    pub success: bool,
    pub warning: Option<String>,
    pub error: Option<String>,
}

/// A ping response as plain values.
pub struct PingResponseView {
    pub success: bool,
    pub warning: Option<Seq<char>>,
    pub error: Option<Seq<char>>,
}

impl View for PingResponse {
    type V = PingResponseView;

    open spec fn view(&self) -> PingResponseView {
        PingResponseView {
            success: self.success,
            warning: text_of(self.warning),
            error: text_of(self.error),
        }
    }
}

/// A ping response together with its class.
#[derive(Clone, Debug, PartialEq, Eq)]
pub struct PingReply {
    pub response: PingResponse,
    pub code: ReplyCode,
}

/// What follows a status request: an answer at once, or a probe of an
/// address first.
#[derive(Clone, Debug, PartialEq, Eq)]
pub enum PingStep {
    Reply(PingReply),
    Probe(IpAddress),
}

/// A ping step as plain values.
pub enum PingStepView {
    Reply { response: PingResponseView, code: ReplyCode },
    Probe { address: IpAddress },
}

impl View for PingStep {
    type V = PingStepView;

    open spec fn view(&self) -> PingStepView {
        match self {
            PingStep::Reply(reply) => PingStepView::Reply {
                response: reply.response@,
                code: reply.code,
            },
            PingStep::Probe(address) => PingStepView::Probe { address: *address },
        }
    }
}

/// What follows a status request, where `settings` are the settings of the
/// process, if it has any.
pub open spec fn ping_step_of(settings: Option<Settings>) -> PingStepView {
    match settings {
        None => PingStepView::Reply {
            response: PingResponseView {
                success: false,
                warning: None,
                error: Some("Settings not initialized"@),
            },
            code: ReplyCode::FailedDependency,
        },
        Some(s) => match s.ip_address {
            None => PingStepView::Reply {
                response: PingResponseView {
                    success: false,
                    warning: Some("IP Address was not indicated"@),
                    error: None,
                },
                code: ReplyCode::Served,
            },
            Some(address) => PingStepView::Probe { address },
        },
    }
}

/// Decides a status request.
///
/// Without settings, and without an address to watch, the request is
/// answered at once and nothing is probed. Otherwise the configured address
/// is to be probed; `ping_done` then makes the answer.
pub fn ping(settings: Option<&Settings>) -> (step: PingStep)
    ensures
        step@ == ping_step_of(held(settings)),
{
    let settings = match settings {
        Some(s) => s,
        None => {
            return PingStep::Reply(
                PingReply {
                    response: PingResponse {
                        success: false,
                        warning: None,
                        error: Some("Settings not initialized".to_owned()),
                    },
                    code: ReplyCode::FailedDependency,
                },
            );
        },
    };
    match settings.ip_address {
        None => PingStep::Reply(
            PingReply {
                response: PingResponse {
                    success: false,
                    warning: Some("IP Address was not indicated".to_owned()),
                    error: None,
                },
                code: ReplyCode::Served,
            },
        ),
        Some(address) => PingStep::Probe(address),
    }
}

/// The answer to a status request whose probe was to be made.
pub open spec fn ping_reply_of(probed: Result<(), ProbeError>) -> (PingResponseView, ReplyCode) {
    match probed {
        Ok(_) => (PingResponseView { success: true, warning: None, error: None }, ReplyCode::Served),
        Err(ProbeError::Unreachable) => (
            PingResponseView { success: false, warning: None, error: None },
            ReplyCode::Served,
        ),
        Err(ProbeError::PermissionDenied) => (
            PingResponseView {
                success: false,
                warning: None,
                error: Some("Operation not permitted"@),
            },
            ReplyCode::Forbidden,
        ),
    }
}

/// Makes the answer to a status request from what became of its probe.
pub fn ping_done(probed: Result<(), ProbeError>) -> (reply: PingReply)
    ensures
        (reply.response@, reply.code) == ping_reply_of(probed),
{
    match probed {
        Ok(_) => PingReply {
            response: PingResponse { success: true, warning: None, error: None },
            code: ReplyCode::Served,
        },
        Err(ProbeError::Unreachable) => PingReply {
            response: PingResponse { success: false, warning: None, error: None },
            code: ReplyCode::Served,
        },
        Err(ProbeError::PermissionDenied) => PingReply {
            response: PingResponse {
                success: false,
                warning: None,
                error: Some("Operation not permitted".to_owned()),
            },
            code: ReplyCode::Forbidden,
        },
    }
}

} // verus!
