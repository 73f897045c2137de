//! The wake request: who may ask, what is sent, and what is answered.

use vstd::prelude::*;
use vstd::string::*;
use vstd::utf8::*;

use crate::address::MacAddr;
use crate::reply::{held, text_of, ReplyCode};
use crate::settings::Settings;

verus! {

/// Whether a supplied passphrase is the configured one.
#[derive(Clone, Copy, Debug, PartialEq, Eq, Structural)]
pub enum AuthResult {
    Authorized,
    Rejected,
}

/// A supplied passphrase is authorized when it is the configured one, letter
/// for letter.
pub open spec fn authorization(configured: Seq<char>, supplied: Seq<char>) -> AuthResult {
    if supplied == configured {
        AuthResult::Authorized
    } else {
        AuthResult::Rejected
    }
}

/// Whether two texts are the same. Texts of one length take the same time
/// whatever they hold: every byte is looked at.
fn same_text(left: &str, right: &str) -> (same: bool)
    ensures
        same == (left@ == right@),
{
    let a = left.as_bytes();
    let b = right.as_bytes();
    proof {
        encode_utf8_decode_utf8(left@);
        encode_utf8_decode_utf8(right@);
    }
    if a.len() != b.len() {
        return false;
    }
    let mut difference: u8 = 0;
    let mut i: usize = 0;
    while i < a.len()
        invariant
            i <= a.len(),
            a.len() == b.len(),
            (difference == 0) <==> (forall|k: int| 0 <= k < i ==> a@[k] == b@[k]),
        decreases a.len() - i,
    {
        let x: u8 = a[i];
        let y: u8 = b[i];
        let mixed: u8 = difference | (x ^ y);
        assert((mixed == 0) <==> (difference == 0 && x == y)) by (bit_vector)
            requires
                mixed == difference | (x ^ y),
        ;
        difference = mixed;
        i += 1;
    }
    assert(difference == 0 ==> a@ =~= b@);
    difference == 0
}

/// Holds a supplied passphrase against the configured one.
pub fn authenticate(settings: &Settings, supplied: &str) -> (result: AuthResult)
    ensures
        result == authorization(settings.passphrase@, supplied@),
{
    if same_text(settings.passphrase.as_str(), supplied) {
        AuthResult::Authorized
    } else {
        AuthResult::Rejected
    }
}

/// A text written over and over, `times` times.
pub open spec fn repeated(unit: Seq<u8>, times: nat) -> Seq<u8>
    decreases times,
{
    if times == 0 {
        Seq::empty()
    } else {
        repeated(unit, (times - 1) as nat) + unit
    }
}

/// The six bytes that open a magic packet.
pub open spec fn preamble() -> Seq<u8> {
    Seq::new(6, |i: int| 0xffu8)
}

/// The magic packet for a hardware address: the preamble, then the address
/// sixteen times.
pub open spec fn magic_packet_of(mac: Seq<u8>) -> Seq<u8> {
    preamble() + repeated(mac, 16)
}

proof fn repeated_layout(unit: Seq<u8>, times: nat)
    requires
        unit.len() == 6,
    ensures
        repeated(unit, times).len() == 6 * times,
        forall|i: int| 0 <= i < 6 * times ==> #[trigger] repeated(unit, times)[i] == unit[i % 6],
    decreases times,
{
    if times > 0 {
        repeated_layout(unit, (times - 1) as nat);
    }
}

/// A magic packet is 102 bytes long: six times `0xFF`, then the six octets
/// of the address in their order, sixteen times over.
pub proof fn magic_packet_layout(mac: Seq<u8>)
    requires
        mac.len() == 6,
    ensures
        magic_packet_of(mac).len() == 102,
        forall|i: int| 0 <= i < 6 ==> #[trigger] magic_packet_of(mac)[i] == 0xff,
        forall|i: int| 6 <= i < 102 ==> #[trigger] magic_packet_of(mac)[i] == mac[(i - 6) % 6],
{
    repeated_layout(mac, 16);
    assert forall|i: int| 6 <= i < 102 implies #[trigger] magic_packet_of(mac)[i] == mac[(i - 6)
        % 6] by {
        assert(magic_packet_of(mac)[i] == repeated(mac, 16)[i - 6]);
    }
}

/// Builds the magic packet for a hardware address.
pub fn magic_packet(mac: &MacAddr) -> (packet: Vec<u8>)
    ensures
        packet@ == magic_packet_of(mac.octets@),
{
    let mut packet: Vec<u8> = Vec::new();
    let mut i: usize = 0;
    while i < 6
        invariant
            i <= 6,
            packet@ == Seq::new(i as nat, |k: int| 0xffu8),
        decreases 6 - i,
    {
        packet.push(0xff);
        i += 1;
        assert(packet@ =~= Seq::new(i as nat, |k: int| 0xffu8));
    }
    let mut round: usize = 0;
    while round < 16
        invariant
            round <= 16,
            packet@ == preamble() + repeated(mac.octets@, round as nat),
        decreases 16 - round,
    {
        let mut j: usize = 0;
        while j < 6
            invariant
                j <= 6,
                packet@ == preamble() + repeated(mac.octets@, round as nat)
                    + mac.octets@.subrange(0, j as int),
            decreases 6 - j,
        {
            packet.push(mac.octets[j]);
            j += 1;
            assert(packet@ =~= preamble() + repeated(mac.octets@, round as nat)
                + mac.octets@.subrange(0, j as int));
        }
        assert(mac.octets@.subrange(0, 6) =~= mac.octets@);
        round += 1;
        assert(packet@ =~= preamble() + repeated(mac.octets@, round as nat));
    }
    packet
}

/// The port that magic packets are sent to.
pub const WAKE_PORT: u16 = 9;

/// The address that magic packets are sent to: every host on the segment.
pub open spec fn broadcast_address() -> Seq<u8> {
    Seq::new(4, |i: int| 0xffu8)
}

/// One UDP datagram that the caller is to broadcast.
#[derive(Clone, Debug, PartialEq, Eq)]
pub struct Datagram {
    pub destination: [u8; 4],
    pub port: u16,
    pub payload: Vec<u8>,
}

/// Why a datagram was not handed to the network, in the words of the
/// network stack.
#[derive(Clone, Debug, PartialEq, Eq)]
pub struct TransmitError {
    pub detail: String,
}

/// What a wake request is answered with. `success` is `None` where the
/// request was not allowed, so that nothing was attempted.
#[derive(Clone, Debug, PartialEq, Eq)]
pub struct WakeUpResponse {
    pub success: Option<bool>,
    pub error: Option<String>,
}

/// A wake response as plain values.
pub struct WakeUpResponseView {
    pub success: Option<bool>,
    pub error: Option<Seq<char>>,
}

impl View for WakeUpResponse {
    type V = WakeUpResponseView;

    open spec fn view(&self) -> WakeUpResponseView {
        WakeUpResponseView { success: self.success, error: text_of(self.error) }
    }
}

/// What became of one wake attempt.
#[derive(Clone, Debug, PartialEq, Eq)]
pub struct WakeOutcome {
    pub dispatched: bool,
    pub error_detail: Option<String>,
}

/// The wake attempt that a response reports: none where the request was not
/// allowed.
pub open spec fn outcome_of(response: WakeUpResponse) -> Option<WakeOutcome> {
    match response.success {
        Some(sent) => Some(WakeOutcome { dispatched: sent, error_detail: response.error }),
        None => None,
    }
}

impl WakeUpResponse {
    /// Whether the magic packet was handed to the network.
    pub open spec fn spec_dispatched(&self) -> bool {
        self.success == Some(true)
    }

    /// Whether the magic packet was handed to the network.
    #[verifier::when_used_as_spec(spec_dispatched)]
    pub fn dispatched(&self) -> (dispatched: bool)
        ensures
            dispatched == self.spec_dispatched(),
    {
        match self.success {
            Some(sent) => sent,
            None => false,
        }
    }

    /// The wake attempt that the response reports, if it reports one.
    pub fn outcome(&self) -> (outcome: Option<WakeOutcome>)
        ensures
            outcome == outcome_of(*self),
    {
        match self.success {
            Some(sent) => {
                let error_detail = match &self.error {
                    Some(text) => Some(text.clone()),
                    None => None,
                };
                Some(WakeOutcome { dispatched: sent, error_detail })
            },
            None => None,
        }
    }
}

/// A wake response together with its class.
#[derive(Clone, Debug, PartialEq, Eq)]
pub struct WakeReply {
    pub response: WakeUpResponse,
    pub code: ReplyCode,
}

/// What follows a wake request: an answer at once, or a datagram to send
/// first.
#[derive(Clone, Debug, PartialEq, Eq)]
pub enum WakeStep {
    Reply(WakeReply),
    Transmit(Datagram),
}

/// A wake step as plain values.
pub enum WakeStepView {
    Reply { response: WakeUpResponseView, code: ReplyCode },
    Transmit { destination: Seq<u8>, port: u16, payload: Seq<u8> },
}

impl View for WakeStep {
    type V = WakeStepView;

    open spec fn view(&self) -> WakeStepView {
        match self {
            WakeStep::Reply(reply) => WakeStepView::Reply {
                response: reply.response@,
                code: reply.code,
            },
            WakeStep::Transmit(datagram) => WakeStepView::Transmit {
                destination: datagram.destination@,
                port: datagram.port,
                payload: datagram.payload@,
            },
        }
    }
}

/// What follows a wake request with a given passphrase, where `settings` are
/// the settings of the process, if it has any.
pub open spec fn wake_step_of(settings: Option<Settings>, passphrase: Seq<char>) -> WakeStepView {
    match settings {
        None => WakeStepView::Reply {
            response: WakeUpResponseView {
                success: Some(false),
                error: Some("Settings not initialized"@),
            },
            code: ReplyCode::FailedDependency,
        },
        Some(s) => match authorization(s.passphrase@, passphrase) {
            AuthResult::Rejected => WakeStepView::Reply {
                response: WakeUpResponseView { success: None, error: Some("Wrong passphrase"@) },
                code: ReplyCode::BadRequest,
            },
            AuthResult::Authorized => WakeStepView::Transmit {
                destination: broadcast_address(),
                port: WAKE_PORT,
                payload: magic_packet_of(s.mac_address.octets@),
            },
        },
    }
}

/// Decides a wake request.
///
/// Without settings, and with a passphrase that is not the configured one,
/// the request is answered at once and nothing is to be sent. With the
/// configured passphrase the one datagram that wakes the device is to be
/// sent; `wake_up_sent` then makes the answer.
pub fn wake_up(settings: Option<&Settings>, passphrase: &str) -> (step: WakeStep)
    ensures
        step@ == wake_step_of(held(settings), passphrase@),
{
    let settings = match settings {
        Some(s) => s,
        None => {
            return WakeStep::Reply(
                WakeReply {
                    response: WakeUpResponse {
                        success: Some(false),
                        error: Some("Settings not initialized".to_owned()),
                    },
                    code: ReplyCode::FailedDependency,
                },
            );
        },
    };
    match authenticate(settings, passphrase) {
        AuthResult::Rejected => WakeStep::Reply(
            WakeReply {
                response: WakeUpResponse {
                    success: None,
                    error: Some("Wrong passphrase".to_owned()),
                },
                code: ReplyCode::BadRequest,
            },
        ),
        AuthResult::Authorized => {
            let destination: [u8; 4] = [0xff, 0xff, 0xff, 0xff];
            assert(destination@ =~= broadcast_address());
            WakeStep::Transmit(
                Datagram { destination, port: WAKE_PORT, payload: magic_packet(&settings.mac_address) },
            )
        },
    }
}

/// A datagram is to be sent exactly when the process has settings and the
/// passphrase is the configured one. Every other request is answered without
/// one.
pub proof fn transmit_iff_authorized(settings: Option<Settings>, passphrase: Seq<char>)
    ensures
        wake_step_of(settings, passphrase) is Transmit <==> (settings matches Some(s)
            && s.passphrase@ == passphrase),
{
}

/// A request with a passphrase that is not the configured one is answered as
/// no wake attempt: its response reports neither success nor failure.
pub proof fn refused_is_no_attempt(settings: Settings, passphrase: Seq<char>)
    requires
        passphrase != settings.passphrase@,
    ensures
        wake_step_of(Some(settings), passphrase) matches WakeStepView::Reply { response, .. }
            && response.success is None,
{
}

/// The answer to a wake request whose datagram was to be sent.
pub open spec fn wake_reply_of(sent: Result<(), TransmitError>) -> (WakeUpResponseView, ReplyCode) {
    match sent {
        Ok(_) => (WakeUpResponseView { success: Some(true), error: None }, ReplyCode::Served),
        Err(e) => (
            WakeUpResponseView {
                success: Some(false),
                error: Some("Error sending WOL packet: "@ + e.detail@),
            },
            ReplyCode::BadRequest,
        ),
    }
}

/// Makes the answer to a wake request from what became of its datagram.
pub fn wake_up_sent(sent: Result<(), TransmitError>) -> (reply: WakeReply)
    ensures
        (reply.response@, reply.code) == wake_reply_of(sent),
{
    match sent {
        Ok(_) => WakeReply {
            response: WakeUpResponse { success: Some(true), error: None },
            code: ReplyCode::Served,
        },
        Err(e) => WakeReply {
            response: WakeUpResponse {
                success: Some(false),
                error: Some("Error sending WOL packet: ".to_owned().concat(e.detail.as_str())),
            },
            code: ReplyCode::BadRequest,
        },
    }
}

} // verus!
