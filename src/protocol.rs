//! The handshake that precedes a profile read, as a state machine.
//!
//! A transport asks the session which control transfer to make next, makes
//! it, and hands the outcome back. The session checks each answer and keeps
//! the profile buffer untouched until the whole profile has arrived.

use vstd::prelude::*;

use crate::profile::{empty_buffer, Profile, PROFILE_SIZE};

verus! {

/// The vendor identifier of the device.
pub const VENDOR_ID: u16 = 0x3367;

/// The product identifier of the device.
pub const PRODUCT_ID: u16 = 0x1980;

/// The interface that the transfers go through.
pub const INTERFACE: u8 = 0x01;

/// The time that one transfer may take, in seconds.
pub const TIMEOUT_SECS: u64 = 1000;

/// The length of every payload but the profile itself.
pub const PAYLOAD_LENGTH: usize = 64;

/// The first byte of every request payload.
pub const REPORT_ID: u8 = 0xa1;

/// The command byte that starts a handshake.
pub const HANDSHAKE_COMMAND: u8 = 0x02;

/// The command byte that asks for the whole profile.
pub const READ_PROFILE_COMMAND: u8 = 0x12;

/// The fields of a control transfer's setup packet.
#[derive(Clone, Copy, PartialEq, Eq, Structural, Debug)]
pub struct ControlHeader {
    pub request_type: u8,
    pub request: u8,
    pub value: u16,
    pub index: u16,
}

/// The header of a transfer from host to device.
pub open spec fn set_report_header() -> ControlHeader {
    ControlHeader { request_type: 0x21, request: 0x09, value: 0x03a1, index: 0x0001 }
}

/// The header of a transfer from device to host.
pub open spec fn get_report_header() -> ControlHeader {
    ControlHeader { request_type: 0xa1, request: 0x01, value: 0x03a1, index: 0x0001 }
}

impl ControlHeader {
    /// The header of a transfer from host to device.
    pub fn set_report() -> (r: Self)
        ensures
            r == set_report_header(),
    {
        ControlHeader { request_type: 0x21, request: 0x09, value: 0x03a1, index: 0x0001 }
    }

    /// The header of a transfer from device to host.
    pub fn get_report() -> (r: Self)
        ensures
            r == get_report_header(),
    {
        ControlHeader { request_type: 0xa1, request: 0x01, value: 0x03a1, index: 0x0001 }
    }
}

/// Where the device is found and how long a transfer may take.
#[derive(Clone, Copy, PartialEq, Eq, Structural, Debug)]
pub struct DeviceConfig {
    pub vendor_id: u16,
    pub product_id: u16,
    pub interface: u8,
    pub timeout_secs: u64,
}

impl DeviceConfig {
    /// The configuration of the supported mouse.
    pub fn standard() -> (r: Self)
        ensures
            r == (DeviceConfig {
                vendor_id: VENDOR_ID,
                product_id: PRODUCT_ID,
                interface: INTERFACE,
                timeout_secs: TIMEOUT_SECS,
            }),
    {
        DeviceConfig {
            vendor_id: VENDOR_ID,
            product_id: PRODUCT_ID,
            interface: INTERFACE,
            timeout_secs: TIMEOUT_SECS,
        }
    }
}

/// A request payload: the report identifier, the command byte, then zeros.
pub open spec fn request_payload(command: u8) -> Seq<u8> {
    Seq::new(
        PAYLOAD_LENGTH as nat,
        |i: int|
            if i == 0 {
                REPORT_ID
            } else if i == 1 {
                command
            } else {
                0u8
            },
    )
}

/// The byte at `i` of the device's answer to a handshake. Offset 18 holds the
/// protocol version marker, offsets 20 to 23 the vendor and product
/// identifiers, little-endian.
pub open spec fn expected_response_byte(i: int) -> u8 {
    if i == 0 {
        0xa1
    } else if i == 1 {
        0x01
    } else if i == 17 {
        0x02
    } else if i == 18 {
        0x01
    } else if i == 20 {
        0x67
    } else if i == 21 {
        0x33
    } else if i == 22 {
        0x80
    } else if i == 23 {
        0x19
    } else {
        0x00
    }
}

/// The device's answer to a handshake.
pub open spec fn expected_response() -> Seq<u8> {
    Seq::new(PAYLOAD_LENGTH as nat, |i: int| expected_response_byte(i))
}

/// The payload of a request with the given command byte.
pub fn request(command: u8) -> (r: Vec<u8>)
    ensures
        r@ == request_payload(command),
{
    let mut r: Vec<u8> = vec![0u8; PAYLOAD_LENGTH];
    r.set(0, REPORT_ID);
    r.set(1, command);
    assert(r@ =~= request_payload(command));
    r
}

fn response_byte(i: usize) -> (b: u8)
    ensures
        b == expected_response_byte(i as int),
{
    match i {
        0 => 0xa1,
        1 => 0x01,
        17 => 0x02,
        18 => 0x01,
        20 => 0x67,
        21 => 0x33,
        22 => 0x80,
        23 => 0x19,
        _ => 0x00,
    }
}

/// The answer that a device gives to a handshake.
pub fn expected_handshake_response() -> (r: Vec<u8>)
    ensures
        r@ == expected_response(),
{
    let mut r: Vec<u8> = Vec::new();
    let mut i: usize = 0;
    while i < PAYLOAD_LENGTH
        invariant
            i <= PAYLOAD_LENGTH,
            r@ =~= expected_response().take(i as int),
        decreases PAYLOAD_LENGTH - i,
    {
        r.push(response_byte(i));
        i = i + 1;
    }
    r
}

/// Compares an answer with the expected handshake response, byte for byte.
pub fn is_expected_response(answer: &Vec<u8>) -> (r: bool)
    ensures
        r == (answer@ == expected_response()),
{
    if answer.len() != PAYLOAD_LENGTH {
        return false;
    }
    let mut i: usize = 0;
    while i < PAYLOAD_LENGTH
        invariant
            answer.len() == PAYLOAD_LENGTH,
            i <= PAYLOAD_LENGTH,
            answer@.take(i as int) =~= expected_response().take(i as int),
        decreases PAYLOAD_LENGTH - i,
    {
        if answer[i] != response_byte(i) {
            assert(answer@[i as int] != expected_response()[i as int]);
            return false;
        }
        i = i + 1;
    }
    assert(answer@ =~= answer@.take(PAYLOAD_LENGTH as int));
    assert(expected_response() =~= expected_response().take(PAYLOAD_LENGTH as int));
    true
}

/// The transfers of a profile read, in the order they are made.
#[derive(Clone, Copy, PartialEq, Eq, Structural, Debug)]
pub enum TransferStep {
    SendHandshake,
    ReadHandshake,
    SendReadRequest,
    ReadProfile,
}

/// Why a profile read was abandoned.
#[derive(Clone, Copy, PartialEq, Eq, Structural, Debug)]
pub enum ProtocolError {
    /// The transfer of this step could not be made, or timed out.
    Transport(TransferStep),
    /// The device did not give the expected answer to the handshake.
    Verification,
}

/// A short description of an error, naming the step it arose in.
pub open spec fn error_text(e: ProtocolError) -> Seq<char> {
    match e {
        ProtocolError::Transport(TransferStep::SendHandshake) => "handshake failed"@,
        ProtocolError::Transport(TransferStep::ReadHandshake) => "reading handshake failed"@,
        ProtocolError::Transport(TransferStep::SendReadRequest) => "read request failed"@,
        ProtocolError::Transport(TransferStep::ReadProfile) => "reading profile failed"@,
        ProtocolError::Verification => "handshake response did not match"@,
    }
}

impl ProtocolError {
    /// A short description of the error, naming the step it arose in.
    pub fn message(&self) -> (r: String)
        ensures
            r@ == error_text(*self),
    {
        match self {
            ProtocolError::Transport(TransferStep::SendHandshake) => String::from_str(
                "handshake failed",
            ),
            ProtocolError::Transport(TransferStep::ReadHandshake) => String::from_str(
                "reading handshake failed",
            ),
            ProtocolError::Transport(TransferStep::SendReadRequest) => String::from_str(
                "read request failed",
            ),
            ProtocolError::Transport(TransferStep::ReadProfile) => String::from_str(
                "reading profile failed",
            ),
            ProtocolError::Verification => String::from_str("handshake response did not match"),
        }
    }
}

/// Where a profile read stands.
#[derive(Clone, Copy, PartialEq, Eq, Structural, Debug)]
pub enum HandshakeState {
    Idle,
    HandshakeSent,
    HandshakeVerified,
    ReadRequested,
    ProfileReceived,
    Failed(ProtocolError),
}

/// A control transfer for the transport to make.
pub enum Transfer {
    /// Send `payload` to the device.
    Write { header: ControlHeader, payload: Vec<u8> },
    /// Read `length` bytes from the device.
    Read { header: ControlHeader, length: usize },
    /// Nothing is left to do.
    Finished,
}

/// A transfer as the state machine describes it.
pub enum TransferSpec {
    Write { header: ControlHeader, payload: Seq<u8> },
    Read { header: ControlHeader, length: nat },
    Finished,
}

impl View for Transfer {
    type V = TransferSpec;

    open spec fn view(&self) -> TransferSpec {
        match self {
            Transfer::Write { header, payload } => TransferSpec::Write {
                header: *header,
                payload: payload@,
            },
            Transfer::Read { header, length } => TransferSpec::Read {
                header: *header,
                length: *length as nat,
            },
            Transfer::Finished => TransferSpec::Finished,
        }
    }
}

/// What came of a transfer.
pub enum TransferOutcome {
    /// The payload was sent.
    Written,
    /// These bytes were read.
    Received(Vec<u8>),
    /// The transfer failed or timed out.
    Failed,
}

/// An outcome as the state machine describes it.
pub enum Outcome {
    Written,
    Received(Seq<u8>),
    Failed,
}

impl View for TransferOutcome {
    type V = Outcome;

    open spec fn view(&self) -> Outcome {
        match self {
            TransferOutcome::Written => Outcome::Written,
            TransferOutcome::Received(bytes) => Outcome::Received(bytes@),
            TransferOutcome::Failed => Outcome::Failed,
        }
    }
}

/// The transfer to make in `state`.
pub open spec fn transfer_for(state: HandshakeState) -> TransferSpec {
    match state {
        HandshakeState::Idle => TransferSpec::Write {
            header: set_report_header(),
            payload: request_payload(HANDSHAKE_COMMAND),
        },
        HandshakeState::HandshakeSent => TransferSpec::Read {
            header: get_report_header(),
            length: PAYLOAD_LENGTH as nat,
        },
        HandshakeState::HandshakeVerified => TransferSpec::Write {
            header: set_report_header(),
            payload: request_payload(READ_PROFILE_COMMAND),
        },
        HandshakeState::ReadRequested => TransferSpec::Read {
            header: get_report_header(),
            length: PROFILE_SIZE as nat,
        },
        _ => TransferSpec::Finished,
    }
}

/// The step whose transfer `state` waits for.
pub open spec fn pending_step(state: HandshakeState) -> TransferStep {
    match state {
        HandshakeState::Idle => TransferStep::SendHandshake,
        HandshakeState::HandshakeSent => TransferStep::ReadHandshake,
        HandshakeState::HandshakeVerified => TransferStep::SendReadRequest,
        _ => TransferStep::ReadProfile,
    }
}

/// The state and buffer after the outcome `o` of the transfer that `state`
/// asked for. A failure or a wrong answer ends the read for good; the buffer
/// changes only when the whole profile arrives.
pub open spec fn step(state: HandshakeState, buf: Seq<u8>, o: Outcome) -> (HandshakeState, Seq<u8>) {
    match state {
        HandshakeState::Idle => match o {
            Outcome::Written => (HandshakeState::HandshakeSent, buf),
            _ => (HandshakeState::Failed(ProtocolError::Transport(TransferStep::SendHandshake)), buf),
        },
        HandshakeState::HandshakeSent => match o {
            Outcome::Received(answer) => if answer == expected_response() {
                (HandshakeState::HandshakeVerified, buf)
            } else {
                (HandshakeState::Failed(ProtocolError::Verification), buf)
            },
            _ => (HandshakeState::Failed(ProtocolError::Verification), buf),
        },
        HandshakeState::HandshakeVerified => match o {
            Outcome::Written => (HandshakeState::ReadRequested, buf),
            _ => (
                HandshakeState::Failed(ProtocolError::Transport(TransferStep::SendReadRequest)),
                buf,
            ),
        },
        HandshakeState::ReadRequested => match o {
            Outcome::Received(profile) => if profile.len() == PROFILE_SIZE {
                (HandshakeState::ProfileReceived, profile)
            } else {
                (HandshakeState::Failed(ProtocolError::Transport(TransferStep::ReadProfile)), buf)
            },
            _ => (HandshakeState::Failed(ProtocolError::Transport(TransferStep::ReadProfile)), buf),
        },
        _ => (state, buf),
    }
}

/// The state and buffer after a series of outcomes.
pub open spec fn run(state: HandshakeState, buf: Seq<u8>, outcomes: Seq<Outcome>) -> (
    HandshakeState,
    Seq<u8>,
)
    decreases outcomes.len(),
{
    if outcomes.len() == 0 {
        (state, buf)
    } else {
        let (next, next_buf) = step(state, buf, outcomes[0]);
        run(next, next_buf, outcomes.drop_first())
    }
}

/// One profile read against a device: its state and the profile it fills.
pub struct Session {
    state: HandshakeState,
    profile: Profile,
}

impl View for Session {
    type V = (HandshakeState, Seq<u8>);

    closed spec fn view(&self) -> (HandshakeState, Seq<u8>) {
        (self.state, self.profile.profile_buf@)
    }
}

impl Session {
    /// The profile can be decoded with the registry of the device's layout.
    pub closed spec fn well_formed(&self) -> bool {
        &&& self.profile.well_formed()
        &&& self.profile.profile_fields.is_device_layout()
    }

    /// A read that has not started, with an empty profile.
    pub fn new() -> (r: Self)
        ensures
            r@ == (HandshakeState::Idle, empty_buffer()),
            r.well_formed(),
    {
        Session { state: HandshakeState::Idle, profile: Profile::init() }
    }

    /// Where the read stands.
    pub fn state(&self) -> (r: HandshakeState)
        ensures
            r == self@.0,
    {
        self.state
    }

    /// The profile as it stands; its buffer is filled only once the read is
    /// complete.
    pub fn profile(&self) -> (r: &Profile)
        requires
            self.well_formed(),
        ensures
            r.profile_buf@ == self@.1,
            r.well_formed(),
            r.profile_fields.is_device_layout(),
    {
        &self.profile
    }

    /// The transfer to make next.
    pub fn next_transfer(&self) -> (r: Transfer)
        ensures
            r@ == transfer_for(self@.0),
    {
        match self.state {
            HandshakeState::Idle => Transfer::Write {
                header: ControlHeader::set_report(),
                payload: request(HANDSHAKE_COMMAND),
            },
            HandshakeState::HandshakeSent => Transfer::Read {
                header: ControlHeader::get_report(),
                length: PAYLOAD_LENGTH,
            },
            HandshakeState::HandshakeVerified => Transfer::Write {
                header: ControlHeader::set_report(),
                payload: request(READ_PROFILE_COMMAND),
            },
            HandshakeState::ReadRequested => Transfer::Read {
                header: ControlHeader::get_report(),
                length: PROFILE_SIZE,
            },
            _ => Transfer::Finished,
        }
    }

    /// Takes in the outcome of the transfer that `next_transfer` asked for.
    pub fn advance(&mut self, outcome: TransferOutcome)
        requires
            old(self).well_formed(),
        ensures
            final(self)@ == step(old(self)@.0, old(self)@.1, outcome@),
            final(self).well_formed(),
    {
        let next = match self.state {
            HandshakeState::Idle => match outcome {
                TransferOutcome::Written => HandshakeState::HandshakeSent,
                _ => HandshakeState::Failed(ProtocolError::Transport(TransferStep::SendHandshake)),
            },
            HandshakeState::HandshakeSent => match outcome {
                TransferOutcome::Received(answer) => if is_expected_response(&answer) {
                    HandshakeState::HandshakeVerified
                } else {
                    HandshakeState::Failed(ProtocolError::Verification)
                },
                _ => HandshakeState::Failed(ProtocolError::Verification),
            },
            HandshakeState::HandshakeVerified => match outcome {
                TransferOutcome::Written => HandshakeState::ReadRequested,
                _ => HandshakeState::Failed(
                    ProtocolError::Transport(TransferStep::SendReadRequest),
                ),
            },
            HandshakeState::ReadRequested => match outcome {
                TransferOutcome::Received(bytes) => if bytes.len() == PROFILE_SIZE {
                    self.profile.update(bytes.as_slice());
                    HandshakeState::ProfileReceived
                } else {
                    HandshakeState::Failed(ProtocolError::Transport(TransferStep::ReadProfile))
                },
                _ => HandshakeState::Failed(ProtocolError::Transport(TransferStep::ReadProfile)),
            },
            other => other,
        };
        self.state = next;
    }

    /// The profile of a completed read, or why the read did not complete.
    /// A read that stopped before its end names the step it waited for.
    pub fn finish(self) -> (r: Result<Profile, ProtocolError>)
        requires
            self.well_formed(),
        ensures
            match self@.0 {
                HandshakeState::ProfileReceived => r matches Ok(p) && p.profile_buf@ == self@.1
                    && p.well_formed() && p.profile_fields.is_device_layout(),
                HandshakeState::Failed(e) => r == Err::<Profile, ProtocolError>(e),
                other => r == Err::<Profile, ProtocolError>(
                    ProtocolError::Transport(pending_step(other)),
                ),
            },
    {
        match self.state {
            HandshakeState::ProfileReceived => Ok(self.profile),
            HandshakeState::Failed(e) => Err(e),
            HandshakeState::Idle => Err(ProtocolError::Transport(TransferStep::SendHandshake)),
            HandshakeState::HandshakeSent => Err(
                ProtocolError::Transport(TransferStep::ReadHandshake),
            ),
            HandshakeState::HandshakeVerified => Err(
                ProtocolError::Transport(TransferStep::SendReadRequest),
            ),
            HandshakeState::ReadRequested => Err(
                ProtocolError::Transport(TransferStep::ReadProfile),
            ),
        }
    }
}

/// A read that has failed stays failed, with its buffer as it was, whatever
/// comes after.
pub proof fn lemma_failure_is_final(e: ProtocolError, buf: Seq<u8>, outcomes: Seq<Outcome>)
    ensures
        run(HandshakeState::Failed(e), buf, outcomes) == (HandshakeState::Failed(e), buf),
    decreases outcomes.len(),
{
    if outcomes.len() > 0 {
        lemma_failure_is_final(e, buf, outcomes.drop_first());
    }
}

/// A device that gives the expected handshake response and then a whole
/// profile brings the read to its end, and the profile becomes the buffer.
pub proof fn lemma_handshake_completes(buf: Seq<u8>, profile: Seq<u8>)
    requires
        profile.len() == PROFILE_SIZE,
    ensures
        run(
            HandshakeState::Idle,
            buf,
            seq![
                Outcome::Written,
                Outcome::Received(expected_response()),
                Outcome::Written,
                Outcome::Received(profile),
            ],
        ) == (HandshakeState::ProfileReceived, profile),
{
    let o0 = seq![
        Outcome::Written,
        Outcome::Received(expected_response()),
        Outcome::Written,
        Outcome::Received(profile),
    ];
    let o1 = o0.drop_first();
    let o2 = o1.drop_first();
    let o3 = o2.drop_first();
    let o4 = o3.drop_first();
    assert(o1 =~= seq![
        Outcome::Received(expected_response()),
        Outcome::Written,
        Outcome::Received(profile),
    ]);
    assert(o2 =~= seq![Outcome::Written, Outcome::Received(profile)]);
    assert(o3 =~= seq![Outcome::Received(profile)]);
    assert(o4 =~= Seq::<Outcome>::empty());
    assert(run(HandshakeState::ProfileReceived, profile, o4) == (
        HandshakeState::ProfileReceived,
        profile,
    ));
    assert(run(HandshakeState::ReadRequested, buf, o3) == run(
        HandshakeState::ProfileReceived,
        profile,
        o4,
    ));
    assert(run(HandshakeState::HandshakeVerified, buf, o2) == run(
        HandshakeState::ReadRequested,
        buf,
        o3,
    ));
    assert(run(HandshakeState::HandshakeSent, buf, o1) == run(
        HandshakeState::HandshakeVerified,
        buf,
        o2,
    ));
    assert(run(HandshakeState::Idle, buf, o0) == run(HandshakeState::HandshakeSent, buf, o1));
}

/// Any answer to the handshake but the expected one, a single changed byte
/// included, ends the read with a verification error, and the buffer stays
/// as it was whatever comes after.
pub proof fn lemma_mismatched_response_aborts(
    buf: Seq<u8>,
    answer: Seq<u8>,
    rest: Seq<Outcome>,
)
    requires
        answer != expected_response(),
    ensures
        run(
            HandshakeState::Idle,
            buf,
            seq![Outcome::Written, Outcome::Received(answer)] + rest,
        ) == (HandshakeState::Failed(ProtocolError::Verification), buf),
{
    let o0 = seq![Outcome::Written, Outcome::Received(answer)] + rest;
    let o1 = o0.drop_first();
    assert(o1.drop_first() =~= rest);
    assert(o1[0] == Outcome::Received(answer));
    lemma_failure_is_final(ProtocolError::Verification, buf, rest);
    assert(run(HandshakeState::HandshakeSent, buf, o1) == run(
        HandshakeState::Failed(ProtocolError::Verification),
        buf,
        rest,
    ));
    assert(run(HandshakeState::Idle, buf, o0) == run(HandshakeState::HandshakeSent, buf, o1));
}

/// The buffer changes only by the arrival of a whole profile: after any
/// series of outcomes, a read that has not ended in `ProfileReceived` still
/// holds the buffer that it started with.
pub proof fn lemma_no_partial_profile(
    state: HandshakeState,
    buf: Seq<u8>,
    outcomes: Seq<Outcome>,
)
    requires
        state != HandshakeState::ProfileReceived,
    ensures
        run(state, buf, outcomes).0 != HandshakeState::ProfileReceived ==> run(
            state,
            buf,
            outcomes,
        ).1 == buf,
        run(state, buf, outcomes).0 == HandshakeState::ProfileReceived ==> run(
            state,
            buf,
            outcomes,
        ).1.len() == PROFILE_SIZE,
    decreases outcomes.len(),
{
    if outcomes.len() > 0 {
        let (next, next_buf) = step(state, buf, outcomes[0]);
        if next == HandshakeState::ProfileReceived {
            lemma_received_is_final(next_buf, outcomes.drop_first());
        } else {
            lemma_no_partial_profile(next, next_buf, outcomes.drop_first());
        }
    }
}

/// A completed read stays complete, with its profile, whatever comes after.
pub proof fn lemma_received_is_final(buf: Seq<u8>, outcomes: Seq<Outcome>)
    ensures
        run(HandshakeState::ProfileReceived, buf, outcomes) == (
            HandshakeState::ProfileReceived,
            buf,
        ),
    decreases outcomes.len(),
{
    if outcomes.len() > 0 {
        lemma_received_is_final(buf, outcomes.drop_first());
    }
}

} // verus!
