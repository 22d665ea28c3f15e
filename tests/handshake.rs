use mouse_profile::{
    expected_handshake_response, request, ControlHeader, DeviceConfig, HandshakeState, Profile,
    ProtocolError, Session, Transfer, TransferOutcome, TransferStep, EMPTY_FILL, PAYLOAD_LENGTH,
    PROFILE_SIZE,
};

/// A device stand-in: answers the handshake read with `answer` and the profile
/// read with `profile`.
fn run_with(answer: Vec<u8>, profile: Vec<u8>) -> (Session, Vec<Vec<u8>>) {
    let mut session = Session::new();
    let mut written = Vec::new();
    loop {
        let outcome = match session.next_transfer() {
            Transfer::Write { payload, .. } => {
                written.push(payload);
                TransferOutcome::Written
            }
            Transfer::Read { length, .. } => {
                if length == PAYLOAD_LENGTH {
                    TransferOutcome::Received(answer.clone())
                } else {
                    TransferOutcome::Received(profile.clone())
                }
            }
            Transfer::Finished => break,
        };
        session.advance(outcome);
    }
    (session, written)
}

fn sample_profile() -> Vec<u8> {
    (0..PROFILE_SIZE).map(|i| (i % 7) as u8).collect()
}

fn buffer_is_empty(p: &Profile) -> bool {
    p.profile_buf.len() == PROFILE_SIZE && p.profile_buf.iter().all(|b| *b == EMPTY_FILL)
}

#[test]
fn expected_response_has_device_markers() {
    let r = expected_handshake_response();
    assert_eq!(r.len(), 64);
    assert_eq!(r[0], 0xa1);
    assert_eq!(r[1], 0x01);
    assert_eq!(r[17], 0x02);
    assert_eq!(r[18], 0x01);
    assert_eq!(&r[20..24], &[0x67, 0x33, 0x80, 0x19]);
    assert_eq!(r.iter().filter(|b| **b != 0).count(), 8);
}

#[test]
fn requests_carry_report_id_and_command() {
    let h = request(0x02);
    assert_eq!(h.len(), 64);
    assert_eq!(&h[..2], &[0xa1, 0x02]);
    assert!(h[2..].iter().all(|b| *b == 0));
    let r = request(0x12);
    assert_eq!(&r[..2], &[0xa1, 0x12]);
    assert!(r[2..].iter().all(|b| *b == 0));
}

#[test]
fn headers_match_device_protocol() {
    let set = ControlHeader::set_report();
    assert_eq!((set.request_type, set.request, set.value, set.index), (0x21, 0x09, 0x03a1, 0x0001));
    let get = ControlHeader::get_report();
    assert_eq!((get.request_type, get.request, get.value, get.index), (0xa1, 0x01, 0x03a1, 0x0001));
    let c = DeviceConfig::standard();
    assert_eq!((c.vendor_id, c.product_id, c.interface), (0x3367, 0x1980, 0x01));
    assert_eq!(c.timeout_secs, 1000);
}

#[test]
fn transfers_follow_protocol_order() {
    let mut s = Session::new();
    assert_eq!(s.state(), HandshakeState::Idle);
    match s.next_transfer() {
        Transfer::Write { header, payload } => {
            assert_eq!(header, ControlHeader::set_report());
            assert_eq!(payload, request(0x02));
        }
        _ => panic!("expected the handshake request"),
    }
    s.advance(TransferOutcome::Written);
    assert_eq!(s.state(), HandshakeState::HandshakeSent);
    match s.next_transfer() {
        Transfer::Read { header, length } => {
            assert_eq!(header, ControlHeader::get_report());
            assert_eq!(length, 64);
        }
        _ => panic!("expected the handshake read"),
    }
    s.advance(TransferOutcome::Received(expected_handshake_response()));
    assert_eq!(s.state(), HandshakeState::HandshakeVerified);
    match s.next_transfer() {
        Transfer::Write { header, payload } => {
            assert_eq!(header, ControlHeader::set_report());
            assert_eq!(payload, request(0x12));
        }
        _ => panic!("expected the read request"),
    }
    s.advance(TransferOutcome::Written);
    assert_eq!(s.state(), HandshakeState::ReadRequested);
    match s.next_transfer() {
        Transfer::Read { header, length } => {
            assert_eq!(header, ControlHeader::get_report());
            assert_eq!(length, 1041);
        }
        _ => panic!("expected the profile read"),
    }
    s.advance(TransferOutcome::Received(sample_profile()));
    assert_eq!(s.state(), HandshakeState::ProfileReceived);
    assert!(matches!(s.next_transfer(), Transfer::Finished));
}

#[test]
fn handshake_with_expected_response_reaches_profile() {
    let (session, _) = run_with(expected_handshake_response(), sample_profile());
    assert_eq!(session.state(), HandshakeState::ProfileReceived);
    match session.finish() {
        Ok(p) => assert_eq!(p.profile_buf, sample_profile()),
        Err(e) => panic!("unexpected error {e:?}"),
    }
}

#[test]
fn any_single_byte_mutation_aborts_with_verification_error() {
    for i in 0..64 {
        for delta in [1u8, 0x80, 0xff] {
            let mut answer = expected_handshake_response();
            answer[i] = answer[i].wrapping_add(delta);
            let (session, written) = run_with(answer, sample_profile());
            assert_eq!(session.state(), HandshakeState::Failed(ProtocolError::Verification));
            assert!(buffer_is_empty(session.profile()));
            assert_eq!(written.len(), 1);
            assert!(matches!(session.finish(), Err(ProtocolError::Verification)));
        }
    }
}

#[test]
fn wrong_length_response_aborts() {
    let mut longer = expected_handshake_response();
    longer.push(0);
    let (session, _) = run_with(longer, sample_profile());
    assert_eq!(session.state(), HandshakeState::Failed(ProtocolError::Verification));
    let (session, _) = run_with(vec![], sample_profile());
    assert_eq!(session.state(), HandshakeState::Failed(ProtocolError::Verification));
}

#[test]
fn failed_handshake_read_is_verification_error() {
    let mut s = Session::new();
    s.advance(TransferOutcome::Written);
    s.advance(TransferOutcome::Failed);
    assert_eq!(s.state(), HandshakeState::Failed(ProtocolError::Verification));
    assert!(buffer_is_empty(s.profile()));
}

#[test]
fn failed_transfers_name_their_step() {
    let mut s = Session::new();
    s.advance(TransferOutcome::Failed);
    assert_eq!(s.state(), HandshakeState::Failed(ProtocolError::Transport(TransferStep::SendHandshake)));
    assert!(matches!(s.next_transfer(), Transfer::Finished));

    let mut s = Session::new();
    s.advance(TransferOutcome::Written);
    s.advance(TransferOutcome::Received(expected_handshake_response()));
    s.advance(TransferOutcome::Failed);
    assert_eq!(
        s.state(),
        HandshakeState::Failed(ProtocolError::Transport(TransferStep::SendReadRequest))
    );

    let mut s = Session::new();
    s.advance(TransferOutcome::Written);
    s.advance(TransferOutcome::Received(expected_handshake_response()));
    s.advance(TransferOutcome::Written);
    s.advance(TransferOutcome::Failed);
    assert_eq!(s.state(), HandshakeState::Failed(ProtocolError::Transport(TransferStep::ReadProfile)));
    assert!(buffer_is_empty(s.profile()));
}

#[test]
fn short_profile_read_is_transport_error() {
    let (session, _) = run_with(expected_handshake_response(), vec![1u8; 1040]);
    assert_eq!(
        session.state(),
        HandshakeState::Failed(ProtocolError::Transport(TransferStep::ReadProfile))
    );
    assert!(buffer_is_empty(session.profile()));
}

#[test]
fn failure_is_final() {
    let mut s = Session::new();
    s.advance(TransferOutcome::Failed);
    s.advance(TransferOutcome::Written);
    s.advance(TransferOutcome::Received(expected_handshake_response()));
    s.advance(TransferOutcome::Received(sample_profile()));
    assert_eq!(s.state(), HandshakeState::Failed(ProtocolError::Transport(TransferStep::SendHandshake)));
    assert!(buffer_is_empty(s.profile()));
}

#[test]
fn unfinished_read_exposes_no_profile() {
    let s = Session::new();
    assert!(matches!(s.finish(), Err(ProtocolError::Transport(TransferStep::SendHandshake))));
    let mut s = Session::new();
    s.advance(TransferOutcome::Written);
    assert!(matches!(s.finish(), Err(ProtocolError::Transport(TransferStep::ReadHandshake))));
    let mut s = Session::new();
    s.advance(TransferOutcome::Written);
    s.advance(TransferOutcome::Received(expected_handshake_response()));
    s.advance(TransferOutcome::Written);
    assert!(matches!(s.finish(), Err(ProtocolError::Transport(TransferStep::ReadProfile))));
}

#[test]
fn session_writes_only_the_two_requests() {
    let (_, written) = run_with(expected_handshake_response(), sample_profile());
    assert_eq!(written, vec![request(0x02), request(0x12)]);
    assert!(written.iter().all(|p| p.len() == 64));
}

#[test]
fn error_messages_name_the_step() {
    assert_eq!(ProtocolError::Transport(TransferStep::SendHandshake).message(), "handshake failed");
    assert_eq!(
        ProtocolError::Transport(TransferStep::ReadHandshake).message(),
        "reading handshake failed"
    );
    assert_eq!(
        ProtocolError::Transport(TransferStep::SendReadRequest).message(),
        "read request failed"
    );
    assert_eq!(
        ProtocolError::Transport(TransferStep::ReadProfile).message(),
        "reading profile failed"
    );
    assert_eq!(ProtocolError::Verification.message(), "handshake response did not match");
}
