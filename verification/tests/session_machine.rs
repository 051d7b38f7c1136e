use voice_call_core::audio::{AudioManager, HwStub};
use voice_call_core::errors::{AudioError, CallError, SignalError};
use voice_call_core::session::{CallSession, CallState, TransportStub};
use voice_call_core::signaling::{
    decode_envelope_bytes, encode_envelope_bytes, Envelope, RelayStub, SdpKind, SessionDesc,
    SignalingClient,
};

fn desc(kind: SdpKind, sdp: &[u8]) -> SessionDesc {
    SessionDesc { kind, sdp: sdp.to_vec() }
}

fn hw_ok() -> HwStub {
    HwStub { input_device: true, output_device: true, config_ok: true }
}

fn relay_ok() -> RelayStub {
    RelayStub { reachable: true, write_completes: true }
}

fn stub_ok() -> TransportStub {
    TransportStub {
        add_track_ok: true,
        offer: Some(desc(SdpKind::Offer, b"v=0\r\nlocal-offer")),
        set_local_ok: true,
        relay: relay_ok(),
        hw: hw_ok(),
    }
}

#[test]
fn start_call_scenario_sends_one_offer_to_peer() {
    let mut s = CallSession::new(1024);
    let remote = b"peer-42".to_vec();
    assert_eq!(s.start_call(&remote, stub_ok()), Ok(()));
    assert_eq!(s.state, CallState::Negotiating);
    // the audio pipeline is capturing
    assert!(s.audio.input_running);
    assert!(s.audio.output_running);
    // exactly one envelope was sent, an Offer addressed to peer-42
    assert_eq!(s.signaling.sent.len(), 1);
    match decode_envelope_bytes(&s.signaling.sent[0]) {
        Some(Envelope::Offer { offer, target_id }) => {
            assert_eq!(target_id, b"peer-42".to_vec());
            assert_eq!(offer.kind, SdpKind::Offer);
            assert_eq!(offer.sdp, b"v=0\r\nlocal-offer".to_vec());
        },
        other => panic!("expected an Offer envelope, got {:?}", other),
    }
}

#[test]
fn start_call_outside_idle_is_rejected() {
    let mut s = CallSession::new(64);
    assert_eq!(s.start_call(&b"p".to_vec(), stub_ok()), Ok(()));
    let before = s.signaling.sent.len();
    assert_eq!(s.start_call(&b"p".to_vec(), stub_ok()), Err(CallError::InvalidStateTransition));
    assert_eq!(s.state, CallState::Negotiating);
    assert_eq!(s.signaling.sent.len(), before);
}

#[test]
fn start_call_add_track_failure_rolls_back_to_idle() {
    let mut s = CallSession::new(64);
    let mut t = stub_ok();
    t.add_track_ok = false;
    assert_eq!(s.start_call(&b"p".to_vec(), t), Err(CallError::NegotiationFailed));
    assert_eq!(s.state, CallState::Idle);
    assert!(!s.transport.track_attached);
    assert!(s.transport.local_desc.is_none());
    // stream-handle slots are empty: no audio left running
    assert!(!s.audio.input_running);
    assert!(!s.audio.output_running);
    assert_eq!(s.signaling.sent.len(), 0);
}

#[test]
fn start_call_offer_failure_rolls_back_to_idle() {
    let mut s = CallSession::new(64);
    let mut t = stub_ok();
    t.offer = None;
    assert_eq!(s.start_call(&b"p".to_vec(), t), Err(CallError::NegotiationFailed));
    assert_eq!(s.state, CallState::Idle);
    assert!(!s.transport.track_attached);
    assert!(!s.audio.input_running && !s.audio.output_running);
}

#[test]
fn start_call_local_commit_failure_rolls_back_to_idle() {
    let mut s = CallSession::new(64);
    let mut t = stub_ok();
    t.set_local_ok = false;
    assert_eq!(s.start_call(&b"p".to_vec(), t), Err(CallError::NegotiationFailed));
    assert_eq!(s.state, CallState::Idle);
    assert!(s.transport.local_desc.is_none());
    assert_eq!(s.signaling.sent.len(), 0);
}

#[test]
fn start_call_relay_unreachable_rolls_back_to_idle() {
    let mut s = CallSession::new(64);
    let mut t = stub_ok();
    t.relay.reachable = false;
    assert_eq!(
        s.start_call(&b"p".to_vec(), t),
        Err(CallError::Signaling(SignalError::RelayUnreachable))
    );
    assert_eq!(s.state, CallState::Idle);
    assert_eq!(s.signaling.sent.len(), 0);
}

#[test]
fn start_call_send_failure_rolls_back_to_idle() {
    let mut s = CallSession::new(64);
    let mut t = stub_ok();
    t.relay.write_completes = false;
    assert_eq!(s.start_call(&b"p".to_vec(), t), Err(CallError::Signaling(SignalError::SendFailed)));
    assert_eq!(s.state, CallState::Idle);
    assert_eq!(s.signaling.sent.len(), 0);
}

#[test]
fn start_call_audio_failure_rolls_back_but_offer_was_sent() {
    let mut s = CallSession::new(64);
    let mut t = stub_ok();
    t.hw.input_device = false;
    assert_eq!(
        s.start_call(&b"p".to_vec(), t),
        Err(CallError::Audio(AudioError::DeviceUnavailable))
    );
    assert_eq!(s.state, CallState::Idle);
    assert!(!s.transport.track_attached);
    assert!(s.transport.local_desc.is_none());
    assert!(!s.audio.input_running && !s.audio.output_running);
    // the failure came after the send step: the frame is already out
    assert_eq!(s.signaling.sent.len(), 1);
}

#[test]
fn start_call_config_rejection_surfaces_stream_config_error() {
    let mut s = CallSession::new(64);
    let mut t = stub_ok();
    t.hw.config_ok = false;
    assert_eq!(
        s.start_call(&b"p".to_vec(), t),
        Err(CallError::Audio(AudioError::StreamConfigError))
    );
    assert_eq!(s.state, CallState::Idle);
}

#[test]
fn handle_answer_succeeds_only_in_negotiating() {
    let mut s = CallSession::new(64);
    // Idle: rejected, state unchanged
    assert_eq!(
        s.handle_answer(desc(SdpKind::Answer, b"a")),
        Err(CallError::InvalidStateTransition)
    );
    assert_eq!(s.state, CallState::Idle);

    assert_eq!(s.start_call(&b"p".to_vec(), stub_ok()), Ok(()));
    assert_eq!(s.handle_answer(desc(SdpKind::Answer, b"remote-answer")), Ok(()));
    assert_eq!(s.state, CallState::Connected);
    assert_eq!(s.transport.remote_desc, Some(desc(SdpKind::Answer, b"remote-answer")));

    // a second, late answer is rejected, not silently applied
    assert_eq!(
        s.handle_answer(desc(SdpKind::Answer, b"late")),
        Err(CallError::InvalidStateTransition)
    );
    assert_eq!(s.state, CallState::Connected);
    assert_eq!(s.transport.remote_desc, Some(desc(SdpKind::Answer, b"remote-answer")));

    // Closed: rejected too
    assert_eq!(s.end_call(), Ok(()));
    assert_eq!(
        s.handle_answer(desc(SdpKind::Answer, b"x")),
        Err(CallError::InvalidStateTransition)
    );
    assert_eq!(s.state, CallState::Closed);
}

#[test]
fn end_call_reaches_closed_from_every_state() {
    // from Idle
    let mut s = CallSession::new(64);
    assert_eq!(s.end_call(), Ok(()));
    assert_eq!(s.state, CallState::Closed);
    assert!(!s.audio.input_running && !s.audio.output_running);
    assert!(s.transport.closed);

    // from Negotiating (abort): audio stopped, transport closed
    let mut s = CallSession::new(64);
    assert_eq!(s.start_call(&b"p".to_vec(), stub_ok()), Ok(()));
    assert!(s.audio.input_running);
    assert_eq!(s.end_call(), Ok(()));
    assert_eq!(s.state, CallState::Closed);
    assert!(!s.audio.input_running && !s.audio.output_running);
    assert!(s.transport.closed);

    // from Connected
    let mut s = CallSession::new(64);
    assert_eq!(s.start_call(&b"p".to_vec(), stub_ok()), Ok(()));
    assert_eq!(s.handle_answer(desc(SdpKind::Answer, b"a")), Ok(()));
    assert_eq!(s.end_call(), Ok(()));
    assert_eq!(s.state, CallState::Closed);

    // from Closed: still fine, stays Closed
    assert_eq!(s.end_call(), Ok(()));
    assert_eq!(s.state, CallState::Closed);

    // from Ending (assembled by hand)
    let mut s = CallSession::new(64);
    s.state = CallState::Ending;
    assert_eq!(s.end_call(), Ok(()));
    assert_eq!(s.state, CallState::Closed);
}

#[test]
fn listen_for_answers_filters_non_answer_frames() {
    let client = SignalingClient::new();
    let answer_frame = encode_envelope_bytes(&Envelope::Answer {
        answer: desc(SdpKind::Answer, b"remote-sdp-x"),
        target_id: b"a".to_vec(),
    });
    let frames = vec![answer_frame, b"{\"type\":\"Ping\"}".to_vec()];
    let got = client.listen_for_answers(&frames);
    assert_eq!(got.len(), 1);
    assert_eq!(got[0], desc(SdpKind::Answer, b"remote-sdp-x"));
}

#[test]
fn listen_for_answers_keeps_order_and_drops_offers() {
    let client = SignalingClient::new();
    let a1 = encode_envelope_bytes(&Envelope::Answer {
        answer: desc(SdpKind::Answer, b"one"),
        target_id: b"t".to_vec(),
    });
    let off = encode_envelope_bytes(&Envelope::Offer {
        offer: desc(SdpKind::Offer, b"not-an-answer"),
        target_id: b"t".to_vec(),
    });
    let a2 = encode_envelope_bytes(&Envelope::Answer {
        answer: desc(SdpKind::Answer, b"two"),
        target_id: b"t".to_vec(),
    });
    let frames = vec![a1, b"garbage".to_vec(), off, a2];
    let got = client.listen_for_answers(&frames);
    assert_eq!(got.len(), 2);
    assert_eq!(got[0].sdp, b"one".to_vec());
    assert_eq!(got[1].sdp, b"two".to_vec());
}

#[test]
fn send_offer_appends_exactly_one_frame() {
    let mut client = SignalingClient::new();
    let r = client.send_offer(
        &b"peer-1".to_vec(),
        &desc(SdpKind::Offer, b"sdp-body"),
        relay_ok(),
    );
    assert_eq!(r, Ok(()));
    assert_eq!(client.sent.len(), 1);
    assert_eq!(
        decode_envelope_bytes(&client.sent[0]),
        Some(Envelope::Offer {
            offer: desc(SdpKind::Offer, b"sdp-body"),
            target_id: b"peer-1".to_vec(),
        })
    );

    let r = client.send_offer(
        &b"peer-1".to_vec(),
        &desc(SdpKind::Offer, b"sdp-body"),
        RelayStub { reachable: false, write_completes: true },
    );
    assert_eq!(r, Err(SignalError::RelayUnreachable));
    assert_eq!(client.sent.len(), 1);
}

#[test]
fn audio_pipeline_start_stop_and_errors() {
    let mut a = AudioManager::new(16);
    // failures leave the slots empty
    assert_eq!(
        a.start_capturing(HwStub { input_device: false, output_device: true, config_ok: true }),
        Err(AudioError::DeviceUnavailable)
    );
    assert_eq!(
        a.start_capturing(HwStub { input_device: true, output_device: true, config_ok: false }),
        Err(AudioError::StreamConfigError)
    );
    assert!(!a.input_running && !a.output_running);
    // success fills both slots; a second start must not replace them
    assert_eq!(a.start_capturing(hw_ok()), Ok(()));
    assert!(a.input_running && a.output_running);
    assert_eq!(a.start_capturing(hw_ok()), Err(AudioError::AlreadyCapturing));
    // stop is safe and idempotent
    assert_eq!(a.stop_capturing(), Ok(()));
    assert!(!a.input_running && !a.output_running);
    assert_eq!(a.stop_capturing(), Ok(()));
}

#[test]
fn audio_callback_policies_use_the_ring_buffer() {
    let mut a = AudioManager::new(2);
    assert_eq!(a.render_sample(), 0); // underflow: silence
    assert!(a.capture_sample(0.5f32.to_bits()));
    assert!(a.capture_sample(0.25f32.to_bits()));
    assert!(!a.capture_sample(0.125f32.to_bits())); // overflow: newest dropped
    assert_eq!(f32::from_bits(a.render_sample()), 0.5);
    assert_eq!(f32::from_bits(a.render_sample()), 0.25);
    assert_eq!(a.render_sample(), 0);
}

#[test]
fn create_track_is_pure_and_opus() {
    let a = AudioManager::new(4);
    let t = a.create_track();
    assert_eq!(t.mime, b"audio/opus".to_vec());
    assert_eq!(t.track_id, b"audio".to_vec());
    assert_eq!(t.stream_id, b"webrtc-rs".to_vec());
    assert!(!a.input_running && !a.output_running);
}

#[test]
fn whole_frame_capture_and_render() {
    let mut a = AudioManager::new(3);
    // capture a hardware buffer larger than the queue: only the newest overflow
    // samples are dropped
    a.capture_frame(&vec![1, 2, 3, 4, 5]);
    // render a frame larger than what is queued: silence fills the tail
    let out = a.render_frame(5);
    assert_eq!(out, vec![1, 2, 3, 0, 0]);
    // the queue is drained; capture again and render exactly
    a.capture_frame(&vec![7, 8]);
    assert_eq!(a.render_frame(2), vec![7, 8]);
    assert_eq!(a.render_frame(1), vec![0]);
}

#[test]
fn every_error_has_user_visible_text() {
    assert_eq!(AudioError::DeviceUnavailable.describe(), "no default audio device is available");
    assert_eq!(
        AudioError::StreamConfigError.describe(),
        "the audio device rejected the stream configuration"
    );
    assert_eq!(AudioError::AlreadyCapturing.describe(), "audio capture is already running");
    assert_eq!(SignalError::RelayUnreachable.describe(), "the signaling relay cannot be reached");
    assert_eq!(
        SignalError::SerializationError.describe(),
        "the session description cannot be encoded"
    );
    assert_eq!(SignalError::SendFailed.describe(), "the signaling frame could not be written");
    assert_eq!(
        CallError::InvalidStateTransition.describe(),
        "the session state does not allow this transition"
    );
    assert_eq!(
        CallError::NegotiationFailed.describe(),
        "the transport engine refused a negotiation step"
    );
    assert_eq!(
        CallError::Audio(AudioError::DeviceUnavailable).describe(),
        "no default audio device is available"
    );
    assert_eq!(
        CallError::Signaling(SignalError::SendFailed).describe(),
        "the signaling frame could not be written"
    );
}
