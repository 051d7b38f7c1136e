//! The call session: the negotiation state machine that sequences track
//! attachment, offer creation, signaling and audio start-up, tolerates
//! failures at every sub-step by rolling back, and tears everything down in
//! order (audio strictly before transport).
//!
//! The transport engine itself negotiates and carries media outside this
//! crate; what it (and the hardware, and the relay) answered during one
//! transition is handed in as a [`TransportStub`], and the session's own
//! bookkeeping of that engine is the [`TransportModel`].

use vstd::prelude::*;

use crate::audio::{AudioManager, HwStub};
use crate::errors::CallError;
use crate::signaling::{
    encode_envelope, EnvelopeView, RelayStub, SessionDesc, SignalingClient,
};

verus! {

/// Phase of the call session. One session cycles Idle → Negotiating →
/// Connected → (Ending) → Closed; Closed is terminal.
#[derive(Clone, Copy, Debug, PartialEq, Eq, Structural)]
pub enum CallState {
    Idle,
    Negotiating,
    Connected,
    Ending,
    Closed,
}

/// The transport engine's session as this core sees it: what has been
/// attached and committed, and whether it was closed.
pub struct TransportModel {
    pub track_attached: bool,
    pub local_desc: Option<SessionDesc>,
    pub remote_desc: Option<SessionDesc>,
    pub closed: bool,
}

/// What the collaborators answered during one `start_call` attempt: the
/// transport engine's track attachment, offer creation and local-description
/// commit, the relay network, and the audio hardware.
pub struct TransportStub {
    pub add_track_ok: bool,
    pub offer: Option<SessionDesc>,
    pub set_local_ok: bool,
    pub relay: RelayStub,
    pub hw: HwStub,
}

impl TransportStub {
    /// Every sub-step of call setup succeeded.
    pub open spec fn all_ok(&self) -> bool {
        &&& self.add_track_ok
        &&& self.offer is Some
        &&& self.set_local_ok
        &&& self.relay.reachable
        &&& self.relay.write_completes
        &&& self.hw.input_device
        &&& self.hw.output_device
        &&& self.hw.config_ok
    }
}

/// The wire frame `start_call` sends for a given stub and peer.
pub open spec fn offer_frame(t: TransportStub, remote_id: Seq<u8>) -> Seq<u8>
    recommends
        t.offer is Some,
{
    encode_envelope(EnvelopeView::Offer { offer: t.offer->Some_0@, target_id: remote_id })
}

/// The call session: its phase, the audio pipeline, the signaling client and
/// the transport bookkeeping.
pub struct CallSession {
    pub state: CallState,
    pub audio: AudioManager,
    pub signaling: SignalingClient,
    pub transport: TransportModel,
}

impl CallSession {
    /// Session invariant: each phase pins down what may be attached, running
    /// or committed. In Idle nothing is retained; in Negotiating the track is
    /// attached, the local description committed, audio running and no remote
    /// description yet; Connected has a committed remote description; Closed
    /// has the transport closed and audio stopped.
    pub open spec fn wf(&self) -> bool {
        &&& self.audio.wf()
        &&& self.signaling.wf()
        &&& match self.state {
            CallState::Idle => !self.transport.track_attached && !self.audio.capturing()
                && self.transport.local_desc is None && self.transport.remote_desc is None
                && !self.transport.closed,
            CallState::Negotiating => self.transport.track_attached
                && self.transport.local_desc is Some && self.transport.remote_desc is None
                && !self.transport.closed && self.audio.capturing(),
            CallState::Connected => self.transport.remote_desc is Some
                && !self.transport.closed,
            CallState::Ending => true,
            CallState::Closed => self.transport.closed && !self.audio.capturing(),
        }
    }

    /// A fresh session: Idle, nothing attached, nothing sent, audio stopped.
    pub fn new(buffer_capacity: usize) -> (s: CallSession)
        requires
            buffer_capacity >= 1,
        ensures
            s.wf(),
            s.state == CallState::Idle,
            s.signaling.sent@.len() == 0,
            s.audio.buffer.capacity() == buffer_capacity,
    {
        CallSession {
            state: CallState::Idle,
            audio: AudioManager::new(buffer_capacity),
            signaling: SignalingClient::new(),
            transport: TransportModel {
                track_attached: false,
                local_desc: None,
                remote_desc: None,
                closed: false,
            },
        }
    }

    /// Idle → Negotiating: create the local track, attach it, take the offer
    /// the engine created, commit it locally, send it to `remote_id` through
    /// the relay, and start the audio pipeline — in that order. A failure at
    /// any sub-step rolls the session back to Idle with no partial state:
    /// nothing attached, nothing committed, no audio running. Only a failure
    /// after the send step leaves a trace: the offer frame already written to
    /// the relay cannot be unsent.
    pub fn start_call(&mut self, remote_id: &Vec<u8>, t: TransportStub) -> (r: Result<
        (),
        CallError,
    >)
        requires
            old(self).wf(),
        ensures
            final(self).wf(),
            r is Ok <==> (old(self).state == CallState::Idle && t.all_ok()),
            old(self).state != CallState::Idle ==> r == Err::<(), CallError>(
                CallError::InvalidStateTransition,
            ) && *final(self) == *old(self),
            r is Ok ==> {
                &&& final(self).state == CallState::Negotiating
                &&& final(self).transport.track_attached
                &&& final(self).transport.local_desc == t.offer
                &&& final(self).transport.remote_desc is None
                &&& !final(self).transport.closed
                &&& final(self).audio.input_running && final(self).audio.output_running
                &&& final(self).signaling.sent@.len() == old(self).signaling.sent@.len() + 1
                &&& final(self).signaling.sent@.last()@ == offer_frame(t, remote_id@)
                &&& forall|k: int|
                    0 <= k < old(self).signaling.sent@.len() ==> final(self).signaling.sent@[k]
                        == old(self).signaling.sent@[k]
            },
            old(self).state == CallState::Idle && !t.all_ok() ==> {
                &&& r is Err
                &&& final(self).state == CallState::Idle
                &&& !final(self).transport.track_attached
                &&& final(self).transport.local_desc is None
                &&& final(self).transport.remote_desc is None
                &&& !final(self).transport.closed
                &&& !final(self).audio.input_running
                &&& !final(self).audio.output_running
                &&& final(self).audio.buffer == old(self).audio.buffer
            },
            old(self).state == CallState::Idle ==> {
                &&& !t.add_track_ok ==> r == Err::<(), CallError>(CallError::NegotiationFailed)
                    && final(self).signaling.sent == old(self).signaling.sent
                &&& t.add_track_ok && t.offer is None ==> r == Err::<(), CallError>(
                    CallError::NegotiationFailed,
                ) && final(self).signaling.sent == old(self).signaling.sent
                &&& t.add_track_ok && t.offer is Some && !t.set_local_ok ==> r == Err::<
                    (),
                    CallError,
                >(CallError::NegotiationFailed) && final(self).signaling.sent == old(
                    self,
                ).signaling.sent
                &&& t.add_track_ok && t.offer is Some && t.set_local_ok && !t.relay.reachable
                    ==> r == Err::<(), CallError>(
                    CallError::Signaling(crate::errors::SignalError::RelayUnreachable),
                ) && final(self).signaling.sent == old(self).signaling.sent
                &&& t.add_track_ok && t.offer is Some && t.set_local_ok && t.relay.reachable
                    && !t.relay.write_completes ==> r == Err::<(), CallError>(
                    CallError::Signaling(crate::errors::SignalError::SendFailed),
                ) && final(self).signaling.sent == old(self).signaling.sent
                &&& t.add_track_ok && t.offer is Some && t.set_local_ok && t.relay.reachable
                    && t.relay.write_completes && !(t.hw.input_device && t.hw.output_device)
                    ==> r == Err::<(), CallError>(
                    CallError::Audio(crate::errors::AudioError::DeviceUnavailable),
                )
                &&& t.add_track_ok && t.offer is Some && t.set_local_ok && t.relay.reachable
                    && t.relay.write_completes && t.hw.input_device && t.hw.output_device
                    && !t.hw.config_ok ==> r == Err::<(), CallError>(
                    CallError::Audio(crate::errors::AudioError::StreamConfigError),
                )
                &&& !(t.add_track_ok && t.offer is Some && t.set_local_ok && t.relay.reachable
                    && t.relay.write_completes) ==> final(self).signaling.sent == old(
                    self,
                ).signaling.sent
            },
    {
        match self.state {
            CallState::Idle => {},
            _ => {
                return Err(CallError::InvalidStateTransition);
            },
        }
        let _track = self.audio.create_track();
        if !t.add_track_ok {
            return Err(CallError::NegotiationFailed);
        }
        self.transport.track_attached = true;
        let offer = match t.offer {
            Some(d) => d,
            None => {
                self.transport.track_attached = false;
                return Err(CallError::NegotiationFailed);
            },
        };
        if !t.set_local_ok {
            self.transport.track_attached = false;
            return Err(CallError::NegotiationFailed);
        }
        match self.signaling.send_offer(remote_id, &offer, t.relay) {
            Ok(()) => {},
            Err(e) => {
                self.transport.track_attached = false;
                return Err(CallError::Signaling(e));
            },
        }
        self.transport.local_desc = Some(offer);
        match self.audio.start_capturing(t.hw) {
            Ok(()) => {},
            Err(e) => {
                self.transport.local_desc = None;
                self.transport.track_attached = false;
                return Err(CallError::Audio(e));
            },
        }
        self.state = CallState::Negotiating;
        Ok(())
    }

    /// Negotiating → Connected: commit the remote description. Succeeds if
    /// and only if the session is Negotiating; any call in Idle, Connected,
    /// Ending or Closed — a duplicate or late answer included — fails with
    /// `InvalidStateTransition` and changes nothing.
    pub fn handle_answer(&mut self, answer: SessionDesc) -> (r: Result<(), CallError>)
        requires
            old(self).wf(),
        ensures
            final(self).wf(),
            r is Ok <==> old(self).state == CallState::Negotiating,
            old(self).state != CallState::Negotiating ==> r == Err::<(), CallError>(
                CallError::InvalidStateTransition,
            ) && *final(self) == *old(self),
            old(self).state == CallState::Negotiating ==> {
                &&& final(self).state == CallState::Connected
                &&& final(self).transport.remote_desc == Some(answer)
                &&& final(self).transport.track_attached == old(self).transport.track_attached
                &&& final(self).transport.local_desc == old(self).transport.local_desc
                &&& final(self).transport.closed == old(self).transport.closed
                &&& final(self).audio == old(self).audio
                &&& final(self).signaling == old(self).signaling
            },
    {
        match self.state {
            CallState::Negotiating => {
                self.transport.remote_desc = Some(answer);
                self.state = CallState::Connected;
                Ok(())
            },
            _ => Err(CallError::InvalidStateTransition),
        }
    }

    /// Any state → Closed: stop the audio pipeline first, then close the
    /// transport session — strictly in that order, so no capture callback can
    /// write into a torn-down consumer. Tolerated from every state as an
    /// abort; steps that are already no-ops stay no-ops, and it never fails.
    pub fn end_call(&mut self) -> (r: Result<(), CallError>)
        requires
            old(self).wf(),
        ensures
            final(self).wf(),
            r is Ok,
            final(self).state == CallState::Closed,
            !final(self).audio.capturing(),
            !final(self).audio.input_running,
            !final(self).audio.output_running,
            final(self).transport.closed,
            final(self).signaling == old(self).signaling,
            final(self).audio.buffer == old(self).audio.buffer,
    {
        self.state = CallState::Ending;
        let _stopped = self.audio.stop_capturing();
        self.transport.closed = true;
        self.state = CallState::Closed;
        Ok(())
    }
}

} // verus!
