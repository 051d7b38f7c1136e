use vstd::prelude::*;

verus! {

/// Failures of the audio pipeline.
#[derive(Clone, Copy, Debug, PartialEq, Eq, Structural)]
pub enum AudioError {
    /// No default input or output device exists.
    DeviceUnavailable,
    /// The device rejected the requested stream configuration.
    StreamConfigError,
    /// `start_capturing` was called while a capture was already running.
    AlreadyCapturing,
}

/// Failures of the signaling client.
#[derive(Clone, Copy, Debug, PartialEq, Eq, Structural)]
pub enum SignalError {
    /// The relay connection could not be opened.
    RelayUnreachable,
    /// The descriptor could not be encoded.
    SerializationError,
    /// The write of the frame did not complete.
    SendFailed,
}

/// Failures surfaced by the call session.
#[derive(Clone, Copy, Debug, PartialEq, Eq, Structural)]
pub enum CallError {
    /// An audio pipeline step failed.
    Audio(AudioError),
    /// A signaling step failed.
    Signaling(SignalError),
    /// A transition was requested from a state that does not allow it.
    InvalidStateTransition,
    /// The transport engine refused a negotiation step.
    NegotiationFailed,
}

/// User-visible text of an audio failure.
pub open spec fn audio_error_text(e: AudioError) -> Seq<char> {
    match e {
        AudioError::DeviceUnavailable => "no default audio device is available"@,
        AudioError::StreamConfigError => "the audio device rejected the stream configuration"@,
        AudioError::AlreadyCapturing => "audio capture is already running"@,
    }
}

/// User-visible text of a signaling failure.
pub open spec fn signal_error_text(e: SignalError) -> Seq<char> {
    match e {
        SignalError::RelayUnreachable => "the signaling relay cannot be reached"@,
        SignalError::SerializationError => "the session description cannot be encoded"@,
        SignalError::SendFailed => "the signaling frame could not be written"@,
    }
}

/// User-visible text of a call failure.
pub open spec fn call_error_text(e: CallError) -> Seq<char> {
    match e {
        CallError::Audio(a) => audio_error_text(a),
        CallError::Signaling(s) => signal_error_text(s),
        CallError::InvalidStateTransition => "the session state does not allow this transition"@,
        CallError::NegotiationFailed => "the transport engine refused a negotiation step"@,
    }
}

impl AudioError {
    /// The human-readable message carried to the user interface.
    pub fn describe(&self) -> (r: &'static str)
        ensures
            r@ == audio_error_text(*self),
    {
        match self {
            AudioError::DeviceUnavailable => "no default audio device is available",
            AudioError::StreamConfigError => "the audio device rejected the stream configuration",
            AudioError::AlreadyCapturing => "audio capture is already running",
        }
    }
}

impl SignalError {
    /// The human-readable message carried to the user interface.
    pub fn describe(&self) -> (r: &'static str)
        ensures
            r@ == signal_error_text(*self),
    {
        match self {
            SignalError::RelayUnreachable => "the signaling relay cannot be reached",
            SignalError::SerializationError => "the session description cannot be encoded",
            SignalError::SendFailed => "the signaling frame could not be written",
        }
    }
}

impl CallError {
    /// The human-readable message carried to the user interface.
    pub fn describe(&self) -> (r: &'static str)
        ensures
            r@ == call_error_text(*self),
    {
        match self {
            CallError::Audio(a) => a.describe(),
            CallError::Signaling(s) => s.describe(),
            CallError::InvalidStateTransition => "the session state does not allow this transition",
            CallError::NegotiationFailed => "the transport engine refused a negotiation step",
        }
    }
}

} // verus!
