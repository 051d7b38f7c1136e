//! The audio pipeline: the sample buffer shared by the capture and playback
//! callbacks, the two stream-handle slots, and the outbound track descriptor.
//!
//! The hardware itself (device discovery, stream construction, the real-time
//! callback threads) lives outside this crate; what the hardware reported is
//! handed in as a [`HwStub`], and the per-sample callback policies are the
//! verified [`AudioManager::capture_sample`] and [`AudioManager::render_sample`].

use vstd::prelude::*;

use crate::errors::AudioError;
use crate::ring::SampleBuffer;

verus! {

/// What the audio hardware reported when the pipeline tried to start: whether
/// default input and output devices existed, and whether they accepted the
/// negotiated stream configuration (sample rate, format, channel count).
#[derive(Clone, Copy, Debug, PartialEq, Eq, Structural)]
pub struct HwStub {
    pub input_device: bool,
    pub output_device: bool,
    pub config_ok: bool,
}

/// Bytes of the outbound track's codec MIME type, `audio/opus`.
pub open spec fn opus_mime() -> Seq<u8> {
    seq![97u8, 117, 100, 105, 111, 47, 111, 112, 117, 115]
}

/// Bytes of the outbound track's identifier, `audio`.
pub open spec fn track_name() -> Seq<u8> {
    seq![97u8, 117, 100, 105, 111]
}

/// Bytes of the outbound track's stream identifier, `webrtc-rs`.
pub open spec fn stream_name() -> Seq<u8> {
    seq![119u8, 101, 98, 114, 116, 99, 45, 114, 115]
}

/// Descriptor of the outbound media track the transport engine will carry.
pub struct TrackInfo {
    pub mime: Vec<u8>,
    pub track_id: Vec<u8>,
    pub stream_id: Vec<u8>,
}

/// The queue after the capture policy pushed a whole hardware buffer: each
/// sample appended in order while room remains, dropped while full.
pub open spec fn after_pushes(buf: Seq<u32>, cap: int, data: Seq<u32>) -> Seq<u32>
    decreases data.len(),
{
    if data.len() == 0 {
        buf
    } else {
        let prev = after_pushes(buf, cap, data.drop_last());
        if prev.len() < cap {
            prev.push(data.last())
        } else {
            prev
        }
    }
}

/// The audio pipeline: one sample buffer, allocated once and reused across
/// calls, and the mutually exclusive input and output stream-handle slots.
pub struct AudioManager {
    pub buffer: SampleBuffer,
    pub input_running: bool,
    pub output_running: bool,
}

impl AudioManager {
    /// The sample buffer is well-formed.
    pub open spec fn wf(&self) -> bool {
        self.buffer.wf()
    }

    /// Whether a stream-handle slot is occupied by a live stream.
    pub open spec fn capturing(&self) -> bool {
        self.input_running || self.output_running
    }

    /// A fresh pipeline: empty buffer of the given capacity, both slots empty.
    pub fn new(buffer_capacity: usize) -> (m: AudioManager)
        requires
            buffer_capacity >= 1,
        ensures
            m.wf(),
            !m.input_running,
            !m.output_running,
            !m.capturing(),
            m.buffer.capacity() == buffer_capacity,
            m.buffer.contents() == Seq::<u32>::empty(),
    {
        AudioManager {
            buffer: SampleBuffer::new(buffer_capacity),
            input_running: false,
            output_running: false,
        }
    }

    /// Construct the outbound track descriptor (Opus audio). Pure: it neither
    /// starts capturing nor touches the buffer.
    pub fn create_track(&self) -> (t: TrackInfo)
        ensures
            t.mime@ == opus_mime(),
            t.track_id@ == track_name(),
            t.stream_id@ == stream_name(),
    {
        let mut mime: Vec<u8> = Vec::new();
        mime.push(97);
        mime.push(117);
        mime.push(100);
        mime.push(105);
        mime.push(111);
        mime.push(47);
        mime.push(111);
        mime.push(112);
        mime.push(117);
        mime.push(115);
        let mut track_id: Vec<u8> = Vec::new();
        track_id.push(97);
        track_id.push(117);
        track_id.push(100);
        track_id.push(105);
        track_id.push(111);
        let mut stream_id: Vec<u8> = Vec::new();
        stream_id.push(119);
        stream_id.push(101);
        stream_id.push(98);
        stream_id.push(114);
        stream_id.push(116);
        stream_id.push(99);
        stream_id.push(45);
        stream_id.push(114);
        stream_id.push(115);
        proof {
            assert(mime@ =~= opus_mime());
            assert(track_id@ =~= track_name());
            assert(stream_id@ =~= stream_name());
        }
        TrackInfo { mime, track_id, stream_id }
    }

    /// Take both stream-handle slots and begin capture and playback, as the
    /// hardware allowed. Fails with `AlreadyCapturing` rather than replacing a
    /// running stream; succeeds exactly when no capture is running, both
    /// default devices exist, and the configuration is accepted. On failure
    /// nothing changes.
    pub fn start_capturing(&mut self, hw: HwStub) -> (r: Result<(), AudioError>)
        requires
            old(self).wf(),
        ensures
            final(self).wf(),
            final(self).buffer == old(self).buffer,
            r is Ok <==> (!old(self).capturing() && hw.input_device && hw.output_device
                && hw.config_ok),
            old(self).capturing() ==> r == Err::<(), AudioError>(AudioError::AlreadyCapturing)
                && *final(self) == *old(self),
            !old(self).capturing() && !(hw.input_device && hw.output_device) ==> r == Err::<
                (),
                AudioError,
            >(AudioError::DeviceUnavailable) && *final(self) == *old(self),
            !old(self).capturing() && hw.input_device && hw.output_device && !hw.config_ok ==> r
                == Err::<(), AudioError>(AudioError::StreamConfigError) && *final(self) == *old(
                self,
            ),
            r is Ok ==> final(self).input_running && final(self).output_running,
    {
        if self.input_running || self.output_running {
            return Err(AudioError::AlreadyCapturing);
        }
        if !hw.input_device || !hw.output_device {
            return Err(AudioError::DeviceUnavailable);
        }
        if !hw.config_ok {
            return Err(AudioError::StreamConfigError);
        }
        self.input_running = true;
        self.output_running = true;
        Ok(())
    }

    /// Take and drop whatever stream handles are live, emptying both slots.
    /// A no-op when not capturing; never an error either way. The buffer and
    /// its contents are kept for the next call.
    pub fn stop_capturing(&mut self) -> (r: Result<(), AudioError>)
        requires
            old(self).wf(),
        ensures
            final(self).wf(),
            r is Ok,
            !final(self).input_running,
            !final(self).output_running,
            !final(self).capturing(),
            final(self).buffer == old(self).buffer,
    {
        self.input_running = false;
        self.output_running = false;
        Ok(())
    }

    /// Capture callback policy, one sample: queue it, discarding it (and only
    /// it) when the buffer is full. Never blocks.
    pub fn capture_sample(&mut self, sample: u32) -> (kept: bool)
        requires
            old(self).wf(),
        ensures
            final(self).wf(),
            final(self).input_running == old(self).input_running,
            final(self).output_running == old(self).output_running,
            final(self).buffer.capacity() == old(self).buffer.capacity(),
            kept == (old(self).buffer.contents().len() < old(self).buffer.capacity()),
            kept ==> final(self).buffer.contents() == old(self).buffer.contents().push(sample),
            !kept ==> final(self).buffer.contents() == old(self).buffer.contents(),
    {
        self.buffer.push(sample)
    }

    /// Capture callback body, one hardware buffer: queue every captured
    /// sample in order, discarding (only) those that arrive while the buffer
    /// is full. Never blocks on the consumer.
    pub fn capture_frame(&mut self, data: &Vec<u32>)
        requires
            old(self).wf(),
        ensures
            final(self).wf(),
            final(self).input_running == old(self).input_running,
            final(self).output_running == old(self).output_running,
            final(self).buffer.capacity() == old(self).buffer.capacity(),
            final(self).buffer.contents() == after_pushes(
                old(self).buffer.contents(),
                old(self).buffer.capacity(),
                data@,
            ),
    {
        let mut i: usize = 0;
        while i < data.len()
            invariant
                i <= data@.len(),
                self.wf(),
                self.input_running == old(self).input_running,
                self.output_running == old(self).output_running,
                self.buffer.capacity() == old(self).buffer.capacity(),
                self.buffer.contents() == after_pushes(
                    old(self).buffer.contents(),
                    old(self).buffer.capacity(),
                    data@.take(i as int),
                ),
            decreases data@.len() - i,
        {
            proof {
                assert(data@.take(i as int + 1).drop_last() =~= data@.take(i as int));
            }
            self.buffer.push(data[i]);
            i = i + 1;
        }
        proof {
            assert(data@.take(data@.len() as int) =~= data@);
        }
    }

    /// Playback callback body, one output frame of `n` samples: the oldest
    /// queued samples in order, then silence for every slot the queue cannot
    /// fill. Never blocks on the producer.
    pub fn render_frame(&mut self, n: usize) -> (out: Vec<u32>)
        requires
            old(self).wf(),
        ensures
            final(self).wf(),
            final(self).input_running == old(self).input_running,
            final(self).output_running == old(self).output_running,
            final(self).buffer.capacity() == old(self).buffer.capacity(),
            out@.len() == n,
            forall|k: int|
                0 <= k < n ==> out@[k] == (if k < old(self).buffer.contents().len() {
                    old(self).buffer.contents()[k]
                } else {
                    0u32
                }),
            final(self).buffer.contents() == (if n <= old(self).buffer.contents().len() {
                old(self).buffer.contents().skip(n as int)
            } else {
                Seq::<u32>::empty()
            }),
    {
        let mut out: Vec<u32> = Vec::new();
        let mut i: usize = 0;
        while i < n
            invariant
                i <= n,
                self.wf(),
                self.input_running == old(self).input_running,
                self.output_running == old(self).output_running,
                self.buffer.capacity() == old(self).buffer.capacity(),
                out@.len() == i,
                forall|k: int|
                    0 <= k < i ==> out@[k] == (if k < old(self).buffer.contents().len() {
                        old(self).buffer.contents()[k]
                    } else {
                        0u32
                    }),
                self.buffer.contents() == (if i <= old(self).buffer.contents().len() {
                    old(self).buffer.contents().skip(i as int)
                } else {
                    Seq::<u32>::empty()
                }),
            decreases n - i,
        {
            let s = self.buffer.pop_or_silence();
            out.push(s);
            proof {
                if i < old(self).buffer.contents().len() {
                    assert(old(self).buffer.contents().skip(i as int).drop_first()
                        =~= old(self).buffer.contents().skip(i as int + 1));
                }
            }
            i = i + 1;
        }
        out
    }

    /// Playback callback policy, one output frame: the oldest queued sample,
    /// or silence when the buffer is empty. Never blocks.
    pub fn render_sample(&mut self) -> (sample: u32)
        requires
            old(self).wf(),
        ensures
            final(self).wf(),
            final(self).input_running == old(self).input_running,
            final(self).output_running == old(self).output_running,
            final(self).buffer.capacity() == old(self).buffer.capacity(),
            old(self).buffer.contents().len() > 0 ==> (sample == old(self).buffer.contents()[0]
                && final(self).buffer.contents() == old(self).buffer.contents().drop_first()),
            old(self).buffer.contents().len() == 0 ==> (sample == 0u32
                && final(self).buffer.contents() == old(self).buffer.contents()),
    {
        self.buffer.pop_or_silence()
    }
}

} // verus!
