//! Audio capture parameters and the live audio channel.
//!
//! The device itself is driven by the surrounding process; this module
//! fixes the capture format and models the bounded frame queue of the
//! streaming flow, which drops frames rather than block the audio thread.

use vstd::prelude::*;

use crate::config::AudioConfig;

verus! {

/// Capacity of the live audio channel, in frames.
pub const LIVE_CHANNEL_CAPACITY: usize = 64;

/// Milliseconds of extra capture after a stop request, so in-flight device
/// buffers drain and the last syllables are kept.
pub const STOP_GRACE_MS: u64 = 300;

/// Records audio from the default input device.
#[derive(Clone, Copy, Debug, PartialEq, Eq, Structural)]
pub struct Recorder {
    pub sample_rate: u32,
    pub channels: u16,
}

/// The capture format written to a file: channel count, rate, and 16-bit
/// signed integer samples.
#[derive(Clone, Copy, Debug, PartialEq, Eq, Structural)]
pub struct WavParams {
    pub channels: u16,
    pub sample_rate: u32,
    pub bits_per_sample: u16,
}

impl Recorder {
    /// A recorder for the configured format.
    pub fn new(config: &AudioConfig) -> (r: Self)
        ensures
            r.sample_rate == config.sample_rate,
            r.channels == config.channels,
    {
        Recorder { sample_rate: config.sample_rate, channels: config.channels }
    }

    /// The file format a batch capture writes.
    pub fn wav_params(&self) -> (r: WavParams)
        ensures
            r == (WavParams {
                channels: self.channels,
                sample_rate: self.sample_rate,
                bits_per_sample: 16u16,
            }),
    {
        WavParams {
            channels: self.channels,
            sample_rate: self.sample_rate,
            bits_per_sample: 16,
        }
    }
}

/// The live audio channel: a bounded queue of PCM frames.  The producer
/// never waits: a frame offered to a full queue is dropped.
pub struct AudioChannel {
    pub frames: Vec<Vec<i16>>,
    pub capacity: usize,
}

impl AudioChannel {
    /// How many frames the channel may hold.
    pub open spec fn spec_capacity(&self) -> usize {
        self.capacity
    }

    /// The frames in the channel, oldest first.
    pub open spec fn spec_frames(&self) -> Seq<Seq<i16>> {
        Seq::new(self.frames@.len(), |i: int| self.frames@[i]@)
    }

    /// The channel never exceeds its capacity.
    pub open spec fn wf(&self) -> bool {
        self.frames@.len() <= self.capacity
    }

    /// An empty channel with the given capacity.
    pub fn new(capacity: usize) -> (r: AudioChannel)
        ensures
            r.wf(),
            r.spec_capacity() == capacity,
            r.spec_frames() =~= Seq::<Seq<i16>>::empty(),
    {
        AudioChannel { frames: Vec::new(), capacity }
    }

    /// Offer one frame.  A full channel drops it and reports so; there is
    /// no waiting, so the audio thread is never held back.
    pub fn push_frame(&mut self, frame: Vec<i16>) -> (dropped: bool)
        requires
            old(self).wf(),
        ensures
            final(self).wf(),
            final(self).spec_capacity() == old(self).spec_capacity(),
            dropped == (old(self).spec_frames().len() == old(self).spec_capacity()),
            dropped ==> final(self).spec_frames() == old(self).spec_frames(),
            !dropped ==> final(self).spec_frames() =~= old(self).spec_frames().push(frame@),
    {
        if self.frames.len() == self.capacity {
            return true;
        }
        self.frames.push(frame);
        proof {
            assert(self.spec_frames() =~= old(self).spec_frames().push(frame@));
        }
        false
    }

    /// Take the oldest frame, if any.
    pub fn pop_frame(&mut self) -> (r: Option<Vec<i16>>)
        requires
            old(self).wf(),
        ensures
            final(self).wf(),
            final(self).spec_capacity() == old(self).spec_capacity(),
            old(self).spec_frames().len() == 0 ==> r is None && final(self).spec_frames() == old(
                self,
            ).spec_frames(),
            old(self).spec_frames().len() > 0 ==> (r matches Some(f) ==> f@ == old(
                self,
            ).spec_frames()[0]) && (r is Some) && final(self).spec_frames() =~= old(
                self,
            ).spec_frames().drop_first(),
    {
        if self.frames.len() == 0 {
            return None;
        }
        let f = self.frames.remove(0);
        proof {
            assert(self.spec_frames() =~= old(self).spec_frames().drop_first());
        }
        Some(f)
    }
}

} // verus!
