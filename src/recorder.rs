use vstd::prelude::*;
use crate::supply::{
    audio_request_fits, audio_written, bounded_response, midi_added, supply_bounded_audio,
    supply_bounded_midi, SupplyAudioRequest, SupplyMidiRequest, SupplyResponse,
};

verus! {

/// What is known of finished material.
#[derive(Clone, Copy, Debug, PartialEq, Eq, Structural)]
pub struct ClipInfo {
    pub is_midi: bool,
    pub frame_rate: u32,
    pub frame_count: usize,
}

/// The terminal supplier: captures incoming frames while recording, or holds finished material.
#[derive(Clone, Debug)]
pub struct Recorder {
    frames: Vec<i32>,
    is_midi: bool,
    frame_rate: Option<u32>,
    channel_count: usize,
    recording: bool,
}

impl Recorder {
    /// The material that this recorder can deliver (what was captured so far while recording).
    pub closed spec fn material(&self) -> Seq<i32> {
        self.frames@
    }

    /// The material stays addressable by signed frame positions.
    pub open spec fn wf(&self) -> bool {
        self.material().len() <= isize::MAX
    }

    pub closed spec fn spec_is_midi(&self) -> bool {
        self.is_midi
    }

    pub closed spec fn spec_frame_rate(&self) -> Option<u32> {
        self.frame_rate
    }

    pub closed spec fn spec_channel_count(&self) -> usize {
        self.channel_count
    }

    pub closed spec fn spec_is_recording(&self) -> bool {
        self.recording
    }

    /// A recorder that wraps finished material.
    pub fn ready(frames: Vec<i32>, is_midi: bool, frame_rate: u32, channel_count: usize) -> (r:
        Recorder)
        requires
            frames@.len() <= isize::MAX,
        ensures
            r.wf(),
            r.material() == frames@,
            r.spec_is_midi() == is_midi,
            r.spec_frame_rate() == Some(frame_rate),
            r.spec_channel_count() == channel_count,
            !r.spec_is_recording(),
    {
        Recorder { frames, is_midi, frame_rate: Some(frame_rate), channel_count, recording: false }
    }

    /// The state of a recorder that is about to capture input.
    pub open spec fn is_fresh_recording(&self, is_midi: bool, channel_count: usize) -> bool {
        &&& self.material().len() == 0
        &&& self.spec_is_midi() == is_midi
        &&& self.spec_frame_rate() is None
        &&& self.spec_channel_count() == channel_count
        &&& self.spec_is_recording()
    }

    /// A recorder that is about to capture input. Its frame rate is resolved when the recording
    /// is finished.
    pub fn recording(is_midi: bool, channel_count: usize) -> (r: Recorder)
        ensures
            r.wf(),
            r.is_fresh_recording(is_midi, channel_count),
    {
        Recorder { frames: Vec::new(), is_midi, frame_rate: None, channel_count, recording: true }
    }

    pub fn is_recording(&self) -> (r: bool)
        ensures
            r == self.spec_is_recording(),
    {
        self.recording
    }

    pub fn is_midi(&self) -> (r: bool)
        ensures
            r == self.spec_is_midi(),
    {
        self.is_midi
    }

    /// Appends captured frames to the material.
    pub fn write_frames(&mut self, frames: &Vec<i32>)
        requires
            old(self).spec_is_recording(),
            old(self).material().len() + frames@.len() <= isize::MAX,
        ensures
            final(self).material() == old(self).material() + frames@,
            final(self).spec_is_midi() == old(self).spec_is_midi(),
            final(self).spec_frame_rate() == old(self).spec_frame_rate(),
            final(self).spec_channel_count() == old(self).spec_channel_count(),
            final(self).spec_is_recording(),
    {
        let mut i: usize = 0;
        while i < frames.len()
            invariant
                i <= frames@.len(),
                self.frames@ == old(self).frames@ + frames@.subrange(0, i as int),
                self.is_midi == old(self).is_midi,
                self.frame_rate == old(self).frame_rate,
                self.channel_count == old(self).channel_count,
                self.recording,
            decreases frames@.len() - i,
        {
            self.frames.push(frames[i]);
            i = i + 1;
            assert(frames@.subrange(0, i as int) =~= frames@.subrange(0, i - 1) + seq![frames@[i - 1]]);
        }
        assert(frames@.subrange(0, frames@.len() as int) =~= frames@);
    }

    /// Ends capturing: the material is final from now on.
    pub fn finish_recording(&mut self, frame_rate: u32)
        ensures
            final(self).material() == old(self).material(),
            final(self).spec_is_midi() == old(self).spec_is_midi(),
            final(self).spec_frame_rate() == Some(frame_rate),
            final(self).spec_channel_count() == old(self).spec_channel_count(),
            !final(self).spec_is_recording(),
    {
        self.frame_rate = Some(frame_rate);
        self.recording = false;
    }

    pub fn frame_count(&self) -> (r: usize)
        ensures
            r == self.material().len(),
    {
        self.frames.len()
    }

    pub fn frame_rate(&self) -> (r: Option<u32>)
        ensures
            r == self.spec_frame_rate(),
    {
        self.frame_rate
    }

    pub fn channel_count(&self) -> (r: usize)
        ensures
            r == self.spec_channel_count(),
    {
        self.channel_count
    }

    /// Describes the material once it is finished and its frame rate is known.
    pub fn clip_info(&self) -> (r: Option<ClipInfo>)
        ensures
            r == (if !self.spec_is_recording() && self.spec_frame_rate() is Some {
                Some(
                    ClipInfo {
                        is_midi: self.spec_is_midi(),
                        frame_rate: self.spec_frame_rate()->0,
                        frame_count: self.material().len() as usize,
                    },
                )
            } else {
                None
            }),
    {
        match self.frame_rate {
            Some(frame_rate) if !self.recording => Some(
                ClipInfo { is_midi: self.is_midi, frame_rate, frame_count: self.frames.len() },
            ),
            _ => None,
        }
    }

    pub fn supply_audio(&mut self, request: &SupplyAudioRequest, dest: &mut Vec<i32>) -> (r:
        SupplyResponse)
        requires
            audio_request_fits(*request, old(dest)@.len() as int),
        ensures
            *final(self) == *old(self),
            r == bounded_response(
                old(self).material().len() as int,
                request.start_frame as int,
                request.dest_frame_count as int,
            ),
            final(dest)@ == audio_written(
                old(dest)@,
                request.dest_frame_offset as int,
                request.dest_frame_count as int,
                old(self).material(),
                request.start_frame as int,
            ),
    {
        supply_bounded_audio(&self.frames, request, dest)
    }

    pub fn supply_midi(&mut self, request: &SupplyMidiRequest, events: &mut Vec<i32>) -> (r:
        SupplyResponse)
        requires
            request.dest_frame_count <= old(events)@.len(),
        ensures
            *final(self) == *old(self),
            r == bounded_response(
                old(self).material().len() as int,
                request.start_frame as int,
                request.dest_frame_count as int,
            ),
            final(events)@ == midi_added(
                old(events)@,
                request.dest_frame_count as int,
                old(self).material(),
                request.start_frame as int,
            ),
    {
        supply_bounded_midi(&self.frames, request, events)
    }
}

} // verus!
