use vstd::prelude::*;
use crate::looper::Looper;
use crate::supply::{
    audio_request_fits, SupplyAudioRequest, SupplyMidiRequest, SupplyResponse,
};

verus! {

/// Shifts where frame zero of the wrapped material falls, so that the material's downbeat
/// lands on frame zero of the playback and what comes before it plays at negative positions.
#[derive(Clone, Debug)]
pub struct Downbeat {
    pub enabled: bool,
    pub downbeat_frame: usize,
    pub supplier: Looper,
}

impl Downbeat {
    /// The position that the wrapped supplier is asked for.
    pub open spec fn shifted_start(&self, start: int) -> int {
        if self.enabled {
            start + self.downbeat_frame
        } else {
            start
        }
    }

    /// Whether a request that starts at `start` can be forwarded.
    pub open spec fn can_supply_from(&self, start: int) -> bool {
        &&& self.shifted_start(start) <= isize::MAX
        &&& self.supplier.can_supply_from(self.shifted_start(start))
    }

    pub open spec fn wf(&self) -> bool {
        self.supplier.wf()
    }

    pub open spec fn audio_outcome(&self, request: SupplyAudioRequest, dest: Seq<i32>) -> (
        SupplyResponse,
        Seq<i32>,
    ) {
        self.supplier.audio_outcome(
            (SupplyAudioRequest {
                start_frame: self.shifted_start(request.start_frame as int) as isize,
                ..request
            }),
            dest,
        )
    }

    pub open spec fn midi_outcome(&self, request: SupplyMidiRequest, events: Seq<i32>) -> (
        SupplyResponse,
        Seq<i32>,
    ) {
        self.supplier.midi_outcome(
            (SupplyMidiRequest {
                start_frame: self.shifted_start(request.start_frame as int) as isize,
                ..request
            }),
            events,
        )
    }

    /// A disabled downbeat stage with the downbeat at frame zero.
    pub fn new(supplier: Looper) -> (r: Downbeat)
        ensures
            r == (Downbeat { enabled: false, downbeat_frame: 0, supplier }),
    {
        Downbeat { enabled: false, downbeat_frame: 0, supplier }
    }

    pub fn set_enabled(&mut self, enabled: bool)
        ensures
            *final(self) == (Downbeat { enabled, ..*old(self) }),
    {
        self.enabled = enabled;
    }

    pub fn set_downbeat_frame(&mut self, downbeat_frame: usize)
        ensures
            *final(self) == (Downbeat { downbeat_frame, ..*old(self) }),
    {
        self.downbeat_frame = downbeat_frame;
    }

    pub fn supplier(&self) -> (r: &Looper)
        ensures
            *r == self.supplier,
    {
        &self.supplier
    }

    pub fn supplier_mut(&mut self) -> (r: &mut Looper)
        ensures
            *r == old(self).supplier,
            *final(self) == (Downbeat { supplier: *final(r), ..*old(self) }),
    {
        &mut self.supplier
    }

    fn shifted_request_start(&self, start: isize) -> (r: isize)
        requires
            self.shifted_start(start as int) <= isize::MAX,
        ensures
            r == self.shifted_start(start as int),
    {
        if self.enabled {
            (start as i128 + self.downbeat_frame as i128) as isize
        } else {
            start
        }
    }

    pub open spec fn source_frame_rate(&self) -> Option<u32> {
        self.supplier.source_frame_rate()
    }

    pub fn frame_rate(&self) -> (r: Option<u32>)
        ensures
            r == self.source_frame_rate(),
    {
        self.supplier.frame_rate()
    }

    pub fn supply_audio(&mut self, request: &SupplyAudioRequest, dest: &mut Vec<i32>) -> (r:
        SupplyResponse)
        requires
            old(self).wf(),
            old(self).can_supply_from(request.start_frame as int),
            audio_request_fits(*request, old(dest)@.len() as int),
        ensures
            *final(self) == *old(self),
            (r, final(dest)@) == old(self).audio_outcome(*request, old(dest)@),
    {
        let shifted = SupplyAudioRequest {
            start_frame: self.shifted_request_start(request.start_frame),
            dest_frame_offset: request.dest_frame_offset,
            dest_frame_count: request.dest_frame_count,
            dest_sample_rate: request.dest_sample_rate,
        };
        self.supplier.supply_audio(&shifted, dest)
    }

    pub fn supply_midi(&mut self, request: &SupplyMidiRequest, events: &mut Vec<i32>) -> (r:
        SupplyResponse)
        requires
            old(self).wf(),
            old(self).can_supply_from(request.start_frame as int),
            request.dest_frame_count <= old(events)@.len(),
        ensures
            *final(self) == *old(self),
            (r, final(events)@) == old(self).midi_outcome(*request, old(events)@),
    {
        let shifted = SupplyMidiRequest {
            start_frame: self.shifted_request_start(request.start_frame),
            dest_frame_count: request.dest_frame_count,
        };
        self.supplier.supply_midi(&shifted, events)
    }
}

} // verus!
