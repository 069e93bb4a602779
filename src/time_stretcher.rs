use vstd::prelude::*;
use crate::downbeat::Downbeat;
use crate::resampler::{dest_frames_before, lemma_source_pos_monotonic, source_pos, source_pos_of};
use crate::supply::{
    audio_request_fits, SupplyAudioRequest, SupplyMidiRequest, SupplyResponse,
    SupplyResponseStatus,
};

verus! {

/// The ratio of the target tempo to the material's own tempo, as `num / den`.
#[derive(Clone, Copy, Debug, PartialEq, Eq, Structural)]
pub struct TempoFactor {
    pub num: u32,
    pub den: u32,
}

/// Follows a target tempo by reading the material faster or slower (varispeed): destination
/// position `p` plays the material at `p * num / den`, rounded down. Without a tempo factor, or
/// with a factor of one, requests pass through unchanged. MIDI events always pass through
/// unchanged.
#[derive(Clone, Debug)]
pub struct TimeStretcher {
    pub enabled: bool,
    pub tempo_factor: Option<TempoFactor>,
    pub supplier: Downbeat,
}

impl TimeStretcher {
    /// Whether audio requests are stretched.
    pub open spec fn stretches(&self) -> bool {
        &&& self.enabled
        &&& self.tempo_factor is Some
        &&& self.tempo_factor->0.num > 0
        &&& self.tempo_factor->0.den > 0
        &&& self.tempo_factor->0.num != self.tempo_factor->0.den
    }

    /// The material frames that a stretched request needs.
    pub open spec fn source_window(&self, request: SupplyAudioRequest) -> SupplyAudioRequest {
        let src = self.tempo_factor->0.num as int;
        let dst = self.tempo_factor->0.den as int;
        let s = request.start_frame as int;
        let n = request.dest_frame_count as int;
        let first = source_pos(s, src, dst);
        let end = if n > 0 {
            source_pos(s + n - 1, src, dst) + 1
        } else {
            first
        };
        SupplyAudioRequest {
            start_frame: first as isize,
            dest_frame_offset: 0,
            dest_frame_count: (end - first) as usize,
            dest_sample_rate: request.dest_sample_rate,
        }
    }

    /// Whether an audio request can be forwarded: the material window must be addressable.
    pub open spec fn can_supply_audio(&self, request: SupplyAudioRequest) -> bool {
        if self.stretches() {
            let src = self.tempo_factor->0.num as int;
            let dst = self.tempo_factor->0.den as int;
            let s = request.start_frame as int;
            let n = request.dest_frame_count as int;
            &&& isize::MIN <= source_pos(s, src, dst)
            &&& source_pos(s, src, dst) <= isize::MAX
            &&& n > 0 ==> source_pos(s + n - 1, src, dst) < isize::MAX
            &&& self.supplier.can_supply_from(source_pos(s, src, dst))
        } else {
            self.supplier.can_supply_from(request.start_frame as int)
        }
    }

    pub open spec fn can_supply_midi_from(&self, start: int) -> bool {
        self.supplier.can_supply_from(start)
    }

    pub open spec fn wf(&self) -> bool {
        self.supplier.wf()
    }

    pub open spec fn audio_outcome(&self, request: SupplyAudioRequest, dest: Seq<i32>) -> (
        SupplyResponse,
        Seq<i32>,
    ) {
        if !self.stretches() {
            self.supplier.audio_outcome(request, dest)
        } else {
            let src = self.tempo_factor->0.num as int;
            let dst = self.tempo_factor->0.den as int;
            let s = request.start_frame as int;
            let n = request.dest_frame_count as int;
            let off = request.dest_frame_offset as int;
            let window = self.source_window(request);
            let first = window.start_frame as int;
            let (source_response, source) = self.supplier.audio_outcome(
                window,
                Seq::new(window.dest_frame_count as nat, |i: int| 0i32),
            );
            let response = match source_response.status {
                SupplyResponseStatus::PleaseContinue => SupplyResponse::continuing(n),
                SupplyResponseStatus::ReachedEnd { num_frames_written } => SupplyResponse::ended(
                    dest_frames_before(s, n, src, dst, first + num_frames_written),
                ),
            };
            let written = Seq::new(
                dest.len(),
                |j: int|
                    if off <= j < off + n {
                        source[source_pos(s + (j - off), src, dst) - first]
                    } else {
                        dest[j]
                    },
            );
            (response, written)
        }
    }

    pub open spec fn midi_outcome(&self, request: SupplyMidiRequest, events: Seq<i32>) -> (
        SupplyResponse,
        Seq<i32>,
    ) {
        self.supplier.midi_outcome(request, events)
    }

    pub open spec fn source_frame_rate(&self) -> Option<u32> {
        self.supplier.source_frame_rate()
    }

    /// A disabled time stretcher without a tempo factor.
    pub fn new(supplier: Downbeat) -> (r: TimeStretcher)
        ensures
            r == (TimeStretcher { enabled: false, tempo_factor: None, supplier }),
    {
        TimeStretcher { enabled: false, tempo_factor: None, supplier }
    }

    pub fn set_enabled(&mut self, enabled: bool)
        ensures
            *final(self) == (TimeStretcher { enabled, ..*old(self) }),
    {
        self.enabled = enabled;
    }

    pub fn set_tempo_factor(&mut self, tempo_factor: Option<TempoFactor>)
        ensures
            *final(self) == (TimeStretcher { tempo_factor, ..*old(self) }),
    {
        self.tempo_factor = tempo_factor;
    }

    pub fn supplier(&self) -> (r: &Downbeat)
        ensures
            *r == self.supplier,
    {
        &self.supplier
    }

    pub fn supplier_mut(&mut self) -> (r: &mut Downbeat)
        ensures
            *r == old(self).supplier,
            *final(self) == (TimeStretcher { supplier: *final(r), ..*old(self) }),
    {
        &mut self.supplier
    }

    pub fn frame_rate(&self) -> (r: Option<u32>)
        ensures
            r == self.source_frame_rate(),
    {
        self.supplier.frame_rate()
    }

    pub fn supply_audio(&mut self, request: &SupplyAudioRequest, dest: &mut Vec<i32>) -> (r:
        SupplyResponse)
        requires
            old(self).wf(),
            old(self).can_supply_audio(*request),
            audio_request_fits(*request, old(dest)@.len() as int),
        ensures
            *final(self) == *old(self),
            (r, final(dest)@) == old(self).audio_outcome(*request, old(dest)@),
    {
        let (src, dst) = match self.tempo_factor {
            Some(f) if self.enabled && f.num > 0 && f.den > 0 && f.num != f.den => (f.num, f.den),
            _ => {
                return self.supplier.supply_audio(request, dest);
            },
        };
        let s = request.start_frame;
        let n = request.dest_frame_count;
        let off = request.dest_frame_offset;
        let ghost window = self.source_window(*request);
        let first = source_pos_of(s as i128, src, dst);
        let end: i128 = if n > 0 {
            source_pos_of(s as i128 + n as i128 - 1, src, dst) + 1
        } else {
            first
        };
        proof {
            if n > 0 {
                lemma_source_pos_monotonic(s as int, s + n - 1, src as int, dst as int);
            }
        }
        let count = (end - first) as usize;
        let mut source: Vec<i32> = Vec::new();
        while source.len() < count
            invariant
                source@.len() <= count,
                forall|i: int| 0 <= i < source@.len() ==> source@[i] == 0i32,
            decreases count - source@.len(),
        {
            source.push(0);
        }
        assert(source@ =~= Seq::new(window.dest_frame_count as nat, |i: int| 0i32));
        let source_request = SupplyAudioRequest {
            start_frame: first as isize,
            dest_frame_offset: 0,
            dest_frame_count: count,
            dest_sample_rate: request.dest_sample_rate,
        };
        let source_response = self.supplier.supply_audio(&source_request, &mut source);
        let ghost filled = source@;
        let dest_len = dest.len();
        let mut i: usize = 0;
        while i < n
            invariant
                i <= n,
                dest_len == dest@.len(),
                n == request.dest_frame_count,
                off == request.dest_frame_offset,
                s == request.start_frame,
                off + n <= dest@.len(),
                dest@.len() == old(dest)@.len(),
                source@ == filled,
                source@.len() == count,
                first == source_pos(s as int, src as int, dst as int),
                n > 0 ==> end == source_pos(s + n - 1, src as int, dst as int) + 1,
                count == end - first,
                src > 0,
                dst > 0,
                forall|j: int|
                    0 <= j < dest@.len() ==> dest@[j] == (if off <= j < off + i {
                        filled[source_pos(s + (j - off), src as int, dst as int) - first]
                    } else {
                        old(dest)@[j]
                    }),
            decreases n - i,
        {
            let q = source_pos_of(s as i128 + i as i128, src, dst);
            proof {
                lemma_source_pos_monotonic(s as int, s + i, src as int, dst as int);
                lemma_source_pos_monotonic(s + i, s + n - 1, src as int, dst as int);
            }
            let v = source[(q - first) as usize];
            dest.set(off + i, v);
            i = i + 1;
        }
        proof {
            assert(dest@ =~= self.audio_outcome(*request, old(dest)@).1);
        }
        match source_response.status {
            SupplyResponseStatus::PleaseContinue => SupplyResponse::please_continue(n),
            SupplyResponseStatus::ReachedEnd { num_frames_written } => {
                let bound: i128 = first + num_frames_written as i128;
                let mut k: usize = n;
                while k > 0 && source_pos_of(s as i128 + k as i128 - 1, src, dst) >= bound
                    invariant
                        k <= n,
                        src > 0,
                        dst > 0,
                        dest_frames_before(s as int, k as int, src as int, dst as int, bound as int)
                            == dest_frames_before(
                            s as int,
                            n as int,
                            src as int,
                            dst as int,
                            bound as int,
                        ),
                    decreases k,
                {
                    k = k - 1;
                }
                SupplyResponse::reached_end(k)
            },
        }
    }

    pub fn supply_midi(&mut self, request: &SupplyMidiRequest, events: &mut Vec<i32>) -> (r:
        SupplyResponse)
        requires
            old(self).wf(),
            old(self).can_supply_midi_from(request.start_frame as int),
            request.dest_frame_count <= old(events)@.len(),
        ensures
            *final(self) == *old(self),
            (r, final(events)@) == old(self).midi_outcome(*request, old(events)@),
    {
        self.supplier.supply_midi(request, events)
    }
}

} // verus!
