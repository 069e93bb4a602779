use vstd::prelude::*;
use vstd::arithmetic::div_mod::{
    lemma_div_basics_2, lemma_div_is_ordered, lemma_div_is_ordered_by_denominator,
    lemma_div_pos_is_pos,
};
use vstd::arithmetic::mul::lemma_mul_inequality;
use crate::time_stretcher::TimeStretcher;
use crate::supply::{
    audio_request_fits, SupplyAudioRequest, SupplyMidiRequest, SupplyResponse,
    SupplyResponseStatus,
};

verus! {

/// The source position that plays at destination position `p` when the source runs at `src`
/// frames per second and the destination at `dst`: the floor of `p * src / dst`.
pub open spec fn source_pos(p: int, src: int, dst: int) -> int {
    if p >= 0 {
        (p * src) / dst
    } else {
        -(((-p) * src + dst - 1) / dst)
    }
}

/// The number of the first `n` destination frames from `s` on whose source position lies
/// before `bound`.
pub open spec fn dest_frames_before(s: int, n: int, src: int, dst: int, bound: int) -> int
    decreases n,
{
    if n <= 0 {
        0
    } else if source_pos(s + n - 1, src, dst) < bound {
        n
    } else {
        dest_frames_before(s, n - 1, src, dst, bound)
    }
}

/// A later destination position never plays an earlier source position.
pub proof fn lemma_source_pos_monotonic(p1: int, p2: int, src: int, dst: int)
    requires
        p1 <= p2,
        src >= 0,
        dst > 0,
    ensures
        source_pos(p1, src, dst) <= source_pos(p2, src, dst),
{
    if p1 >= 0 {
        lemma_mul_inequality(p1, p2, src);
        lemma_div_is_ordered(p1 * src, p2 * src, dst);
    } else if p2 < 0 {
        lemma_mul_inequality(-p2, -p1, src);
        lemma_div_is_ordered((-p2) * src + dst - 1, (-p1) * src + dst - 1, dst);
    } else {
        lemma_mul_inequality(0, -p1, src);
        lemma_div_pos_is_pos((-p1) * src + dst - 1, dst);
        lemma_mul_inequality(0, p2, src);
        lemma_div_pos_is_pos(p2 * src, dst);
    }
}

/// Converts between the source's frame rate and the destination's: each destination frame
/// takes the source frame that plays at its time (zero-order hold). Where the rates match, or
/// the source's rate is not known yet, requests pass through unchanged. MIDI events always
/// pass through unchanged.
#[derive(Clone, Debug)]
pub struct Resampler {
    pub enabled: bool,
    pub supplier: TimeStretcher,
}

impl Resampler {
    pub open spec fn source_frame_rate(&self) -> Option<u32> {
        self.supplier.source_frame_rate()
    }

    /// Whether an audio request at the given destination rate is converted.
    pub open spec fn converts(&self, dest_sample_rate: u32) -> bool {
        &&& self.enabled
        &&& self.source_frame_rate() is Some
        &&& self.source_frame_rate()->0 > 0
        &&& dest_sample_rate > 0
        &&& self.source_frame_rate()->0 != dest_sample_rate
    }

    /// The source frames that a converted request needs, at the source's rate.
    pub open spec fn source_window(&self, request: SupplyAudioRequest) -> SupplyAudioRequest {
        let src = self.source_frame_rate()->0 as int;
        let dst = request.dest_sample_rate as int;
        let s = request.start_frame as int;
        let n = request.dest_frame_count as int;
        let first = source_pos(s, src, dst);
        let end = if n > 0 {
            source_pos(s + n - 1, src, dst) + 1
        } else {
            first
        };
        SupplyAudioRequest {
            start_frame: first as isize,
            dest_frame_offset: 0,
            dest_frame_count: (end - first) as usize,
            dest_sample_rate: src as u32,
        }
    }

    /// Whether an audio request can be forwarded: the source window must be addressable.
    pub open spec fn can_supply_audio(&self, request: SupplyAudioRequest) -> bool {
        if self.converts(request.dest_sample_rate) {
            let src = self.source_frame_rate()->0 as int;
            let dst = request.dest_sample_rate as int;
            let s = request.start_frame as int;
            let n = request.dest_frame_count as int;
            &&& isize::MIN <= source_pos(s, src, dst)
            &&& source_pos(s, src, dst) <= isize::MAX
            &&& n > 0 ==> source_pos(s + n - 1, src, dst) < isize::MAX
            &&& self.supplier.can_supply_audio(self.source_window(request))
        } else {
            self.supplier.can_supply_audio(request)
        }
    }

    pub open spec fn can_supply_midi_from(&self, start: int) -> bool {
        self.supplier.can_supply_midi_from(start)
    }

    pub open spec fn wf(&self) -> bool {
        self.supplier.wf()
    }

    pub open spec fn audio_outcome(&self, request: SupplyAudioRequest, dest: Seq<i32>) -> (
        SupplyResponse,
        Seq<i32>,
    ) {
        if !self.converts(request.dest_sample_rate) {
            self.supplier.audio_outcome(request, dest)
        } else {
            let src = self.source_frame_rate()->0 as int;
            let dst = request.dest_sample_rate as int;
            let s = request.start_frame as int;
            let n = request.dest_frame_count as int;
            let off = request.dest_frame_offset as int;
            let window = self.source_window(request);
            let first = window.start_frame as int;
            let (source_response, source) = self.supplier.audio_outcome(
                window,
                Seq::new(window.dest_frame_count as nat, |i: int| 0i32),
            );
            let response = match source_response.status {
                SupplyResponseStatus::PleaseContinue => SupplyResponse::continuing(n),
                SupplyResponseStatus::ReachedEnd { num_frames_written } => SupplyResponse::ended(
                    dest_frames_before(s, n, src, dst, first + num_frames_written),
                ),
            };
            let written = Seq::new(
                dest.len(),
                |j: int|
                    if off <= j < off + n {
                        source[source_pos(s + (j - off), src, dst) - first]
                    } else {
                        dest[j]
                    },
            );
            (response, written)
        }
    }

    pub open spec fn midi_outcome(&self, request: SupplyMidiRequest, events: Seq<i32>) -> (
        SupplyResponse,
        Seq<i32>,
    ) {
        self.supplier.midi_outcome(request, events)
    }

    pub fn new(supplier: TimeStretcher) -> (r: Resampler)
        ensures
            r == (Resampler { enabled: false, supplier }),
    {
        Resampler { enabled: false, supplier }
    }

    pub fn set_enabled(&mut self, enabled: bool)
        ensures
            *final(self) == (Resampler { enabled, ..*old(self) }),
    {
        self.enabled = enabled;
    }

    pub fn supplier(&self) -> (r: &TimeStretcher)
        ensures
            *r == self.supplier,
    {
        &self.supplier
    }

    pub fn supplier_mut(&mut self) -> (r: &mut TimeStretcher)
        ensures
            *r == old(self).supplier,
            *final(self) == (Resampler { supplier: *final(r), ..*old(self) }),
    {
        &mut self.supplier
    }

    pub fn frame_rate(&self) -> (r: Option<u32>)
        ensures
            r == self.source_frame_rate(),
    {
        self.supplier.frame_rate()
    }

    pub fn supply_audio(&mut self, request: &SupplyAudioRequest, dest: &mut Vec<i32>) -> (r:
        SupplyResponse)
        requires
            old(self).wf(),
            old(self).can_supply_audio(*request),
            audio_request_fits(*request, old(dest)@.len() as int),
        ensures
            *final(self) == *old(self),
            (r, final(dest)@) == old(self).audio_outcome(*request, old(dest)@),
    {
        let dst = request.dest_sample_rate;
        let src = match self.supplier.frame_rate() {
            Some(rate) if self.enabled && rate > 0 && dst > 0 && rate != dst => rate,
            _ => {
                return self.supplier.supply_audio(request, dest);
            },
        };
        let s = request.start_frame;
        let n = request.dest_frame_count;
        let off = request.dest_frame_offset;
        let ghost window = self.source_window(*request);
        let first = source_pos_of(s as i128, src, dst);
        let end: i128 = if n > 0 {
            source_pos_of(s as i128 + n as i128 - 1, src, dst) + 1
        } else {
            first
        };
        proof {
            if n > 0 {
                lemma_source_pos_monotonic(s as int, s + n - 1, src as int, dst as int);
            }
        }
        let count = (end - first) as usize;
        let mut source: Vec<i32> = Vec::new();
        while source.len() < count
            invariant
                source@.len() <= count,
                forall|i: int| 0 <= i < source@.len() ==> source@[i] == 0i32,
            decreases count - source@.len(),
        {
            source.push(0);
        }
        assert(source@ =~= Seq::new(window.dest_frame_count as nat, |i: int| 0i32));
        let source_request = SupplyAudioRequest {
            start_frame: first as isize,
            dest_frame_offset: 0,
            dest_frame_count: count,
            dest_sample_rate: src,
        };
        let source_response = self.supplier.supply_audio(&source_request, &mut source);
        let ghost filled = source@;
        let dest_len = dest.len();
        let mut i: usize = 0;
        while i < n
            invariant
                i <= n,
                dest_len == dest@.len(),
                n == request.dest_frame_count,
                off == request.dest_frame_offset,
                s == request.start_frame,
                off + n <= dest@.len(),
                dest@.len() == old(dest)@.len(),
                source@ == filled,
                source@.len() == count,
                first == source_pos(s as int, src as int, dst as int),
                n > 0 ==> end == source_pos(s + n - 1, src as int, dst as int) + 1,
                count == end - first,
                src > 0,
                dst > 0,
                forall|j: int|
                    0 <= j < dest@.len() ==> dest@[j] == (if off <= j < off + i {
                        filled[source_pos(s + (j - off), src as int, dst as int) - first]
                    } else {
                        old(dest)@[j]
                    }),
            decreases n - i,
        {
            let q = source_pos_of(s as i128 + i as i128, src, dst);
            proof {
                lemma_source_pos_monotonic(s as int, s + i, src as int, dst as int);
                lemma_source_pos_monotonic(s + i, s + n - 1, src as int, dst as int);
            }
            let v = source[(q - first) as usize];
            dest.set(off + i, v);
            i = i + 1;
        }
        proof {
            assert(dest@ =~= self.audio_outcome(*request, old(dest)@).1);
        }
        match source_response.status {
            SupplyResponseStatus::PleaseContinue => SupplyResponse::please_continue(n),
            SupplyResponseStatus::ReachedEnd { num_frames_written } => {
                let bound: i128 = first + num_frames_written as i128;
                let mut k: usize = n;
                while k > 0 && source_pos_of(s as i128 + k as i128 - 1, src, dst) >= bound
                    invariant
                        k <= n,
                        src > 0,
                        dst > 0,
                        dest_frames_before(s as int, k as int, src as int, dst as int, bound as int)
                            == dest_frames_before(
                            s as int,
                            n as int,
                            src as int,
                            dst as int,
                            bound as int,
                        ),
                    decreases k,
                {
                    k = k - 1;
                }
                SupplyResponse::reached_end(k)
            },
        }
    }

    pub fn supply_midi(&mut self, request: &SupplyMidiRequest, events: &mut Vec<i32>) -> (r:
        SupplyResponse)
        requires
            old(self).wf(),
            old(self).can_supply_midi_from(request.start_frame as int),
            request.dest_frame_count <= old(events)@.len(),
        ensures
            *final(self) == *old(self),
            (r, final(events)@) == old(self).midi_outcome(*request, old(events)@),
    {
        self.supplier.supply_midi(request, events)
    }
}

/// The source position that plays at destination position `p`.
pub fn source_pos_of(p: i128, src: u32, dst: u32) -> (r: i128)
    requires
        dst > 0,
        -0x1_0000_0000_0000_0000_0000 <= p <= 0x1_0000_0000_0000_0000_0000,
    ensures
        r == source_pos(p as int, src as int, dst as int),
        -0x2_0000_0000_0000_0000_0000_0000_0000 <= r <= 0x2_0000_0000_0000_0000_0000_0000_0000,
{
    if p >= 0 {
        let a = p as u128;
        proof {
            assert(a * src <= 0x1_0000_0000_0000_0000_0000 * 0x1_0000_0000) by (nonlinear_arith)
                requires
                    a <= 0x1_0000_0000_0000_0000_0000,
                    src <= 0xffff_ffff,
            ;
            lemma_div_pos_is_pos(a * src, dst as int);
            lemma_div_is_ordered_by_denominator(a * src, 1, dst as int);
            lemma_div_basics_2(a * src);
        }
        ((a * src as u128) / dst as u128) as i128
    } else {
        let a = (-p) as u128;
        proof {
            assert(a * src <= 0x1_0000_0000_0000_0000_0000 * 0x1_0000_0000) by (nonlinear_arith)
                requires
                    a <= 0x1_0000_0000_0000_0000_0000,
                    src <= 0xffff_ffff,
            ;
            lemma_div_pos_is_pos(a * src + dst - 1, dst as int);
            lemma_div_is_ordered_by_denominator(a * src + dst - 1, 1, dst as int);
            lemma_div_basics_2(a * src + dst - 1);
        }
        -(((a * src as u128 + dst as u128 - 1) / dst as u128) as i128)
    }
}

} // verus!
