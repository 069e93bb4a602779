use vstd::prelude::*;
use vstd::arithmetic::div_mod::lemma_fundamental_div_mod_converse;
use crate::section::Section;
use crate::supply::{
    audio_request_fits, audio_written, bounded_response, material_frame, midi_added,
    SupplyAudioRequest, SupplyMidiRequest, SupplyResponse, SupplyResponseStatus,
};

verus! {

/// How often the looper repeats the wrapped material.
#[derive(Clone, Copy, Debug, PartialEq, Eq, Structural)]
pub enum LoopBehavior {
    Infinitely,
    /// Plays up to and including the end of the given cycle (counted from 0).
    UntilEndOfCycle(usize),
}

impl Default for LoopBehavior {
    fn default() -> (r: LoopBehavior)
        ensures
            r == LoopBehavior::UntilEndOfCycle(0),
    {
        LoopBehavior::UntilEndOfCycle(0)
    }
}

#[derive(Clone, Copy, Debug, PartialEq, Eq, Structural)]
pub enum Repetition {
    Infinitely,
    Once,
}

impl Repetition {
    pub fn from_bool(repeated: bool) -> (r: Repetition)
        ensures
            r == (if repeated {
                Repetition::Infinitely
            } else {
                Repetition::Once
            }),
    {
        if repeated {
            Repetition::Infinitely
        } else {
            Repetition::Once
        }
    }
}

impl LoopBehavior {
    /// The last cycle to be played, `None` where the looping does not end.
    pub open spec fn spec_last_cycle(self) -> Option<usize> {
        match self {
            LoopBehavior::Infinitely => None,
            LoopBehavior::UntilEndOfCycle(n) => Some(n),
        }
    }

    pub fn from_repetition(repetition: Repetition) -> (r: LoopBehavior)
        ensures
            r == (match repetition {
                Repetition::Infinitely => LoopBehavior::Infinitely,
                Repetition::Once => LoopBehavior::UntilEndOfCycle(0),
            }),
    {
        match repetition {
            Repetition::Infinitely => LoopBehavior::Infinitely,
            Repetition::Once => LoopBehavior::UntilEndOfCycle(0),
        }
    }

    pub fn from_bool(repeated: bool) -> (r: LoopBehavior)
        ensures
            r == (if repeated {
                LoopBehavior::Infinitely
            } else {
                LoopBehavior::UntilEndOfCycle(0)
            }),
    {
        if repeated {
            LoopBehavior::Infinitely
        } else {
            LoopBehavior::UntilEndOfCycle(0)
        }
    }

    pub fn last_cycle(&self) -> (r: Option<usize>)
        ensures
            r == self.spec_last_cycle(),
    {
        match self {
            LoopBehavior::Infinitely => None,
            LoopBehavior::UntilEndOfCycle(n) => Some(*n),
        }
    }
}

/// The frame that a looped pass started at `r` delivers at index `i`: the rest of the current
/// cycle, then one more pass from the start of the material, then silence.
pub open spec fn looped_frame(m: Seq<i32>, r: int, i: int) -> i32 {
    if r + i < m.len() {
        m[r + i]
    } else {
        material_frame(m, r + i - m.len())
    }
}

/// `dest` with the frames `[off, off + n)` replaced by a looped pass started at `r`.
pub open spec fn looped_audio_written(dest: Seq<i32>, off: int, n: int, m: Seq<i32>, r: int) -> Seq<
    i32,
> {
    Seq::new(
        dest.len(),
        |j: int|
            if off <= j < off + n {
                looped_frame(m, r, j - off)
            } else {
                dest[j]
            },
    )
}

/// `events` with the events of a looped pass started at `r` added for the first `n` frames.
pub open spec fn looped_midi_added(events: Seq<i32>, n: int, m: Seq<i32>, r: int) -> Seq<i32> {
    Seq::new(
        events.len(),
        |j: int|
            if 0 <= j < n && looped_frame(m, r, j) != 0 {
                looped_frame(m, r, j)
            } else {
                events[j]
            },
    )
}

/// The response of a looped pass of `n` frames started at `r` within material of `len` frames:
/// it always goes on, having consumed the whole destination unless that is longer than the
/// rest of the cycle plus one more cycle.
pub open spec fn looped_response(len: int, r: int, n: int) -> SupplyResponse {
    if n <= 2 * len - r {
        SupplyResponse::continuing(n)
    } else {
        SupplyResponse::continuing(2 * len - r)
    }
}

/// Repeats the wrapped, section-bounded material forever or up to a marked last cycle.
#[derive(Clone, Debug)]
pub struct Looper {
    pub loop_behavior: LoopBehavior,
    pub enabled: bool,
    pub supplier: Section,
}

/// Where a request starts, when the looper applies to it.
pub struct RelevantData {
    pub start_frame: usize,
    pub current_cycle: usize,
}

impl Looper {
    pub open spec fn wf(&self) -> bool {
        self.supplier.wf()
    }

    /// The material of one cycle.
    pub open spec fn material(&self) -> Seq<i32> {
        self.supplier.material()
    }

    pub open spec fn spec_cycle_at(&self, frame: int) -> int {
        frame / (self.material().len() as int)
    }

    pub open spec fn cycle_in_scope(&self, cycle: int) -> bool {
        match self.loop_behavior.spec_last_cycle() {
            None => true,
            Some(last) => cycle <= last,
        }
    }

    pub open spec fn spec_is_last_cycle(&self, cycle: int) -> bool {
        self.loop_behavior.spec_last_cycle() == Some(cycle as usize) && 0 <= cycle
            <= usize::MAX
    }

    /// Whether looping applies to a request that starts at `start`.
    pub open spec fn is_relevant(&self, start: int) -> bool {
        self.enabled && start >= 0 && self.cycle_in_scope(self.spec_cycle_at(start))
    }

    /// A supply request must not divide by an empty cycle.
    pub open spec fn can_supply_from(&self, start: int) -> bool {
        self.enabled && start >= 0 ==> self.material().len() > 0
    }

    /// The response to an audio request and the destination buffer after it.
    pub open spec fn audio_outcome(&self, request: SupplyAudioRequest, dest: Seq<i32>) -> (
        SupplyResponse,
        Seq<i32>,
    ) {
        let m = self.material();
        let len = m.len() as int;
        let s = request.start_frame as int;
        let off = request.dest_frame_offset as int;
        let n = request.dest_frame_count as int;
        if !self.is_relevant(s) {
            (bounded_response(len, s, n), audio_written(dest, off, n, m, s))
        } else if self.spec_is_last_cycle(s / len) {
            (bounded_response(len, s % len, n), audio_written(dest, off, n, m, s % len))
        } else {
            (looped_response(len, s % len, n), looped_audio_written(dest, off, n, m, s % len))
        }
    }

    /// The response to a MIDI request and the event list after it.
    pub open spec fn midi_outcome(&self, request: SupplyMidiRequest, events: Seq<i32>) -> (
        SupplyResponse,
        Seq<i32>,
    ) {
        let m = self.material();
        let len = m.len() as int;
        let s = request.start_frame as int;
        let n = request.dest_frame_count as int;
        if !self.is_relevant(s) {
            (bounded_response(len, s, n), midi_added(events, n, m, s))
        } else if self.spec_is_last_cycle(s / len) {
            (bounded_response(len, s % len, n), midi_added(events, n, m, s % len))
        } else {
            (looped_response(len, s % len, n), looped_midi_added(events, n, m, s % len))
        }
    }

    /// A disabled looper that plays its material once.
    pub fn new(supplier: Section) -> (r: Looper)
        ensures
            r.loop_behavior == LoopBehavior::UntilEndOfCycle(0),
            !r.enabled,
            r.supplier == supplier,
    {
        Looper { loop_behavior: LoopBehavior::default(), enabled: false, supplier }
    }

    pub fn set_enabled(&mut self, enabled: bool)
        ensures
            final(self).enabled == enabled,
            final(self).loop_behavior == old(self).loop_behavior,
            final(self).supplier == old(self).supplier,
    {
        self.enabled = enabled;
    }

    pub fn supplier(&self) -> (r: &Section)
        ensures
            *r == self.supplier,
    {
        &self.supplier
    }

    pub fn supplier_mut(&mut self) -> (r: &mut Section)
        ensures
            *r == old(self).supplier,
            *final(self) == (Looper { supplier: *final(r), ..*old(self) }),
    {
        &mut self.supplier
    }

    pub fn set_loop_behavior(&mut self, loop_behavior: LoopBehavior)
        ensures
            final(self).loop_behavior == loop_behavior,
            final(self).enabled == old(self).enabled,
            final(self).supplier == old(self).supplier,
    {
        self.loop_behavior = loop_behavior;
    }

    /// Marks the cycle that contains `pos` (cycle 0 for a negative position) as the last one.
    pub fn keep_playing_until_end_of_current_cycle(&mut self, pos: isize)
        requires
            pos >= 0 ==> old(self).material().len() > 0,
        ensures
            final(self).loop_behavior == LoopBehavior::UntilEndOfCycle(
                (if pos < 0 {
                    0
                } else {
                    old(self).spec_cycle_at(pos as int)
                }) as usize,
            ),
            final(self).enabled == old(self).enabled,
            final(self).supplier == old(self).supplier,
    {
        let last_cycle = if pos < 0 {
            0
        } else {
            self.get_cycle_at_frame(pos as usize)
        };
        self.loop_behavior = LoopBehavior::UntilEndOfCycle(last_cycle);
    }

    /// The cycle that contains the given frame.
    pub fn get_cycle_at_frame(&self, frame: usize) -> (r: usize)
        requires
            self.material().len() > 0,
        ensures
            r == self.spec_cycle_at(frame as int),
    {
        frame / self.supplier.frame_count()
    }

    pub fn check_relevance(&self, start_frame: isize) -> (r: Option<RelevantData>)
        requires
            self.can_supply_from(start_frame as int),
        ensures
            r is Some <==> self.is_relevant(start_frame as int),
            r matches Some(d) ==> d.start_frame == start_frame && d.current_cycle
                == self.spec_cycle_at(start_frame as int),
    {
        if !self.enabled || start_frame < 0 {
            return None;
        }
        let start_frame = start_frame as usize;
        let current_cycle = self.get_cycle_at_frame(start_frame);
        let cycle_in_scope = match self.loop_behavior.last_cycle() {
            Some(last_cycle) => current_cycle <= last_cycle,
            None => true,
        };
        if !cycle_in_scope {
            return None;
        }
        Some(RelevantData { start_frame, current_cycle })
    }

    pub fn is_last_cycle(&self, cycle: usize) -> (r: bool)
        ensures
            r == self.spec_is_last_cycle(cycle as int),
    {
        match self.loop_behavior.last_cycle() {
            Some(last_cycle) => cycle == last_cycle,
            None => false,
        }
    }

    pub fn supply_audio(&mut self, request: &SupplyAudioRequest, dest: &mut Vec<i32>) -> (r:
        SupplyResponse)
        requires
            old(self).wf(),
            old(self).can_supply_from(request.start_frame as int),
            audio_request_fits(*request, old(dest)@.len() as int),
        ensures
            *final(self) == *old(self),
            (r, final(dest)@) == old(self).audio_outcome(*request, old(dest)@),
    {
        let data = match self.check_relevance(request.start_frame) {
            None => {
                return self.supplier.supply_audio(request, dest);
            },
            Some(d) => d,
        };
        let supplier_frame_count = self.supplier.frame_count();
        let ghost m = self.material();
        // Start from the beginning if the start frame lies after the end (modulo).
        let modulo_start_frame = data.start_frame % supplier_frame_count;
        let modulo_request = SupplyAudioRequest {
            start_frame: modulo_start_frame as isize,
            dest_frame_offset: request.dest_frame_offset,
            dest_frame_count: request.dest_frame_count,
            dest_sample_rate: request.dest_sample_rate,
        };
        let ghost d0 = dest@;
        let dest_len = dest.len();
        let modulo_response = self.supplier.supply_audio(&modulo_request, dest);
        match modulo_response.status {
            SupplyResponseStatus::PleaseContinue => modulo_response,
            SupplyResponseStatus::ReachedEnd { num_frames_written } => {
                if self.is_last_cycle(data.current_cycle) {
                    // Time to stop.
                    modulo_response
                } else if num_frames_written == request.dest_frame_count {
                    // Perfect landing: the cycle ends exactly with the destination.
                    SupplyResponse::please_continue(modulo_response.num_frames_consumed)
                } else {
                    // Exceeded the end of the cycle: fill the rest from the start of the next one.
                    assert(num_frames_written <= request.dest_frame_count);
                    let start_request = SupplyAudioRequest {
                        start_frame: 0,
                        dest_frame_offset: request.dest_frame_offset + num_frames_written,
                        dest_frame_count: request.dest_frame_count - num_frames_written,
                        dest_sample_rate: request.dest_sample_rate,
                    };
                    let start_response = self.supplier.supply_audio(&start_request, dest);
                    assert(dest@ =~= looped_audio_written(
                        d0,
                        request.dest_frame_offset as int,
                        request.dest_frame_count as int,
                        m,
                        modulo_start_frame as int,
                    ));
                    SupplyResponse::please_continue(
                        modulo_response.num_frames_consumed + start_response.num_frames_consumed,
                    )
                }
            },
        }
    }

    pub fn supply_midi(&mut self, request: &SupplyMidiRequest, events: &mut Vec<i32>) -> (r:
        SupplyResponse)
        requires
            old(self).wf(),
            old(self).can_supply_from(request.start_frame as int),
            request.dest_frame_count <= old(events)@.len(),
        ensures
            *final(self) == *old(self),
            (r, final(events)@) == old(self).midi_outcome(*request, old(events)@),
    {
        let data = match self.check_relevance(request.start_frame) {
            None => {
                return self.supplier.supply_midi(request, events);
            },
            Some(d) => d,
        };
        let supplier_frame_count = self.supplier.frame_count();
        let ghost m = self.material();
        let modulo_start_frame = data.start_frame % supplier_frame_count;
        let modulo_request = SupplyMidiRequest {
            start_frame: modulo_start_frame as isize,
            dest_frame_count: request.dest_frame_count,
        };
        let ghost e0 = events@;
        let modulo_response = self.supplier.supply_midi(&modulo_request, events);
        match modulo_response.status {
            SupplyResponseStatus::PleaseContinue => modulo_response,
            SupplyResponseStatus::ReachedEnd { num_frames_written } => {
                if self.is_last_cycle(data.current_cycle) {
                    modulo_response
                } else if num_frames_written == request.dest_frame_count {
                    SupplyResponse::please_continue(modulo_response.num_frames_consumed)
                } else {
                    // Fill the rest with the beginning of the material. The request starts at a
                    // negative position as long as the frames already consumed, so that the
                    // added events land at the right frame offsets.
                    let start_request = SupplyMidiRequest {
                        start_frame: -(modulo_response.num_frames_consumed as isize),
                        dest_frame_count: request.dest_frame_count,
                    };
                    let start_response = self.supplier.supply_midi(&start_request, events);
                    assert(events@ =~= looped_midi_added(
                        e0,
                        request.dest_frame_count as int,
                        m,
                        modulo_start_frame as int,
                    ));
                    // The frames consumed by the first pass are part of this count already,
                    // because the second pass started at a negative position.
                    SupplyResponse::please_continue(start_response.num_frames_consumed)
                }
            },
        }
    }

    pub fn channel_count(&self) -> (r: usize)
        ensures
            r == self.supplier.supplier.spec_channel_count(),
    {
        self.supplier.channel_count()
    }

    /// The native frame rate of the material, once it is known.
    pub open spec fn source_frame_rate(&self) -> Option<u32> {
        self.supplier.supplier.spec_frame_rate()
    }

    pub fn frame_rate(&self) -> (r: Option<u32>)
        ensures
            r == self.source_frame_rate(),
    {
        self.supplier.frame_rate()
    }
}

/// A request at frame `k * C + r` of a looper over `C` frames yields the same response, output
/// and MIDI events as one at `r`, as long as neither cycle `k` nor cycle 0 is the last one and
/// cycle `k` is in scope.
pub proof fn lemma_loop_wraparound(
    looper: Looper,
    request: SupplyAudioRequest,
    midi_request: SupplyMidiRequest,
    k: int,
    dest: Seq<i32>,
)
    requires
        looper.enabled,
        looper.material().len() > 0,
        0 <= request.start_frame < looper.material().len(),
        midi_request.start_frame == request.start_frame,
        0 <= k,
        k * looper.material().len() + request.start_frame <= isize::MAX,
        looper.cycle_in_scope(k),
        !looper.spec_is_last_cycle(k),
        !looper.spec_is_last_cycle(0),
    ensures
        looper.audio_outcome(
            SupplyAudioRequest {
                start_frame: (k * looper.material().len() + request.start_frame) as isize,
                ..request
            },
            dest,
        ) == looper.audio_outcome(request, dest),
        looper.midi_outcome(
            SupplyMidiRequest {
                start_frame: (k * looper.material().len() + request.start_frame) as isize,
                ..midi_request
            },
            dest,
        ) == looper.midi_outcome(midi_request, dest),
{
    let len = looper.material().len() as int;
    let r = request.start_frame as int;
    lemma_fundamental_div_mod_converse(k * len + r, len, k, r);
    lemma_fundamental_div_mod_converse(r, len, 0, r);
}

/// A request for exactly one cycle of frames at the start of a cycle that is not the last one
/// goes on with the next cycle, having consumed the whole cycle: the perfect landing.
pub proof fn lemma_perfect_landing(looper: Looper, request: SupplyAudioRequest, k: int, dest: Seq<
    i32,
>)
    requires
        looper.enabled,
        looper.material().len() > 0,
        0 <= k,
        request.start_frame == k * looper.material().len(),
        request.dest_frame_count == looper.material().len(),
        looper.cycle_in_scope(k),
        !looper.spec_is_last_cycle(k),
    ensures
        looper.audio_outcome(request, dest).0 == SupplyResponse::continuing(
            looper.material().len() as int,
        ),
        looper.audio_outcome(request, dest).1 == audio_written(
            dest,
            request.dest_frame_offset as int,
            request.dest_frame_count as int,
            looper.material(),
            0,
        ),
{
    let len = looper.material().len() as int;
    lemma_fundamental_div_mod_converse(k * len, len, k, 0);
    assert(looper.audio_outcome(request, dest).1 =~= audio_written(
        dest,
        request.dest_frame_offset as int,
        request.dest_frame_count as int,
        looper.material(),
        0,
    ));
}

/// A request that spans the end of a cycle that is not the last one is filled up from the start
/// of the next cycle within the same call, and consumes the whole destination, as long as the
/// destination does not outlast that next cycle too.
pub proof fn lemma_exceeded_end_fill(looper: Looper, request: SupplyAudioRequest, dest: Seq<i32>)
    requires
        looper.is_relevant(request.start_frame as int),
        looper.material().len() > 0,
        !looper.spec_is_last_cycle(looper.spec_cycle_at(request.start_frame as int)),
        (request.start_frame as int) % (looper.material().len() as int) + request.dest_frame_count
            > looper.material().len(),
        (request.start_frame as int) % (looper.material().len() as int) + request.dest_frame_count <= 2
            * looper.material().len(),
        audio_request_fits(request, dest.len() as int),
    ensures
        looper.audio_outcome(request, dest).0 == SupplyResponse::continuing(
            request.dest_frame_count as int,
        ),
        ({
            let len = looper.material().len() as int;
            let w = len - (request.start_frame as int) % len;
            let off = request.dest_frame_offset as int;
            let out = looper.audio_outcome(request, dest).1;
            &&& forall|j: int|
                off <= j < off + w ==> #[trigger] out[j] == looper.material()[(request.start_frame as int)
                    % len + (j - off)]
            &&& forall|j: int|
                off + w <= j < off + request.dest_frame_count ==> #[trigger] out[j]
                    == looper.material()[j - off - w]
        }),
{
}

/// Once a cycle is marked as the last one, a request into it that reaches the end of the
/// material ends there, and a request into a later cycle delivers nothing.
pub proof fn lemma_last_cycle_termination(
    looper: Looper,
    pos: int,
    request: SupplyAudioRequest,
    dest: Seq<i32>,
)
    requires
        looper.enabled,
        looper.material().len() > 0,
        0 <= pos,
        looper.loop_behavior == LoopBehavior::UntilEndOfCycle(
            looper.spec_cycle_at(pos) as usize,
        ),
        looper.spec_cycle_at(pos) <= usize::MAX,
        request.start_frame >= 0,
        looper.spec_cycle_at(request.start_frame as int) >= looper.spec_cycle_at(pos),
        (request.start_frame as int) % (looper.material().len() as int) + request.dest_frame_count
            >= looper.material().len(),
    ensures
        looper.audio_outcome(request, dest).0.status is ReachedEnd,
        looper.spec_cycle_at(request.start_frame as int) > looper.spec_cycle_at(pos)
            ==> looper.audio_outcome(request, dest).0 == SupplyResponse::ended(0),
{
    let len = looper.material().len() as int;
    let s = request.start_frame as int;
    let c = s / len;
    vstd::arithmetic::div_mod::lemma_fundamental_div_mod(s, len);
    if c > pos / len {
        assert(s >= len) by (nonlinear_arith)
            requires
                c >= 1,
                s == len * c + s % len,
                s % len >= 0,
                len > 0,
        ;
    }
}

} // verus!
