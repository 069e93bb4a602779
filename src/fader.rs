use vstd::prelude::*;
use crate::resampler::Resampler;
use crate::supply::{
    audio_request_fits, SupplyAudioRequest, SupplyMidiRequest, SupplyResponse,
};

verus! {

/// The number of frames over which a fade goes from silence to full level.
pub const FADE_FRAME_COUNT: u64 = 64;

/// The level, out of `FADE_FRAME_COUNT`, at a playback position: rising from the start of
/// playback, and falling towards a scheduled stop.
pub open spec fn fade_gain(pos: int, fade_out_end: Option<usize>) -> int {
    let full = FADE_FRAME_COUNT as int;
    let fade_in = if pos < 0 {
        0
    } else if pos < full {
        pos
    } else {
        full
    };
    let fade_out = match fade_out_end {
        None => full,
        Some(end) => if pos >= end {
            0
        } else if end - pos < full {
            end - pos
        } else {
            full
        },
    };
    if fade_in < fade_out {
        fade_in
    } else {
        fade_out
    }
}

/// A sample scaled by a level out of `FADE_FRAME_COUNT`, rounded towards zero.
pub open spec fn faded(x: int, gain: int) -> int {
    if x >= 0 {
        (x * gain) / (FADE_FRAME_COUNT as int)
    } else {
        -(((-x) * gain) / (FADE_FRAME_COUNT as int))
    }
}

/// Fades in at the start of playback and out towards a scheduled stop, so that no click is
/// heard. It changes amplitudes only, never frame counts or MIDI events.
#[derive(Clone, Debug)]
pub struct Fader {
    pub enabled: bool,
    pub fade_out_end: Option<usize>,
    pub supplier: Resampler,
}

impl Fader {
    pub open spec fn can_supply_audio(&self, request: SupplyAudioRequest) -> bool {
        self.supplier.can_supply_audio(request)
    }

    pub open spec fn can_supply_midi_from(&self, start: int) -> bool {
        self.supplier.can_supply_midi_from(start)
    }

    pub open spec fn wf(&self) -> bool {
        self.supplier.wf()
    }

    pub open spec fn audio_outcome(&self, request: SupplyAudioRequest, dest: Seq<i32>) -> (
        SupplyResponse,
        Seq<i32>,
    ) {
        let (response, written) = self.supplier.audio_outcome(request, dest);
        let off = request.dest_frame_offset as int;
        let n = request.dest_frame_count as int;
        let s = request.start_frame as int;
        if self.enabled {
            (
                response,
                Seq::new(
                    written.len(),
                    |j: int|
                        if off <= j < off + n {
                            faded(written[j] as int, fade_gain(s + (j - off), self.fade_out_end))
                                as i32
                        } else {
                            written[j]
                        },
                ),
            )
        } else {
            (response, written)
        }
    }

    pub open spec fn midi_outcome(&self, request: SupplyMidiRequest, events: Seq<i32>) -> (
        SupplyResponse,
        Seq<i32>,
    ) {
        self.supplier.midi_outcome(request, events)
    }

    pub fn new(supplier: Resampler) -> (r: Fader)
        ensures
            r == (Fader { enabled: false, fade_out_end: None, supplier }),
    {
        Fader { enabled: false, fade_out_end: None, supplier }
    }

    pub fn set_enabled(&mut self, enabled: bool)
        ensures
            *final(self) == (Fader { enabled, ..*old(self) }),
    {
        self.enabled = enabled;
    }

    /// Fades out so that the level reaches silence at the given frame.
    pub fn schedule_fade_out(&mut self, end_frame: usize)
        ensures
            *final(self) == (Fader { fade_out_end: Some(end_frame), ..*old(self) }),
    {
        self.fade_out_end = Some(end_frame);
    }

    pub fn cancel_fade_out(&mut self)
        ensures
            *final(self) == (Fader { fade_out_end: None, ..*old(self) }),
    {
        self.fade_out_end = None;
    }

    pub fn supplier(&self) -> (r: &Resampler)
        ensures
            *r == self.supplier,
    {
        &self.supplier
    }

    pub fn supplier_mut(&mut self) -> (r: &mut Resampler)
        ensures
            *r == old(self).supplier,
            *final(self) == (Fader { supplier: *final(r), ..*old(self) }),
    {
        &mut self.supplier
    }

    fn gain_at(&self, pos: i128) -> (r: u64)
        requires
            isize::MIN <= pos <= isize::MAX as int + usize::MAX as int,
        ensures
            r == fade_gain(pos as int, self.fade_out_end),
            r <= FADE_FRAME_COUNT,
    {
        let full = FADE_FRAME_COUNT;
        let fade_in: u64 = if pos < 0 {
            0
        } else if pos < full as i128 {
            pos as u64
        } else {
            full
        };
        let fade_out: u64 = match self.fade_out_end {
            None => full,
            Some(end) => if pos >= end as i128 {
                0
            } else if end as i128 - pos < full as i128 {
                (end as i128 - pos) as u64
            } else {
                full
            },
        };
        if fade_in < fade_out {
            fade_in
        } else {
            fade_out
        }
    }

    pub fn supply_audio(&mut self, request: &SupplyAudioRequest, dest: &mut Vec<i32>) -> (r:
        SupplyResponse)
        requires
            old(self).wf(),
            old(self).can_supply_audio(*request),
            audio_request_fits(*request, old(dest)@.len() as int),
        ensures
            *final(self) == *old(self),
            (r, final(dest)@) == old(self).audio_outcome(*request, old(dest)@),
    {
        let response = self.supplier.supply_audio(request, dest);
        if !self.enabled {
            return response;
        }
        let ghost written = dest@;
        let n = request.dest_frame_count;
        let off = request.dest_frame_offset;
        let s = request.start_frame;
        let dest_len = dest.len();
        let mut i: usize = 0;
        while i < n
            invariant
                i <= n,
                dest_len == dest@.len(),
                n == request.dest_frame_count,
                off == request.dest_frame_offset,
                s == request.start_frame,
                off + n <= dest@.len(),
                dest@.len() == written.len(),
                forall|j: int|
                    0 <= j < dest@.len() ==> dest@[j] == (if off <= j < off + i {
                        faded(written[j] as int, fade_gain(s + (j - off), self.fade_out_end)) as i32
                    } else {
                        written[j]
                    }),
            decreases n - i,
        {
            let v = dest[off + i];
            let g = self.gain_at(s as i128 + i as i128);
            let scaled = fade_sample(v, g);
            dest.set(off + i, scaled);
            i = i + 1;
        }
        let ghost expected = self.audio_outcome(*request, old(dest)@).1;
        assert(dest@ =~= expected);
        response
    }

    pub fn supply_midi(&mut self, request: &SupplyMidiRequest, events: &mut Vec<i32>) -> (r:
        SupplyResponse)
        requires
            old(self).wf(),
            old(self).can_supply_midi_from(request.start_frame as int),
            request.dest_frame_count <= old(events)@.len(),
        ensures
            *final(self) == *old(self),
            (r, final(events)@) == old(self).midi_outcome(*request, old(events)@),
    {
        self.supplier.supply_midi(request, events)
    }
}

/// Scales a sample by a level out of `FADE_FRAME_COUNT`.
pub fn fade_sample(x: i32, gain: u64) -> (r: i32)
    requires
        gain <= FADE_FRAME_COUNT,
    ensures
        r as int == faded(x as int, gain as int),
{
    let full = FADE_FRAME_COUNT;
    if x >= 0 {
        proof {
            assert(x as int * gain <= 0x8000_0000 * 64) by (nonlinear_arith)
                requires
                    0 <= x <= 0x8000_0000,
                    0 <= gain <= 64,
            ;
        }
        let m: u64 = x as u64 * gain;
        proof {
            assert(m <= x as int * (FADE_FRAME_COUNT as int)) by (nonlinear_arith)
                requires
                    m == x as int * gain,
                    gain <= FADE_FRAME_COUNT,
                    x >= 0,
            ;
            assert((m as int) / (FADE_FRAME_COUNT as int) <= x as int) by (nonlinear_arith)
                requires
                    m <= x as int * (FADE_FRAME_COUNT as int),
                    FADE_FRAME_COUNT > 0,
            ;
        }
        (m / full) as i32
    } else {
        let a: u64 = (-(x as i64)) as u64;
        proof {
            assert(a as int * gain <= 0x8000_0000 * 64) by (nonlinear_arith)
                requires
                    0 <= a <= 0x8000_0000,
                    0 <= gain <= 64,
            ;
        }
        let m: u64 = a * gain;
        proof {
            assert(m <= a as int * (FADE_FRAME_COUNT as int)) by (nonlinear_arith)
                requires
                    m == a as int * gain,
                    gain <= FADE_FRAME_COUNT,
            ;
            assert((m as int) / (FADE_FRAME_COUNT as int) <= a as int) by (nonlinear_arith)
                requires
                    m <= a as int * (FADE_FRAME_COUNT as int),
                    FADE_FRAME_COUNT > 0,
            ;
        }
        -((m / full) as i64) as i32
    }
}

} // verus!
