use vstd::prelude::*;
use crate::recorder::Recorder;
use crate::supply::{
    audio_request_fits, audio_written, bounded_response, bounded_response_of, midi_added,
    SupplyAudioRequest, SupplyMidiRequest, SupplyResponse,
};

verus! {

/// The number of frames of a section `[start, start + length)` of material of `len` frames.
pub open spec fn section_frame_count(len: int, start: int, length: Option<usize>) -> int {
    let available = if len > start {
        len - start
    } else {
        0
    };
    match length {
        Some(l) => if (l as int) < available {
            l as int
        } else {
            available
        },
        None => available,
    }
}

/// Confines the wrapped supplier to `[start_frame, start_frame + length)`.
#[derive(Clone, Debug)]
pub struct Section {
    pub start_frame: usize,
    pub length: Option<usize>,
    pub supplier: Recorder,
}

impl Section {
    pub open spec fn spec_frame_count(&self) -> int {
        section_frame_count(
            self.supplier.material().len() as int,
            self.start_frame as int,
            self.length,
        )
    }

    /// The part of the wrapped material that this section delivers.
    pub open spec fn material(&self) -> Seq<i32> {
        Seq::new(
            self.spec_frame_count() as nat,
            |i: int| self.supplier.material()[self.start_frame + i],
        )
    }

    pub open spec fn wf(&self) -> bool {
        self.supplier.wf()
    }

    /// A section that covers the whole wrapped material.
    pub fn new(supplier: Recorder) -> (r: Section)
        ensures
            r.start_frame == 0,
            r.length is None,
            r.supplier == supplier,
    {
        Section { start_frame: 0, length: None, supplier }
    }

    pub fn supplier(&self) -> (r: &Recorder)
        ensures
            *r == self.supplier,
    {
        &self.supplier
    }

    pub fn supplier_mut(&mut self) -> (r: &mut Recorder)
        ensures
            *r == old(self).supplier,
            *final(self) == (Section { supplier: *final(r), ..*old(self) }),
    {
        &mut self.supplier
    }

    pub fn set_bounds(&mut self, start_frame: usize, length: Option<usize>)
        ensures
            final(self).start_frame == start_frame,
            final(self).length == length,
            final(self).supplier == old(self).supplier,
    {
        self.start_frame = start_frame;
        self.length = length;
    }

    pub fn frame_count(&self) -> (r: usize)
        ensures
            r == self.spec_frame_count(),
            r == self.material().len(),
    {
        let len = self.supplier.frame_count();
        let available: usize = if len > self.start_frame {
            len - self.start_frame
        } else {
            0
        };
        match self.length {
            Some(l) => if l < available {
                l
            } else {
                available
            },
            None => available,
        }
    }

    pub fn channel_count(&self) -> (r: usize)
        ensures
            r == self.supplier.spec_channel_count(),
    {
        self.supplier.channel_count()
    }

    pub fn frame_rate(&self) -> (r: Option<u32>)
        ensures
            r == self.supplier.spec_frame_rate(),
    {
        self.supplier.frame_rate()
    }

    pub fn supply_audio(&mut self, request: &SupplyAudioRequest, dest: &mut Vec<i32>) -> (r:
        SupplyResponse)
        requires
            old(self).wf(),
            audio_request_fits(*request, old(dest)@.len() as int),
        ensures
            *final(self) == *old(self),
            r == bounded_response(
                old(self).material().len() as int,
                request.start_frame as int,
                request.dest_frame_count as int,
            ),
            final(dest)@ == audio_written(
                old(dest)@,
                request.dest_frame_offset as int,
                request.dest_frame_count as int,
                old(self).material(),
                request.start_frame as int,
            ),
    {
        let count = self.frame_count();
        let n = request.dest_frame_count;
        let off = request.dest_frame_offset;
        let s = request.start_frame;
        let dest_len = dest.len();
        // Silence first, then the part of the window that lies inside the section.
        let mut i: usize = 0;
        while i < n
            invariant
                i <= n,
                dest_len == dest@.len(),
                n == request.dest_frame_count,
                off == request.dest_frame_offset,
                off + n <= dest@.len(),
                dest@.len() == old(dest)@.len(),
                forall|j: int|
                    0 <= j < dest@.len() ==> dest@[j] == (if off <= j < off + i {
                        0
                    } else {
                        old(dest)@[j]
                    }),
            decreases n - i,
        {
            dest.set(off + i, 0);
            i = i + 1;
        }
        let lo: i128 = if s < 0 {
            0
        } else {
            s as i128
        };
        let end: i128 = s as i128 + n as i128;
        let hi: i128 = if end < count as i128 {
            end
        } else {
            count as i128
        };
        if lo < hi {
            let inner = SupplyAudioRequest {
                start_frame: (lo + self.start_frame as i128) as isize,
                dest_frame_offset: (off as i128 + (lo - s as i128)) as usize,
                dest_frame_count: (hi - lo) as usize,
                dest_sample_rate: request.dest_sample_rate,
            };
            self.supplier.supply_audio(&inner, dest);
            assert(dest@ =~= audio_written(old(dest)@, off as int, n as int, self.material(), s as int));
        } else {
            assert(dest@ =~= audio_written(old(dest)@, off as int, n as int, self.material(), s as int));
        }
        bounded_response_of(count, s, n)
    }

    pub fn supply_midi(&mut self, request: &SupplyMidiRequest, events: &mut Vec<i32>) -> (r:
        SupplyResponse)
        requires
            old(self).wf(),
            request.dest_frame_count <= old(events)@.len(),
        ensures
            *final(self) == *old(self),
            r == bounded_response(
                old(self).material().len() as int,
                request.start_frame as int,
                request.dest_frame_count as int,
            ),
            final(events)@ == midi_added(
                old(events)@,
                request.dest_frame_count as int,
                old(self).material(),
                request.start_frame as int,
            ),
    {
        let count = self.frame_count();
        let n = request.dest_frame_count;
        let s = request.start_frame;
        // Ask the wrapped supplier frame by frame for the positions inside the section only.
        let mut one: Vec<i32> = vec![0];
        let mut i: usize = 0;
        while i < n
            invariant
                i <= n,
                n == request.dest_frame_count,
                s == request.start_frame,
                n <= events@.len(),
                events@.len() == old(events)@.len(),
                count == self.material().len(),
                count > 0 ==> count + self.start_frame <= self.supplier.material().len(),
                one@.len() == 1,
                *self == *old(self),
                self.wf(),
                forall|j: int|
                    0 <= j < events@.len() ==> events@[j] == (if 0 <= j < i
                        && crate::supply::material_frame(self.material(), s + j) != 0 {
                        crate::supply::material_frame(self.material(), s + j)
                    } else {
                        old(events)@[j]
                    }),
            decreases n - i,
        {
            let pos: i128 = s as i128 + i as i128;
            if 0 <= pos && pos < count as i128 {
                one.set(0, 0);
                let inner = SupplyMidiRequest {
                    start_frame: (pos + self.start_frame as i128) as isize,
                    dest_frame_count: 1,
                };
                self.supplier.supply_midi(&inner, &mut one);
                let v = one[0];
                if v != 0 {
                    events.set(i, v);
                }
            }
            i = i + 1;
        }
        assert(events@ =~= midi_added(old(events)@, n as int, self.material(), s as int));
        bounded_response_of(count, s, n)
    }
}

} // verus!
