use vstd::prelude::*;

verus! {

/// How a supplier reports the outcome of one supply call.
#[derive(Clone, Copy, Debug, PartialEq, Eq, Structural)]
pub enum SupplyResponseStatus {
    /// More material remains after the frames of this call.
    PleaseContinue,
    /// The supplier exhausted its bounded range within this call.
    ReachedEnd { num_frames_written: usize },
}

#[derive(Clone, Copy, Debug, PartialEq, Eq, Structural)]
pub struct SupplyResponse {
    pub num_frames_consumed: usize,
    pub status: SupplyResponseStatus,
}

impl SupplyResponse {
    pub open spec fn continuing(num_frames_consumed: int) -> SupplyResponse {
        SupplyResponse {
            num_frames_consumed: num_frames_consumed as usize,
            status: SupplyResponseStatus::PleaseContinue,
        }
    }

    pub open spec fn ended(num_frames: int) -> SupplyResponse {
        SupplyResponse {
            num_frames_consumed: num_frames as usize,
            status: SupplyResponseStatus::ReachedEnd { num_frames_written: num_frames as usize },
        }
    }

    pub fn please_continue(num_frames_consumed: usize) -> (r: SupplyResponse)
        ensures
            r == SupplyResponse::continuing(num_frames_consumed as int),
    {
        SupplyResponse { num_frames_consumed, status: SupplyResponseStatus::PleaseContinue }
    }

    pub fn reached_end(num_frames_written: usize) -> (r: SupplyResponse)
        ensures
            r == SupplyResponse::ended(num_frames_written as int),
    {
        SupplyResponse {
            num_frames_consumed: num_frames_written,
            status: SupplyResponseStatus::ReachedEnd { num_frames_written },
        }
    }
}

/// A request for audio frames: `dest_frame_count` frames starting at position `start_frame`,
/// written into the destination buffer from index `dest_frame_offset` on, at the destination's
/// frame rate `dest_sample_rate`.
#[derive(Clone, Copy, Debug)]
pub struct SupplyAudioRequest {
    pub start_frame: isize,
    pub dest_frame_offset: usize,
    pub dest_frame_count: usize,
    pub dest_sample_rate: u32,
}

/// A request for MIDI events: the events of `dest_frame_count` frames starting at material
/// position `start_frame` are added to an event list that holds one slot per frame.
#[derive(Clone, Copy, Debug)]
pub struct SupplyMidiRequest {
    pub start_frame: isize,
    pub dest_frame_count: usize,
}

/// Whether an audio request fits into a destination buffer of the given length.
pub open spec fn audio_request_fits(request: SupplyAudioRequest, dest_len: int) -> bool {
    request.dest_frame_offset + request.dest_frame_count <= dest_len
}

/// The frame of bounded material at a position: silence outside of it.
pub open spec fn material_frame(m: Seq<i32>, pos: int) -> i32 {
    if 0 <= pos < m.len() {
        m[pos]
    } else {
        0
    }
}

/// The number of destination frames, out of `n` starting at `start`, that lie before the end
/// of material of length `len` (pre-roll silence at negative positions included).
pub open spec fn frames_until_end(len: int, start: int, n: int) -> int {
    if len - start <= 0 {
        0
    } else if len - start >= n {
        n
    } else {
        len - start
    }
}

/// The response of a supplier of bounded material of length `len`.
pub open spec fn bounded_response(len: int, start: int, n: int) -> SupplyResponse {
    if start + n >= len {
        SupplyResponse::ended(frames_until_end(len, start, n))
    } else {
        SupplyResponse::continuing(n)
    }
}

/// `dest` with the frames `[off, off + n)` replaced by the material from `start` on.
pub open spec fn audio_written(dest: Seq<i32>, off: int, n: int, m: Seq<i32>, start: int) -> Seq<
    i32,
> {
    Seq::new(
        dest.len(),
        |j: int|
            if off <= j < off + n {
                material_frame(m, start + (j - off))
            } else {
                dest[j]
            },
    )
}

/// `events` with the events of the material from `start` on added for the first `n` frames.
/// A frame of MIDI material holds a packed short message, or 0 where there is no event.
pub open spec fn midi_added(events: Seq<i32>, n: int, m: Seq<i32>, start: int) -> Seq<i32> {
    Seq::new(
        events.len(),
        |j: int|
            if 0 <= j < n && material_frame(m, start + j) != 0 {
                material_frame(m, start + j)
            } else {
                events[j]
            },
    )
}

/// Writes bounded material `m` into the destination as a terminal supplier does.
pub fn supply_bounded_audio(m: &Vec<i32>, request: &SupplyAudioRequest, dest: &mut Vec<i32>) -> (r:
    SupplyResponse)
    requires
        audio_request_fits(*request, old(dest)@.len() as int),
    ensures
        r == bounded_response(m@.len() as int, request.start_frame as int, request.dest_frame_count as int),
        final(dest)@ == audio_written(
            old(dest)@,
            request.dest_frame_offset as int,
            request.dest_frame_count as int,
            m@,
            request.start_frame as int,
        ),
{
    let n = request.dest_frame_count;
    let off = request.dest_frame_offset;
    let start = request.start_frame;
    let len = m.len();
    let dest_len = dest.len();
    let mut i: usize = 0;
    while i < n
        invariant
            i <= n,
            dest_len == dest@.len(),
            n == request.dest_frame_count,
            off == request.dest_frame_offset,
            start == request.start_frame,
            len == m@.len(),
            off + n <= dest@.len(),
            dest@.len() == old(dest)@.len(),
            forall|j: int|
                0 <= j < dest@.len() ==> dest@[j] == (if off <= j < off + i {
                    material_frame(m@, start + (j - off))
                } else {
                    old(dest)@[j]
                }),
        decreases n - i,
    {
        let pos: i128 = start as i128 + i as i128;
        let v: i32 = if 0 <= pos && pos < len as i128 {
            m[pos as usize]
        } else {
            0
        };
        dest.set(off + i, v);
        i = i + 1;
    }
    assert(final(dest)@ =~= audio_written(old(dest)@, off as int, n as int, m@, start as int));
    bounded_response_of(len, start, n)
}

/// Adds the events of bounded MIDI material `m` to the event list as a terminal supplier does.
pub fn supply_bounded_midi(m: &Vec<i32>, request: &SupplyMidiRequest, events: &mut Vec<i32>) -> (r:
    SupplyResponse)
    requires
        request.dest_frame_count <= old(events)@.len(),
    ensures
        r == bounded_response(m@.len() as int, request.start_frame as int, request.dest_frame_count as int),
        final(events)@ == midi_added(
            old(events)@,
            request.dest_frame_count as int,
            m@,
            request.start_frame as int,
        ),
{
    let n = request.dest_frame_count;
    let start = request.start_frame;
    let len = m.len();
    let mut i: usize = 0;
    while i < n
        invariant
            i <= n,
            n == request.dest_frame_count,
            start == request.start_frame,
            len == m@.len(),
            n <= events@.len(),
            events@.len() == old(events)@.len(),
            forall|j: int|
                0 <= j < events@.len() ==> events@[j] == (if 0 <= j < i && material_frame(
                    m@,
                    start + j,
                ) != 0 {
                    material_frame(m@, start + j)
                } else {
                    old(events)@[j]
                }),
        decreases n - i,
    {
        let pos: i128 = start as i128 + i as i128;
        if 0 <= pos && pos < len as i128 {
            let v = m[pos as usize];
            if v != 0 {
                events.set(i, v);
            }
        }
        i = i + 1;
    }
    assert(final(events)@ =~= midi_added(old(events)@, n as int, m@, start as int));
    bounded_response_of(len, start, n)
}

/// The response of a supplier whose bounded material has `len` frames.
pub fn bounded_response_of(len: usize, start: isize, n: usize) -> (r: SupplyResponse)
    ensures
        r == bounded_response(len as int, start as int, n as int),
{
    let end: i128 = start as i128 + n as i128;
    if end >= len as i128 {
        let left: i128 = len as i128 - start as i128;
        let written: usize = if left <= 0 {
            0
        } else if left >= n as i128 {
            n
        } else {
            left as usize
        };
        SupplyResponse::reached_end(written)
    } else {
        SupplyResponse::please_continue(n)
    }
}

} // verus!
