use vstd::prelude::*;
use crate::slot::{RecordingEquipment, SlotError};

verus! {

/// A range of consecutive channels.
#[derive(Clone, Copy, Debug, PartialEq, Eq, Structural)]
pub struct ChannelRange {
    pub first_channel_index: u32,
    pub channel_count: u32,
}

/// The recording input that a track is set to.
#[derive(Clone, Copy, Debug, PartialEq, Eq, Structural)]
pub enum TrackRecordingInput {
    Mono(u32),
    Stereo(u32),
    Midi { device_id: Option<u8>, channel: Option<u8> },
    /// Any other kind of input (multichannel audio, for example).
    Other,
}

#[derive(Clone, Copy, Debug, PartialEq, Eq, Structural)]
pub struct ClipRecordHardwareMidiInput {
    pub device_id: Option<u8>,
    pub channel: Option<u8>,
}

#[derive(Clone, Copy, Debug, PartialEq, Eq, Structural)]
pub enum ClipRecordHardwareInput {
    Audio(ChannelRange),
    Midi(ClipRecordHardwareMidiInput),
}

/// Where the material of a recording comes from.
#[derive(Clone, Copy, Debug, PartialEq, Eq, Structural)]
pub enum ClipRecordInput {
    HardwareInput(ClipRecordHardwareInput),
    FxInput(ChannelRange),
}

/// What a column is set to record.
#[derive(Clone, Copy, Debug, PartialEq, Eq, Structural)]
pub enum RecordOrigin {
    TrackInput,
    TrackAudioOutput,
    FxAudioInput(ChannelRange),
}

/// The recording input together with whether a temporary send from the recording track to
/// the containing track has to be created for it.
#[derive(Clone, Copy, Debug, PartialEq, Eq, Structural)]
pub struct RecordInputPlan {
    pub input: ClipRecordInput,
    pub needs_temporary_route: bool,
}

pub open spec fn spec_translate_track_input(track_input: TrackRecordingInput) -> Result<
    ClipRecordHardwareInput,
    SlotError,
> {
    match track_input {
        TrackRecordingInput::Mono(i) => Ok(
            ClipRecordHardwareInput::Audio(ChannelRange { first_channel_index: i, channel_count: 1 }),
        ),
        TrackRecordingInput::Stereo(i) => Ok(
            ClipRecordHardwareInput::Audio(ChannelRange { first_channel_index: i, channel_count: 2 }),
        ),
        TrackRecordingInput::Midi { device_id, channel } => Ok(
            ClipRecordHardwareInput::Midi(ClipRecordHardwareMidiInput { device_id, channel }),
        ),
        TrackRecordingInput::Other => Err(SlotError::UnsupportedTrackRecordingInput),
    }
}

/// Translates the input of the recording track into the hardware input to capture.
pub fn translate_track_input_to_hw_input(track_input: TrackRecordingInput) -> (r: Result<
    ClipRecordHardwareInput,
    SlotError,
>)
    ensures
        r == spec_translate_track_input(track_input),
{
    match track_input {
        TrackRecordingInput::Mono(i) => Ok(
            ClipRecordHardwareInput::Audio(ChannelRange { first_channel_index: i, channel_count: 1 }),
        ),
        TrackRecordingInput::Stereo(i) => Ok(
            ClipRecordHardwareInput::Audio(ChannelRange { first_channel_index: i, channel_count: 2 }),
        ),
        TrackRecordingInput::Midi { device_id, channel } => Ok(
            ClipRecordHardwareInput::Midi(ClipRecordHardwareMidiInput { device_id, channel }),
        ),
        TrackRecordingInput::Other => Err(SlotError::UnsupportedTrackRecordingInput),
    }
}

/// Decides the recording input for a record origin. `track_input` is the recording input of
/// the recording track, `has_containing_track` whether the engine runs on a track (and not in
/// the monitoring FX chain), and `recording_track_channel_count` the channel count of the
/// recording track.
pub fn plan_record_input(
    origin: RecordOrigin,
    track_input: Option<TrackRecordingInput>,
    has_containing_track: bool,
    recording_track_channel_count: u32,
) -> (r: Result<RecordInputPlan, SlotError>)
    ensures
        r == match origin {
            RecordOrigin::TrackInput => match track_input {
                None => Err(SlotError::TrackHasNoRecordingInput),
                Some(t) => match spec_translate_track_input(t) {
                    Ok(hw) => Ok(
                        RecordInputPlan {
                            input: ClipRecordInput::HardwareInput(hw),
                            needs_temporary_route: false,
                        },
                    ),
                    Err(e) => Err(e),
                },
            },
            RecordOrigin::TrackAudioOutput => if has_containing_track {
                Ok(
                    RecordInputPlan {
                        input: ClipRecordInput::FxInput(
                            ChannelRange {
                                first_channel_index: 0,
                                channel_count: recording_track_channel_count,
                            },
                        ),
                        needs_temporary_route: true,
                    },
                )
            } else {
                Err(SlotError::TrackAudioOutputNeedsContainingTrack)
            },
            RecordOrigin::FxAudioInput(range) => Ok(
                RecordInputPlan { input: ClipRecordInput::FxInput(range), needs_temporary_route: false },
            ),
        },
{
    match origin {
        RecordOrigin::TrackInput => {
            let t = match track_input {
                None => return Err(SlotError::TrackHasNoRecordingInput),
                Some(t) => t,
            };
            match translate_track_input_to_hw_input(t) {
                Ok(hw) => Ok(
                    RecordInputPlan {
                        input: ClipRecordInput::HardwareInput(hw),
                        needs_temporary_route: false,
                    },
                ),
                Err(e) => Err(e),
            }
        },
        RecordOrigin::TrackAudioOutput => {
            if !has_containing_track {
                return Err(SlotError::TrackAudioOutputNeedsContainingTrack);
            }
            let range = ChannelRange {
                first_channel_index: 0,
                channel_count: recording_track_channel_count,
            };
            Ok(RecordInputPlan { input: ClipRecordInput::FxInput(range), needs_temporary_route: true })
        },
        RecordOrigin::FxAudioInput(range) => Ok(
            RecordInputPlan { input: ClipRecordInput::FxInput(range), needs_temporary_route: false },
        ),
    }
}

impl ClipRecordInput {
    pub open spec fn spec_is_midi(self) -> bool {
        self matches ClipRecordInput::HardwareInput(ClipRecordHardwareInput::Midi(_))
    }

    pub open spec fn spec_channel_count(self) -> usize {
        match self {
            ClipRecordInput::HardwareInput(ClipRecordHardwareInput::Audio(range)) => range.channel_count as usize,
            ClipRecordInput::HardwareInput(ClipRecordHardwareInput::Midi(_)) => 0,
            ClipRecordInput::FxInput(range) => range.channel_count as usize,
        }
    }

    /// The equipment that records from this input: MIDI for a hardware MIDI input, audio with
    /// the input's channel count otherwise.
    pub fn recording_equipment(&self) -> (r: RecordingEquipment)
        ensures
            r == (RecordingEquipment {
                is_midi: self.spec_is_midi(),
                channel_count: self.spec_channel_count(),
            }),
    {
        match self {
            ClipRecordInput::HardwareInput(ClipRecordHardwareInput::Audio(range)) => RecordingEquipment {
                is_midi: false,
                channel_count: range.channel_count as usize,
            },
            ClipRecordInput::HardwareInput(ClipRecordHardwareInput::Midi(_)) => RecordingEquipment {
                is_midi: true,
                channel_count: 0,
            },
            ClipRecordInput::FxInput(range) => RecordingEquipment {
                is_midi: false,
                channel_count: range.channel_count as usize,
            },
        }
    }
}

} // verus!
