use clip_engine::record_input::{
    plan_record_input, translate_track_input_to_hw_input, ChannelRange, ClipRecordHardwareInput,
    ClipRecordHardwareMidiInput, ClipRecordInput, RecordInputPlan, RecordOrigin,
    TrackRecordingInput,
};
use clip_engine::slot::{RecordingEquipment, SlotError};

#[test]
fn mono_and_stereo_track_inputs_become_audio_ranges() {
    assert_eq!(
        translate_track_input_to_hw_input(TrackRecordingInput::Mono(3)),
        Ok(ClipRecordHardwareInput::Audio(ChannelRange { first_channel_index: 3, channel_count: 1 }))
    );
    assert_eq!(
        translate_track_input_to_hw_input(TrackRecordingInput::Stereo(4)),
        Ok(ClipRecordHardwareInput::Audio(ChannelRange { first_channel_index: 4, channel_count: 2 }))
    );
}

#[test]
fn midi_track_input_keeps_device_and_channel() {
    let input = TrackRecordingInput::Midi { device_id: Some(2), channel: None };
    assert_eq!(
        translate_track_input_to_hw_input(input),
        Ok(ClipRecordHardwareInput::Midi(ClipRecordHardwareMidiInput {
            device_id: Some(2),
            channel: None
        }))
    );
}

#[test]
fn other_track_input_is_refused() {
    assert_eq!(
        translate_track_input_to_hw_input(TrackRecordingInput::Other),
        Err(SlotError::UnsupportedTrackRecordingInput)
    );
}

#[test]
fn track_input_origin_needs_a_recording_input() {
    assert_eq!(
        plan_record_input(RecordOrigin::TrackInput, None, true, 2),
        Err(SlotError::TrackHasNoRecordingInput)
    );
    let plan = plan_record_input(RecordOrigin::TrackInput, Some(TrackRecordingInput::Mono(0)), true, 2)
        .unwrap();
    assert!(!plan.needs_temporary_route);
    assert_eq!(
        plan.input.recording_equipment(),
        RecordingEquipment { is_midi: false, channel_count: 1 }
    );
}

#[test]
fn track_audio_output_origin_needs_a_route_and_a_track() {
    assert_eq!(
        plan_record_input(RecordOrigin::TrackAudioOutput, None, false, 2),
        Err(SlotError::TrackAudioOutputNeedsContainingTrack)
    );
    assert_eq!(
        plan_record_input(RecordOrigin::TrackAudioOutput, None, true, 6),
        Ok(RecordInputPlan {
            input: ClipRecordInput::FxInput(ChannelRange { first_channel_index: 0, channel_count: 6 }),
            needs_temporary_route: true,
        })
    );
}

#[test]
fn fx_audio_input_origin_uses_its_range() {
    let range = ChannelRange { first_channel_index: 2, channel_count: 2 };
    assert_eq!(
        plan_record_input(RecordOrigin::FxAudioInput(range), None, false, 0),
        Ok(RecordInputPlan { input: ClipRecordInput::FxInput(range), needs_temporary_route: false })
    );
}

#[test]
fn midi_hardware_input_records_midi() {
    let input = ClipRecordInput::HardwareInput(ClipRecordHardwareInput::Midi(
        ClipRecordHardwareMidiInput { device_id: None, channel: Some(1) },
    ));
    assert_eq!(input.recording_equipment(), RecordingEquipment { is_midi: true, channel_count: 0 });
}
