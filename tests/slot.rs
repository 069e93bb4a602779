use clip_engine::slot::{
    ClipChangeEvent, ClipPlayState, ClipRecordTask, ClipSection, ClipSource, ClipTimeBase,
    Clip, ColumnCommand, ColumnCommandSender, CommittedRecording, Content, Db, FillClipMode,
    MaterialInfo, MidiClipRecordMode, NormalRecordingOutcome, RecordingEquipment, RelevantContent,
    ResolvedRecordInput, Slot, SlotChangeEvent, SlotError, SlotRecordInstruction,
    SlotRuntimeData, SlotState, TrackRoute, MidiOverdubInstruction, SlotDescriptor,
};

fn clip(path: &str, looped: bool) -> Clip {
    Clip {
        source: ClipSource::File { path: path.to_string() },
        section: ClipSection { start_frame: 0, length: None },
        volume: Db { centibels: 0 },
        looped,
        time_base: ClipTimeBase::Time,
    }
}

fn info(is_midi: bool, frame_count: usize) -> MaterialInfo {
    MaterialInfo { is_midi, frame_count, frame_rate: 48000 }
}

fn audio_input(route: Option<TrackRoute>) -> ResolvedRecordInput {
    ResolvedRecordInput {
        equipment: RecordingEquipment { is_midi: false, channel_count: 2 },
        temporary_route: route,
        pooled_midi_source: None,
    }
}

fn midi_input() -> ResolvedRecordInput {
    ResolvedRecordInput {
        equipment: RecordingEquipment { is_midi: true, channel_count: 0 },
        temporary_route: None,
        pooled_midi_source: Some(ClipSource::MidiChunk { chunk: "pooled".to_string() }),
    }
}

fn runtime_data(play_state: ClipPlayState) -> SlotRuntimeData {
    SlotRuntimeData { play_state, material_info: info(false, 0) }
}

#[test]
fn new_slot_is_empty() {
    let slot = Slot::new(3);
    assert!(slot.is_empty());
    assert!(!slot.is_recording());
    assert_eq!(slot.index(), 3);
    assert_eq!(slot.volume(), Err(SlotError::ClipDoesntExist));
    assert_eq!(slot.play_state(), Err(SlotError::ClipDoesntExist));
}

#[test]
fn requested_recording_makes_empty_slot_occupied() {
    let mut slot = Slot::new(0);
    let mut sender = ColumnCommandSender::new();
    let task = slot.record_clip(MidiClipRecordMode::Normal, audio_input(None), &mut sender).unwrap();
    assert_eq!(task, ClipRecordTask { slot_index: 0, is_midi: false, is_midi_overdub: false });
    assert_eq!(slot.clip_count(), 0);
    assert!(!slot.is_empty());
    assert!(slot.is_recording());
    assert_eq!(slot.play_state(), Ok(ClipPlayState::ScheduledForRecordingStart));
    let commands = sender.take_commands();
    assert_eq!(commands.len(), 1);
    match &commands[0] {
        ColumnCommand::RecordClip {
            slot_index: 0,
            instruction: SlotRecordInstruction::NewClip { supplier_chain },
        } => {
            assert!(supplier_chain.recorder().is_recording());
            assert_eq!(supplier_chain.recorder().channel_count(), 2);
        }
        other => panic!("unexpected command {:?}", other),
    }
    assert!(sender.take_commands().is_empty());
}

#[test]
fn recording_twice_is_refused() {
    let mut slot = Slot::new(0);
    let mut sender = ColumnCommandSender::new();
    slot.record_clip(MidiClipRecordMode::Normal, audio_input(None), &mut sender).unwrap();
    let result = slot.record_clip(MidiClipRecordMode::Normal, audio_input(None), &mut sender);
    assert_eq!(result, Err(SlotError::RecordingAlready));
    assert_eq!(SlotError::RecordingAlready.message(), "recording already");
    assert_eq!(sender.take_commands().len(), 1);
}

#[test]
fn recording_into_multi_clip_slot_is_refused() {
    let mut slot = Slot::new(0);
    slot.fill_with_clip(clip("a.wav", true), info(false, 10), None, FillClipMode::Add);
    slot.fill_with_clip(clip("b.wav", true), info(false, 10), None, FillClipMode::Add);
    let mut sender = ColumnCommandSender::new();
    assert_eq!(slot.check_record_preconditions(), Err(SlotError::MultipleClipsCannotRecord));
    let result = slot.record_clip(MidiClipRecordMode::Normal, audio_input(None), &mut sender);
    assert_eq!(result, Err(SlotError::MultipleClipsCannotRecord));
    assert!(!slot.is_recording());
    assert!(sender.take_commands().is_empty());
}

#[test]
fn recording_while_content_records_is_refused() {
    let mut slot = Slot::new(0);
    slot.fill_with_clip(clip("a.mid", true), info(true, 10), None, FillClipMode::Replace);
    slot.update_play_state(ClipPlayState::Recording);
    let mut sender = ColumnCommandSender::new();
    let result = slot.record_clip(MidiClipRecordMode::Overdub, midi_input(), &mut sender);
    assert_eq!(result, Err(SlotError::RecordingAlreadyAccordingToPlayState));
}

#[test]
fn midi_clip_with_overdub_mode_is_overdubbed() {
    let mut slot = Slot::new(1);
    slot.fill_with_clip(clip("a.mid", true), info(true, 10), None, FillClipMode::Replace);
    let mut sender = ColumnCommandSender::new();
    let task = slot.record_clip(MidiClipRecordMode::Overdub, midi_input(), &mut sender).unwrap();
    assert!(task.is_midi_overdub);
    assert_eq!(slot.play_state(), Ok(ClipPlayState::ScheduledForRecordingStart));
    let commands = sender.take_commands();
    match &commands[0] {
        ColumnCommand::RecordClip {
            slot_index: 1,
            instruction:
                SlotRecordInstruction::MidiOverdub(MidiOverdubInstruction {
                    mode: MidiClipRecordMode::Overdub,
                    needs_in_project_source: true,
                }),
        } => {}
        other => panic!("unexpected command {:?}", other),
    }
    let mut removed = Vec::new();
    assert_eq!(slot.notify_recording_request_acknowledged(Ok(None), &mut removed), Ok(()));
    assert!(!slot.is_recording());
    let mirror = ClipSource::MidiChunk { chunk: "mirror".to_string() };
    assert_eq!(
        slot.notify_midi_overdub_finished(mirror, &mut removed),
        Ok(SlotChangeEvent::MidiOverdubFinished)
    );
    assert!(matches!(slot.get_clip(0).unwrap().source, ClipSource::MidiChunk { .. }));
}

#[test]
fn audio_input_records_from_scratch_despite_overdub_mode() {
    let mut slot = Slot::new(0);
    slot.fill_with_clip(clip("a.mid", true), info(true, 10), None, FillClipMode::Replace);
    let mut sender = ColumnCommandSender::new();
    let task = slot.record_clip(MidiClipRecordMode::Replace, audio_input(None), &mut sender).unwrap();
    assert!(!task.is_midi_overdub);
    let commands = sender.take_commands();
    assert!(matches!(
        commands[0],
        ColumnCommand::RecordClip { instruction: SlotRecordInstruction::ExistingClip { .. }, .. }
    ));
}

#[test]
fn negative_acknowledgement_rolls_back_and_removes_route() {
    for overdub in [false, true] {
        let mut slot = Slot::new(0);
        let mut sender = ColumnCommandSender::new();
        let route = TrackRoute { id: 7 };
        if overdub {
            slot.fill_with_clip(clip("a.mid", true), info(true, 10), None, FillClipMode::Replace);
            let mut input = midi_input();
            input.temporary_route = Some(route);
            slot.record_clip(MidiClipRecordMode::Overdub, input, &mut sender).unwrap();
        } else {
            slot.record_clip(MidiClipRecordMode::Normal, audio_input(Some(route)), &mut sender)
                .unwrap();
        }
        let instruction = SlotRecordInstruction::ExistingClip {
            equipment: RecordingEquipment { is_midi: false, channel_count: 2 },
        };
        let mut removed = Vec::new();
        assert_eq!(slot.notify_recording_request_acknowledged(Err(instruction), &mut removed), Ok(()));
        assert_eq!(removed, vec![route]);
        assert!(!slot.is_recording());
        assert_eq!(slot.is_empty(), !overdub);
    }
}

#[test]
fn acknowledgement_without_request_is_refused() {
    let mut slot = Slot::new(0);
    let mut removed = Vec::new();
    let result = slot.notify_recording_request_acknowledged(Ok(None), &mut removed);
    assert_eq!(result, Err(SlotError::RecordingWasNotRequested));
}

#[test]
fn committed_recording_becomes_only_clip() {
    let mut slot = Slot::new(0);
    let mut sender = ColumnCommandSender::new();
    let route = TrackRoute { id: 2 };
    slot.record_clip(MidiClipRecordMode::Normal, audio_input(Some(route)), &mut sender).unwrap();
    let mut removed = Vec::new();
    let committed = CommittedRecording { clip: clip("rec.wav", false), material_info: info(false, 4800) };
    assert_eq!(
        slot.notify_normal_recording_finished(
            NormalRecordingOutcome::Committed(CommittedRecording {
                clip: clip("early.wav", false),
                material_info: info(false, 1),
            }),
            &mut removed
        ),
        Err(SlotError::RecordingNotYetAcknowledged)
    );
    assert!(slot.is_recording());
    assert_eq!(
        slot.notify_recording_request_acknowledged(
            Ok(Some(runtime_data(ClipPlayState::Recording))),
            &mut removed
        ),
        Ok(())
    );
    assert_eq!(slot.play_state(), Ok(ClipPlayState::Recording));
    match slot.relevant_contents() {
        RelevantContent::Recording(data) => assert_eq!(data.play_state, ClipPlayState::Recording),
        RelevantContent::Normal(_) => panic!("expected the recording"),
    }
    let result =
        slot.notify_normal_recording_finished(NormalRecordingOutcome::Committed(committed), &mut removed);
    assert_eq!(result, Ok(SlotChangeEvent::ClipRecordingFinished));
    assert_eq!(removed, vec![route]);
    assert_eq!(slot.clip_count(), 1);
    assert!(!slot.is_recording());
    assert_eq!(slot.looped(), Ok(false));
    assert_eq!(slot.play_state(), Ok(ClipPlayState::Recording));
    match slot.relevant_contents() {
        RelevantContent::Normal(contents) => {
            assert_eq!(contents[0].runtime_data.material_info.frame_count, 4800)
        }
        RelevantContent::Recording(_) => panic!("expected the contents"),
    }
}

#[test]
fn canceled_recording_keeps_contents() {
    let mut slot = Slot::new(0);
    slot.fill_with_clip(clip("a.wav", true), info(false, 10), None, FillClipMode::Replace);
    let mut sender = ColumnCommandSender::new();
    slot.record_clip(MidiClipRecordMode::Normal, audio_input(None), &mut sender).unwrap();
    let mut removed = Vec::new();
    let result = slot.notify_normal_recording_finished(NormalRecordingOutcome::Canceled, &mut removed);
    assert_eq!(result, Ok(SlotChangeEvent::RecordingCanceled));
    assert!(!slot.is_recording());
    assert_eq!(slot.clip_count(), 1);
    assert!(removed.is_empty());
}

#[test]
fn finishing_without_recording_is_refused() {
    let mut slot = Slot::new(0);
    let mut removed = Vec::new();
    let outcome = NormalRecordingOutcome::Committed(CommittedRecording {
        clip: clip("x.wav", false),
        material_info: info(false, 1),
    });
    assert_eq!(
        slot.notify_normal_recording_finished(outcome, &mut removed),
        Err(SlotError::SlotWasNotRecording)
    );
    assert!(slot.is_empty());
}

#[test]
fn volume_fans_out_to_every_clip() {
    let mut slot = Slot::new(4);
    let mut sender = ColumnCommandSender::new();
    assert_eq!(slot.set_volume(Db { centibels: -600 }, &mut sender), Err(SlotError::SlotNotFilled));
    slot.fill_with_clip(clip("a.wav", true), info(false, 10), None, FillClipMode::Add);
    slot.fill_with_clip(clip("b.wav", true), info(false, 10), None, FillClipMode::Add);
    let volume = Db { centibels: -600 };
    assert_eq!(slot.set_volume(volume, &mut sender), Ok(ClipChangeEvent::Volume(volume)));
    assert_eq!(slot.volume(), Ok(volume));
    assert_eq!(slot.get_clip(1).unwrap().volume, volume);
    let commands = sender.take_commands();
    assert_eq!(commands.len(), 2);
    assert!(matches!(
        commands[1],
        ColumnCommand::SetClipVolume { slot_index: 4, clip_index: 1, volume: Db { centibels: -600 } }
    ));
}

#[test]
fn toggle_looped_follows_first_clip() {
    let mut slot = Slot::new(0);
    let mut sender = ColumnCommandSender::new();
    assert_eq!(slot.toggle_looped(&mut sender), Err(SlotError::ClipDoesntExist));
    slot.fill_with_clip(clip("a.wav", true), info(false, 10), None, FillClipMode::Add);
    slot.fill_with_clip(clip("b.wav", false), info(false, 10), None, FillClipMode::Add);
    assert_eq!(slot.toggle_looped(&mut sender), Ok(ClipChangeEvent::Looped(false)));
    assert_eq!(slot.get_clip(0).unwrap().looped, false);
    assert_eq!(slot.get_clip(1).unwrap().looped, false);
    assert_eq!(sender.take_commands().len(), 2);
}

#[test]
fn section_length_is_scaled() {
    let mut slot = Slot::new(0);
    let mut sender = ColumnCommandSender::new();
    assert_eq!(slot.adjust_section_length(1, 2, &mut sender), Err(SlotError::SlotNotFilled));
    slot.fill_with_clip(clip("a.wav", true), info(false, 1000), None, FillClipMode::Add);
    let mut second = clip("b.wav", true);
    second.section = ClipSection { start_frame: 5, length: Some(300) };
    slot.fill_with_clip(second, info(false, 1000), None, FillClipMode::Add);
    assert_eq!(slot.adjust_section_length(3, 2, &mut sender), Ok(()));
    assert_eq!(slot.get_clip(0).unwrap().section, ClipSection { start_frame: 0, length: Some(1500) });
    assert_eq!(slot.get_clip(1).unwrap().section, ClipSection { start_frame: 5, length: Some(450) });
    let commands = sender.take_commands();
    assert!(matches!(
        commands[1],
        ColumnCommand::SetClipSection {
            slot_index: 0,
            clip_index: 1,
            section: ClipSection { start_frame: 5, length: Some(450) }
        }
    ));
}

#[test]
fn clip_access_and_material_updates() {
    let mut slot = Slot::new(0);
    assert!(slot.get_clip(0).is_err());
    slot.fill_with_clip(clip("a.wav", true), info(false, 10), None, FillClipMode::Add);
    slot.get_clip_mut(0).unwrap().looped = false;
    assert_eq!(slot.looped(), Ok(false));
    assert!(slot.get_clip_mut(1).is_err());
    assert_eq!(slot.update_material_info(0, info(true, 20)), Ok(()));
    assert_eq!(slot.update_material_info(3, info(true, 20)), Err(SlotError::ClipDoesntExist));
    assert!(slot.is_freezeable());
    slot.update_play_state(ClipPlayState::Playing);
    assert_eq!(slot.play_state(), Ok(ClipPlayState::Playing));
}

#[test]
fn freezable_content_is_midi() {
    let content = Content {
        clip: clip("a.mid", true),
        runtime_data: SlotRuntimeData { play_state: ClipPlayState::Stopped, material_info: info(true, 1) },
        pooled_midi_source: None,
    };
    assert!(content.is_freezable());
    let mut slot = Slot::new(0);
    slot.fill_with_clip(clip("a.wav", true), info(false, 10), None, FillClipMode::Add);
    assert!(!slot.is_freezeable());
}

#[test]
fn clearing_removes_clips_once() {
    let mut slot = Slot::new(0);
    assert_eq!(slot.slot_cleared(), None);
    slot.fill_with_clip(clip("a.wav", true), info(false, 10), None, FillClipMode::Add);
    assert_eq!(slot.slot_cleared(), Some(SlotChangeEvent::ClipRemoved));
    assert!(slot.is_empty());
    assert_eq!(slot.slot_cleared(), None);
}

#[test]
fn slot_state_recording_flags() {
    assert!(!SlotState::Normal.is_pretty_much_recording());
    assert!(SlotState::RequestedOverdubbing.is_pretty_much_recording());
    assert!(ClipPlayState::ScheduledForRecordingStop.is_somehow_recording());
    assert!(!ClipPlayState::Paused.is_somehow_recording());
}

#[test]
fn empty_slot_is_not_saved() {
    let slot = Slot::new(2);
    assert!(slot.save().is_none());
}

#[test]
fn saved_slot_lists_clips_in_order_with_pooled_midi() {
    let mut slot = Slot::new(2);
    slot.fill_with_clip(clip("a.wav", true), info(false, 10), None, FillClipMode::Add);
    let pooled = ClipSource::MidiChunk { chunk: "notes".to_string() };
    slot.fill_with_clip(clip("b.mid", false), info(true, 10), Some(pooled), FillClipMode::Add);
    let SlotDescriptor { row, clips } = slot.save().unwrap();
    assert_eq!(row, 2);
    assert_eq!(clips.len(), 2);
    assert!(matches!(&clips[0].source, ClipSource::File { path } if path == "a.wav"));
    assert!(matches!(&clips[1].source, ClipSource::MidiChunk { chunk } if chunk == "notes"));
    assert!(!clips[1].looped);
}

#[test]
fn saving_while_recording_keeps_last_stable_source() {
    let mut slot = Slot::new(0);
    let pooled = ClipSource::MidiChunk { chunk: "notes".to_string() };
    slot.fill_with_clip(clip("b.mid", true), info(true, 10), Some(pooled), FillClipMode::Replace);
    let mut sender = ColumnCommandSender::new();
    slot.record_clip(MidiClipRecordMode::Overdub, midi_input(), &mut sender).unwrap();
    let saved = slot.save().unwrap();
    assert!(matches!(&saved.clips[0].source, ClipSource::File { path } if path == "b.mid"));
}
