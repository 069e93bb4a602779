use vstd::prelude::*;
use crate::chain::SupplierChain;
use crate::recorder::Recorder;

verus! {

/// Why a slot operation was refused.
#[derive(Clone, Copy, Debug, PartialEq, Eq, Structural)]
pub enum SlotError {
    RecordingAlready,
    RecordingAlreadyAccordingToPlayState,
    MultipleClipsCannotRecord,
    SlotNotFilled,
    ClipDoesntExist,
    RecordingWasNotRequested,
    SlotWasNotRecording,
    RequestedOverdubbing,
    RecordingNotYetAcknowledged,
    TrackHasNoRecordingInput,
    UnsupportedTrackRecordingInput,
    TrackAudioOutputNeedsContainingTrack,
}

impl SlotError {
    pub fn message(&self) -> (r: &'static str) {
        match self {
            SlotError::RecordingAlready => "recording already",
            SlotError::RecordingAlreadyAccordingToPlayState => "recording already according to play state",
            SlotError::MultipleClipsCannotRecord => "recording on slots with multiple clips is not supported",
            SlotError::SlotNotFilled => "slot not filled",
            SlotError::ClipDoesntExist => "clip doesn't exist",
            SlotError::RecordingWasNotRequested => "recording was not requested",
            SlotError::SlotWasNotRecording => "slot was not recording",
            SlotError::RequestedOverdubbing => "requested overdubbing",
            SlotError::RecordingNotYetAcknowledged => "clip recording was not yet acknowledged",
            SlotError::TrackHasNoRecordingInput => "track doesn't have any recording input",
            SlotError::UnsupportedTrackRecordingInput => "track recording input is not supported",
            SlotError::TrackAudioOutputNeedsContainingTrack => "can't record track audio output when running in the monitoring FX chain",
        }
    }
}

#[derive(Clone, Copy, Debug, PartialEq, Eq, Structural)]
pub enum ClipPlayState {
    Stopped,
    ScheduledForPlayStart,
    Playing,
    Paused,
    ScheduledForPlayStop,
    ScheduledForRecordingStart,
    Recording,
    ScheduledForRecordingStop,
}

impl ClipPlayState {
    pub open spec fn spec_is_somehow_recording(self) -> bool {
        match self {
            ClipPlayState::ScheduledForRecordingStart | ClipPlayState::Recording
            | ClipPlayState::ScheduledForRecordingStop => true,
            _ => false,
        }
    }

    pub fn is_somehow_recording(&self) -> (r: bool)
        ensures
            r == self.spec_is_somehow_recording(),
    {
        match self {
            ClipPlayState::ScheduledForRecordingStart | ClipPlayState::Recording
            | ClipPlayState::ScheduledForRecordingStop => true,
            _ => false,
        }
    }
}

/// What is known of the material of a clip; the frame count takes the section into account.
#[derive(Clone, Copy, Debug, PartialEq, Eq, Structural)]
pub struct MaterialInfo {
    pub is_midi: bool,
    pub frame_count: usize,
    pub frame_rate: u32,
}

/// The live state of a clip (or of a recording) as the control side knows it.
#[derive(Clone, Copy, Debug, PartialEq, Eq, Structural)]
pub struct SlotRuntimeData {
    pub play_state: ClipPlayState,
    pub material_info: MaterialInfo,
}

/// Where the material of a clip comes from.
#[derive(Clone, Debug)]
pub enum ClipSource {
    File { path: String },
    MidiChunk { chunk: String },
}

/// The part of the source that a clip uses, in frames.
#[derive(Clone, Copy, Debug, PartialEq, Eq, Structural)]
pub struct ClipSection {
    pub start_frame: usize,
    pub length: Option<usize>,
}

/// A volume in hundredths of a decibel.
#[derive(Clone, Copy, Debug, PartialEq, Eq, Structural)]
pub struct Db {
    pub centibels: i32,
}

#[derive(Clone, Copy, Debug, PartialEq, Eq, Structural)]
pub enum ClipTimeBase {
    Time,
    Beat { downbeat_frame: usize },
}

/// The persistable description of a clip.
#[derive(Clone, Debug)]
pub struct Clip {
    pub source: ClipSource,
    pub section: ClipSection,
    pub volume: Db,
    pub looped: bool,
    pub time_base: ClipTimeBase,
}

/// A clip together with its live state.
#[derive(Clone, Debug)]
pub struct Content {
    pub clip: Clip,
    pub runtime_data: SlotRuntimeData,
    /// A copy of the real-time MIDI source, for in-project MIDI only.
    pub pooled_midi_source: Option<ClipSource>,
}

impl Content {
    /// Only MIDI is frozen to audio.
    pub fn is_freezable(&self) -> (r: bool)
        ensures
            r == self.runtime_data.material_info.is_midi,
    {
        self.runtime_data.material_info.is_midi
    }
}

/// A send that was created for the duration of a recording.
#[derive(Clone, Copy, Debug, PartialEq, Eq, Structural)]
pub struct TrackRoute {
    pub id: u32,
}

#[derive(Clone, Copy, Debug, PartialEq, Eq, Structural)]
pub enum MidiClipRecordMode {
    Normal,
    Overdub,
    Replace,
}

/// The input that a recording captures, as resolved by the host.
#[derive(Clone, Copy, Debug, PartialEq, Eq, Structural)]
pub struct RecordingEquipment {
    pub is_midi: bool,
    pub channel_count: usize,
}

/// What the host has prepared for a recording.
#[derive(Debug)]
pub struct ResolvedRecordInput {
    pub equipment: RecordingEquipment,
    /// A send that feeds the recording, to be removed when the recording is over.
    pub temporary_route: Option<TrackRoute>,
    /// For MIDI: a pooled copy of the source that will be recorded into.
    pub pooled_midi_source: Option<ClipSource>,
}

#[derive(Debug)]
pub struct MidiOverdubInstruction {
    pub mode: MidiClipRecordMode,
    /// Whether the clip's file-based MIDI has to be replaced by in-project MIDI first.
    pub needs_in_project_source: bool,
}

#[derive(Debug)]
pub enum SlotRecordInstruction {
    /// Records into an empty slot: the chain is built here, with the recorder only; positions
    /// are resolved on the real-time side.
    NewClip { supplier_chain: SupplierChain },
    /// Records anew into the chain of the existing clip.
    ExistingClip { equipment: RecordingEquipment },
    MidiOverdub(MidiOverdubInstruction),
}

#[derive(Clone, Copy, Debug, PartialEq, Eq, Structural)]
pub struct ColumnSetClipLoopedArgs {
    pub slot_index: usize,
    pub clip_index: usize,
    pub looped: bool,
}

/// A command for the real-time side of a column.
#[derive(Debug)]
pub enum ColumnCommand {
    RecordClip { slot_index: usize, instruction: SlotRecordInstruction },
    SetClipVolume { slot_index: usize, clip_index: usize, volume: Db },
    SetClipLooped(ColumnSetClipLoopedArgs),
    SetClipSection { slot_index: usize, clip_index: usize, section: ClipSection },
}

/// Collects the commands for the real-time side, in the order in which they are to be sent.
#[derive(Debug)]
pub struct ColumnCommandSender {
    commands: Vec<ColumnCommand>,
}

impl ColumnCommandSender {
    pub closed spec fn sent(&self) -> Seq<ColumnCommand> {
        self.commands@
    }

    pub fn new() -> (r: ColumnCommandSender)
        ensures
            r.sent() == Seq::<ColumnCommand>::empty(),
    {
        ColumnCommandSender { commands: Vec::new() }
    }

    fn send(&mut self, command: ColumnCommand)
        ensures
            final(self).sent() == old(self).sent().push(command),
    {
        self.commands.push(command);
    }

    pub fn record_clip(&mut self, slot_index: usize, instruction: SlotRecordInstruction)
        ensures
            final(self).sent() == old(self).sent().push(
                ColumnCommand::RecordClip { slot_index, instruction },
            ),
    {
        self.send(ColumnCommand::RecordClip { slot_index, instruction });
    }

    pub fn set_clip_volume(&mut self, slot_index: usize, clip_index: usize, volume: Db)
        ensures
            final(self).sent() == old(self).sent().push(
                ColumnCommand::SetClipVolume { slot_index, clip_index, volume },
            ),
    {
        self.send(ColumnCommand::SetClipVolume { slot_index, clip_index, volume });
    }

    pub fn set_clip_looped(&mut self, args: ColumnSetClipLoopedArgs)
        ensures
            final(self).sent() == old(self).sent().push(ColumnCommand::SetClipLooped(args)),
    {
        self.send(ColumnCommand::SetClipLooped(args));
    }

    pub fn set_clip_section(&mut self, slot_index: usize, clip_index: usize, section: ClipSection)
        ensures
            final(self).sent() == old(self).sent().push(
                ColumnCommand::SetClipSection { slot_index, clip_index, section },
            ),
    {
        self.send(ColumnCommand::SetClipSection { slot_index, clip_index, section });
    }

    /// Hands out the collected commands, oldest first, and starts afresh.
    pub fn take_commands(&mut self) -> (r: Vec<ColumnCommand>)
        ensures
            r@ == old(self).sent(),
            final(self).sent() == Seq::<ColumnCommand>::empty(),
    {
        let mut commands = Vec::new();
        std::mem::swap(&mut commands, &mut self.commands);
        commands
    }
}

#[derive(Debug)]
pub struct RequestedRecordingState {
    pub pooled_midi_source: Option<ClipSource>,
}

#[derive(Debug)]
pub struct RecordingState {
    /// Set for MIDI recordings.
    pub pooled_midi_source: Option<ClipSource>,
    pub runtime_data: SlotRuntimeData,
}

/// The recording lifecycle of a slot.
#[derive(Debug)]
pub enum SlotState {
    /// Either empty or filled; possibly overdubbing (see the play state of the content).
    Normal,
    /// An overdub was requested and is not acknowledged yet.
    RequestedOverdubbing,
    /// A recording was requested and is not acknowledged yet.
    RequestedRecording(RequestedRecordingState),
    /// Recording (not overdubbing).
    Recording(RecordingState),
}

impl SlotState {
    pub open spec fn spec_is_pretty_much_recording(&self) -> bool {
        !(*self is Normal)
    }

    pub fn is_pretty_much_recording(&self) -> (r: bool)
        ensures
            r == self.spec_is_pretty_much_recording(),
    {
        !matches!(self, SlotState::Normal)
    }
}

impl Default for SlotState {
    fn default() -> (r: SlotState)
        ensures
            r is Normal,
    {
        SlotState::Normal
    }
}

/// The result of a finished normal recording.
#[derive(Debug)]
pub enum NormalRecordingOutcome {
    Committed(CommittedRecording),
    Canceled,
}

/// A committed recording: the clip that describes it and what is known of its material.
#[derive(Debug)]
pub struct CommittedRecording {
    pub clip: Clip,
    pub material_info: MaterialInfo,
}

#[derive(Clone, Copy, Debug, PartialEq, Eq, Structural)]
pub enum ClipChangeEvent {
    Volume(Db),
    Looped(bool),
}

#[derive(Clone, Copy, Debug, PartialEq, Eq, Structural)]
pub enum SlotChangeEvent {
    ClipRecordingFinished,
    RecordingCanceled,
    MidiOverdubFinished,
    ClipRemoved,
}

#[derive(Clone, Copy, Debug, PartialEq, Eq, Structural)]
pub enum FillClipMode {
    Add,
    Replace,
}

/// What the host has to capture for a recording that was initiated.
#[derive(Clone, Copy, Debug, PartialEq, Eq, Structural)]
pub struct ClipRecordTask {
    pub slot_index: usize,
    pub is_midi: bool,
    pub is_midi_overdub: bool,
}

/// Returns the contents, failing if there are none.
pub fn get_contents_mut(contents: &mut Vec<Content>) -> (r: Result<&mut Vec<Content>, SlotError>)
    ensures
        old(contents)@.len() == 0 <==> r is Err,
        r is Err ==> r == Err::<&mut Vec<Content>, SlotError>(SlotError::SlotNotFilled)
            && final(contents)@ == old(contents)@,
        r matches Ok(c) ==> *c == *old(contents) && *final(c) == *final(contents),
{
    if contents.len() == 0 {
        return Err(SlotError::SlotNotFilled);
    }
    Ok(contents)
}

/// Returns the content at the given clip index.
pub fn get_content_mut(contents: &mut Vec<Content>, clip_index: usize) -> (r: Result<
    &mut Content,
    SlotError,
>)
    ensures
        clip_index >= old(contents)@.len() <==> r is Err,
        r is Err ==> r == Err::<&mut Content, SlotError>(SlotError::ClipDoesntExist)
            && final(contents)@ == old(contents)@,
        r matches Ok(c) ==> *c == old(contents)@[clip_index as int] && final(contents)@
            == old(contents)@.update(clip_index as int, *final(c)),
{
    if clip_index >= contents.len() {
        return Err(SlotError::ClipDoesntExist);
    }
    Ok(&mut contents[clip_index])
}

/// What is currently relevant about a slot: the runtime data of a recording, or the contents.
#[derive(Debug)]
pub enum RelevantContent<'a> {
    /// One content per clip.
    Normal(&'a Vec<Content>),
    /// The runtime data of the recording.
    Recording(&'a SlotRuntimeData),
}

/// The section length of a content scaled by `num / den`, in frames. Without an explicit
/// length, the section extends over the whole material. The result saturates at `usize::MAX`.
pub open spec fn scaled_section_length(content: Content, num: u32, den: u32) -> usize {
    let current = match content.clip.section.length {
        Some(l) => l as int,
        None => content.runtime_data.material_info.frame_count as int,
    };
    let scaled = current * num / (den as int);
    if scaled > usize::MAX {
        usize::MAX
    } else {
        scaled as usize
    }
}

/// The persistable description of a slot: its row and its clips in order.
#[derive(Debug)]
pub struct SlotDescriptor {
    pub row: usize,
    pub clips: Vec<Clip>,
}

/// The clip that is saved for a content. While anything records, the pooled MIDI source is
/// being changed, so the last stable source of the clip is saved; otherwise the pooled MIDI
/// source, where there is one, holds the current material.
pub open spec fn saved_clip(content: Content, slot_is_recording: bool) -> Clip {
    let recording = slot_is_recording || content.runtime_data.play_state.spec_is_somehow_recording();
    match content.pooled_midi_source {
        Some(pooled) if !recording => Clip { source: pooled, ..content.clip },
        _ => content.clip,
    }
}

fn copy_source(source: &ClipSource) -> (r: ClipSource)
    ensures
        r == *source,
{
    match source {
        ClipSource::File { path } => ClipSource::File { path: path.clone() },
        ClipSource::MidiChunk { chunk } => ClipSource::MidiChunk { chunk: chunk.clone() },
    }
}

fn save_clip(content: &Content, slot_is_recording: bool) -> (r: Clip)
    ensures
        r == saved_clip(*content, slot_is_recording),
{
    let recording = slot_is_recording || content.runtime_data.play_state.is_somehow_recording();
    let source = match &content.pooled_midi_source {
        Some(pooled) if !recording => copy_source(pooled),
        _ => copy_source(&content.clip.source),
    };
    Clip {
        source,
        section: content.clip.section,
        volume: content.clip.volume,
        looped: content.clip.looped,
        time_base: content.clip.time_base,
    }
}

/// A slot of a column: zero or more clips plus the recording lifecycle.
#[derive(Debug)]
pub struct Slot {
    index: usize,
    contents: Vec<Content>,
    state: SlotState,
    temporary_route: Option<TrackRoute>,
}

impl Slot {
    pub closed spec fn spec_index(&self) -> usize {
        self.index
    }

    pub closed spec fn spec_contents(&self) -> Seq<Content> {
        self.contents@
    }

    pub closed spec fn spec_state(&self) -> SlotState {
        self.state
    }

    pub closed spec fn spec_temporary_route(&self) -> Option<TrackRoute> {
        self.temporary_route
    }

    pub open spec fn spec_is_empty(&self) -> bool {
        self.spec_contents().len() == 0 && !self.spec_state().spec_is_pretty_much_recording()
    }

    /// The first precondition of recording that fails, if any.
    pub open spec fn record_precondition_error(&self) -> Option<SlotError> {
        if self.spec_state().spec_is_pretty_much_recording() {
            Some(SlotError::RecordingAlready)
        } else if self.spec_contents().len() > 1 {
            Some(SlotError::MultipleClipsCannotRecord)
        } else if self.spec_contents().len() == 1
            && self.spec_contents()[0].runtime_data.play_state.spec_is_somehow_recording() {
            Some(SlotError::RecordingAlreadyAccordingToPlayState)
        } else {
            None
        }
    }

    /// Whether a recording in the given mode with the given equipment overdubs the existing
    /// MIDI clip instead of recording from scratch.
    pub open spec fn spec_wants_midi_overdub(
        &self,
        mode: MidiClipRecordMode,
        equipment: RecordingEquipment,
    ) -> bool {
        &&& self.spec_contents().len() == 1
        &&& !(mode is Normal)
        &&& self.spec_contents()[0].runtime_data.material_info.is_midi
        &&& equipment.is_midi
    }

    pub fn new(index: usize) -> (r: Slot)
        ensures
            r.spec_index() == index,
            r.spec_contents() == Seq::<Content>::empty(),
            r.spec_state() is Normal,
            r.spec_temporary_route() is None,
    {
        Slot { index, contents: Vec::new(), state: SlotState::default(), temporary_route: None }
    }

    pub fn is_empty(&self) -> (r: bool)
        ensures
            r == self.spec_is_empty(),
    {
        self.contents.len() == 0 && !self.state.is_pretty_much_recording()
    }

    pub fn index(&self) -> (r: usize)
        ensures
            r == self.spec_index(),
    {
        self.index
    }

    /// The description to persist, or `None` where the slot holds no clip and need not be saved.
    pub fn save(&self) -> (r: Option<SlotDescriptor>)
        ensures
            self.spec_contents().len() == 0 <==> r is None,
            r matches Some(d) ==> {
                &&& d.row == self.spec_index()
                &&& d.clips@ == Seq::new(
                    self.spec_contents().len(),
                    |i: int|
                        saved_clip(
                            self.spec_contents()[i],
                            self.spec_state().spec_is_pretty_much_recording(),
                        ),
                )
            },
    {
        let slot_is_recording = self.state.is_pretty_much_recording();
        let mut clips: Vec<Clip> = Vec::new();
        let mut i: usize = 0;
        while i < self.contents.len()
            invariant
                i <= self.contents@.len(),
                slot_is_recording == self.state.spec_is_pretty_much_recording(),
                clips@ == Seq::new(
                    i as nat,
                    |k: int| saved_clip(self.contents@[k], slot_is_recording),
                ),
            decreases self.contents@.len() - i,
        {
            let clip = save_clip(&self.contents[i], slot_is_recording);
            clips.push(clip);
            i = i + 1;
            assert(clips@ =~= Seq::new(
                i as nat,
                |k: int| saved_clip(self.contents@[k], slot_is_recording),
            ));
        }
        if clips.len() == 0 {
            return None;
        }
        Some(SlotDescriptor { row: self.index, clips })
    }

    pub fn is_recording(&self) -> (r: bool)
        ensures
            r == self.spec_state().spec_is_pretty_much_recording(),
    {
        self.state.is_pretty_much_recording()
    }

    pub fn clip_count(&self) -> (r: usize)
        ensures
            r == self.spec_contents().len(),
    {
        self.contents.len()
    }

    /// Checks what has to hold before a recording can be initiated, without changing anything.
    pub fn check_record_preconditions(&self) -> (r: Result<(), SlotError>)
        ensures
            r == (match self.record_precondition_error() {
                Some(e) => Err(e),
                None => Ok(()),
            }),
    {
        if self.state.is_pretty_much_recording() {
            return Err(SlotError::RecordingAlready);
        }
        if self.contents.len() > 1 {
            return Err(SlotError::MultipleClipsCannotRecord);
        }
        if self.contents.len() == 1 && self.contents[0].runtime_data.play_state.is_somehow_recording() {
            return Err(SlotError::RecordingAlreadyAccordingToPlayState);
        }
        Ok(())
    }

    /// Initiates a recording: from scratch, or as a MIDI overdub of the existing MIDI clip where
    /// the mode asks for it and the input is MIDI. The instruction goes to the real-time side,
    /// and the slot waits for its acknowledgement.
    pub fn record_clip(
        &mut self,
        mode: MidiClipRecordMode,
        input: ResolvedRecordInput,
        column_command_sender: &mut ColumnCommandSender,
    ) -> (r: Result<ClipRecordTask, SlotError>)
        ensures
            match old(self).record_precondition_error() {
                Some(e) => {
                    &&& r == Err::<ClipRecordTask, SlotError>(e)
                    &&& *final(self) == *old(self)
                    &&& final(column_command_sender).sent() == old(column_command_sender).sent()
                },
                None => {
                    let overdub = old(self).spec_wants_midi_overdub(mode, input.equipment);
                    &&& r == Ok::<ClipRecordTask, SlotError>(
                        ClipRecordTask {
                            slot_index: old(self).spec_index(),
                            is_midi: input.equipment.is_midi,
                            is_midi_overdub: overdub,
                        },
                    )
                    &&& final(self).spec_index() == old(self).spec_index()
                    &&& final(self).spec_contents() == old(self).spec_contents()
                    &&& final(self).spec_temporary_route() == input.temporary_route
                    &&& final(column_command_sender).sent().len() == old(
                        column_command_sender,
                    ).sent().len() + 1
                    &&& final(column_command_sender).sent().drop_last() == old(
                        column_command_sender,
                    ).sent()
                    &&& final(column_command_sender).sent().last() matches ColumnCommand::RecordClip {
                        slot_index,
                        instruction,
                    } && slot_index == old(self).spec_index() && if overdub {
                        &&& final(self).spec_state() is RequestedOverdubbing
                        &&& instruction matches SlotRecordInstruction::MidiOverdub(i) && i.mode
                            == mode && i.needs_in_project_source == (
                        old(self).spec_contents()[0].clip.source is File)
                    } else {
                        &&& final(self).spec_state() == SlotState::RequestedRecording(
                            RequestedRecordingState { pooled_midi_source: input.pooled_midi_source },
                        )
                        &&& if old(self).spec_contents().len() == 0 {
                            instruction matches SlotRecordInstruction::NewClip { supplier_chain }
                                && supplier_chain.spec_recorder().is_fresh_recording(
                                input.equipment.is_midi,
                                input.equipment.channel_count,
                            )
                        } else {
                            instruction == SlotRecordInstruction::ExistingClip {
                                equipment: input.equipment,
                            }
                        }
                    }
                },
            },
    {
        match self.check_record_preconditions() {
            Err(e) => return Err(e),
            Ok(()) => {},
        }
        let has_content = self.contents.len() == 1;
        let overdub = has_content && !matches!(mode, MidiClipRecordMode::Normal)
            && self.contents[0].runtime_data.material_info.is_midi && input.equipment.is_midi;
        let task = ClipRecordTask {
            slot_index: self.index,
            is_midi: input.equipment.is_midi,
            is_midi_overdub: overdub,
        };
        let (next_state, instruction) = if overdub {
            let needs_in_project_source = matches!(self.contents[0].clip.source, ClipSource::File { .. });
            (
                SlotState::RequestedOverdubbing,
                SlotRecordInstruction::MidiOverdub(
                    MidiOverdubInstruction { mode, needs_in_project_source },
                ),
            )
        } else {
            let instruction = if has_content {
                // The existing clip brings its complete supplier chain, which is reused.
                SlotRecordInstruction::ExistingClip { equipment: input.equipment }
            } else {
                // The chain is built here because the real-time side must not allocate. It holds
                // the recorder only: the block length and timeline frame rate that resolve the
                // recording position are known on the real-time side alone.
                let recorder = Recorder::recording(
                    input.equipment.is_midi,
                    input.equipment.channel_count,
                );
                SlotRecordInstruction::NewClip { supplier_chain: SupplierChain::new(recorder) }
            };
            (
                SlotState::RequestedRecording(
                    RequestedRecordingState { pooled_midi_source: input.pooled_midi_source },
                ),
                instruction,
            )
        };
        // Nothing can fail from here on.
        self.state = next_state;
        column_command_sender.record_clip(self.index, instruction);
        self.temporary_route = input.temporary_route;
        Ok(task)
    }

    fn remove_temporary_route(&mut self, removed_routes: &mut Vec<TrackRoute>)
        ensures
            final(self).spec_index() == old(self).spec_index(),
            final(self).spec_contents() == old(self).spec_contents(),
            final(self).spec_state() == old(self).spec_state(),
            final(self).spec_temporary_route() is None,
            final(removed_routes)@ == match old(self).spec_temporary_route() {
                Some(route) => old(removed_routes)@.push(route),
                None => old(removed_routes)@,
            },
    {
        if let Some(route) = self.temporary_route {
            removed_routes.push(route);
        }
        self.temporary_route = None;
    }

    /// Processes the real-time side's answer to a recording request. A negative answer rolls
    /// back to `Normal` from whatever state, handing out the temporary route for removal.
    pub fn notify_recording_request_acknowledged(
        &mut self,
        result: Result<Option<SlotRuntimeData>, SlotRecordInstruction>,
        removed_routes: &mut Vec<TrackRoute>,
    ) -> (r: Result<(), SlotError>)
        requires
            old(self).spec_state() is RequestedRecording && result is Ok ==> result->Ok_0 is Some,
        ensures
            final(self).spec_index() == old(self).spec_index(),
            final(self).spec_contents() == old(self).spec_contents(),
            match result {
                Err(_) => {
                    &&& r is Ok
                    &&& final(self).spec_state() is Normal
                    &&& final(self).spec_temporary_route() is None
                    &&& final(removed_routes)@ == match old(self).spec_temporary_route() {
                        Some(route) => old(removed_routes)@.push(route),
                        None => old(removed_routes)@,
                    }
                },
                Ok(runtime_data) => {
                    &&& final(removed_routes)@ == old(removed_routes)@
                    &&& final(self).spec_temporary_route() == old(self).spec_temporary_route()
                    &&& match old(self).spec_state() {
                        SlotState::Normal => r == Err::<(), SlotError>(
                            SlotError::RecordingWasNotRequested,
                        ) && final(self).spec_state() is Normal,
                        SlotState::RequestedOverdubbing => r is Ok && final(self).spec_state() is Normal,
                        SlotState::RequestedRecording(s) => r is Ok && final(self).spec_state()
                            == SlotState::Recording(
                            RecordingState {
                                pooled_midi_source: s.pooled_midi_source,
                                runtime_data: runtime_data->0,
                            },
                        ),
                        SlotState::Recording(_) => r == Err::<(), SlotError>(
                            SlotError::RecordingAlready,
                        ) && final(self).spec_state() == old(self).spec_state(),
                    }
                },
            },
    {
        let runtime_data = match result {
            Ok(r) => r,
            Err(_) => {
                self.remove_temporary_route(removed_routes);
                self.state = SlotState::Normal;
                return Ok(());
            },
        };
        let mut previous = SlotState::Normal;
        std::mem::swap(&mut previous, &mut self.state);
        match previous {
            SlotState::Normal => Err(SlotError::RecordingWasNotRequested),
            SlotState::RequestedOverdubbing => Ok(()),
            SlotState::RequestedRecording(s) => {
                let runtime_data = match runtime_data {
                    Some(d) => d,
                    None => {
                        self.state = SlotState::RequestedRecording(s);
                        return Ok(());
                    },
                };
                self.state = SlotState::Recording(
                    RecordingState { pooled_midi_source: s.pooled_midi_source, runtime_data },
                );
                Ok(())
            },
            SlotState::Recording(s) => {
                self.state = SlotState::Recording(s);
                Err(SlotError::RecordingAlready)
            },
        }
    }

    pub fn get_clip(&self, index: usize) -> (r: Result<&Clip, SlotError>)
        ensures
            index >= self.spec_contents().len() <==> r is Err,
            r is Err ==> r == Err::<&Clip, SlotError>(SlotError::ClipDoesntExist),
            r matches Ok(c) ==> *c == self.spec_contents()[index as int].clip,
    {
        if index >= self.contents.len() {
            return Err(SlotError::ClipDoesntExist);
        }
        Ok(&self.contents[index].clip)
    }

    pub fn get_clip_mut(&mut self, index: usize) -> (r: Result<&mut Clip, SlotError>)
        ensures
            index >= old(self).spec_contents().len() <==> r is Err,
            final(self).spec_index() == old(self).spec_index(),
            final(self).spec_state() == old(self).spec_state(),
            final(self).spec_temporary_route() == old(self).spec_temporary_route(),
            r is Err ==> r == Err::<&mut Clip, SlotError>(SlotError::ClipDoesntExist)
                && final(self).spec_contents() == old(self).spec_contents(),
            r matches Ok(c) ==> *c == old(self).spec_contents()[index as int].clip
                && final(self).spec_contents() == old(self).spec_contents().update(
                index as int,
                (Content { clip: *final(c), ..old(self).spec_contents()[index as int] }),
            ),
    {
        match get_content_mut(&mut self.contents, index) {
            Ok(content) => Ok(&mut content.clip),
            Err(e) => Err(e),
        }
    }

    /// The volume of the first clip.
    pub fn volume(&self) -> (r: Result<Db, SlotError>)
        ensures
            r == (if self.spec_contents().len() == 0 {
                Err(SlotError::ClipDoesntExist)
            } else {
                Ok(self.spec_contents()[0].clip.volume)
            }),
    {
        match self.get_clip(0) {
            Ok(clip) => Ok(clip.volume),
            Err(e) => Err(e),
        }
    }

    /// The looped setting of the first clip.
    pub fn looped(&self) -> (r: Result<bool, SlotError>)
        ensures
            r == (if self.spec_contents().len() == 0 {
                Err(SlotError::ClipDoesntExist)
            } else {
                Ok(self.spec_contents()[0].clip.looped)
            }),
    {
        match self.get_clip(0) {
            Ok(clip) => Ok(clip.looped),
            Err(e) => Err(e),
        }
    }

    /// Sets the volume of all clips, and tells the real-time side clip by clip.
    pub fn set_volume(&mut self, volume: Db, column_command_sender: &mut ColumnCommandSender) -> (r:
        Result<ClipChangeEvent, SlotError>)
        ensures
            final(self).spec_index() == old(self).spec_index(),
            final(self).spec_state() == old(self).spec_state(),
            final(self).spec_temporary_route() == old(self).spec_temporary_route(),
            final(self).spec_contents().len() == old(self).spec_contents().len(),
            old(self).spec_contents().len() == 0 ==> r == Err::<ClipChangeEvent, SlotError>(
                SlotError::SlotNotFilled,
            ) && final(column_command_sender).sent() == old(column_command_sender).sent(),
            old(self).spec_contents().len() > 0 ==> r == Ok::<ClipChangeEvent, SlotError>(
                ClipChangeEvent::Volume(volume),
            ) && final(column_command_sender).sent() == old(column_command_sender).sent() + Seq::new(
                old(self).spec_contents().len(),
                |i: int|
                    ColumnCommand::SetClipVolume {
                        slot_index: old(self).spec_index(),
                        clip_index: i as usize,
                        volume,
                    },
            ),
            forall|i: int|
                0 <= i < final(self).spec_contents().len() ==> #[trigger] final(self).spec_contents()[i]
                    == (Content {
                    clip: Clip { volume, ..old(self).spec_contents()[i].clip },
                    ..old(self).spec_contents()[i]
                }),
    {
        if self.contents.len() == 0 {
            return Err(SlotError::SlotNotFilled);
        }
        let n = self.contents.len();
        let mut i: usize = 0;
        while i < n
            invariant
                n == old(self).contents@.len(),
                i <= n,
                self.index == old(self).index,
                self.state == old(self).state,
                self.temporary_route == old(self).temporary_route,
                self.contents@.len() == n,
                forall|j: int|
                    0 <= j < n ==> #[trigger] self.contents@[j] == if j < i {
                        Content {
                            clip: Clip { volume, ..old(self).contents@[j].clip },
                            ..old(self).contents@[j]
                        }
                    } else {
                        old(self).contents@[j]
                    },
                column_command_sender.sent() == old(column_command_sender).sent() + Seq::new(
                    i as nat,
                    |k: int|
                        ColumnCommand::SetClipVolume {
                            slot_index: old(self).index,
                            clip_index: k as usize,
                            volume,
                        },
                ),
            decreases n - i,
        {
            self.contents[i].clip.volume = volume;
            column_command_sender.set_clip_volume(self.index, i, volume);
            i = i + 1;
            assert(column_command_sender.sent() =~= old(column_command_sender).sent() + Seq::new(
                i as nat,
                |k: int|
                    ColumnCommand::SetClipVolume {
                        slot_index: old(self).index,
                        clip_index: k as usize,
                        volume,
                    },
            ));
        }
        Ok(ClipChangeEvent::Volume(volume))
    }

    /// Toggles the looped setting of all clips, taking the first clip's setting as reference,
    /// and tells the real-time side clip by clip.
    pub fn toggle_looped(&mut self, column_command_sender: &mut ColumnCommandSender) -> (r: Result<
        ClipChangeEvent,
        SlotError,
    >)
        ensures
            final(self).spec_index() == old(self).spec_index(),
            final(self).spec_state() == old(self).spec_state(),
            final(self).spec_temporary_route() == old(self).spec_temporary_route(),
            final(self).spec_contents().len() == old(self).spec_contents().len(),
            old(self).spec_contents().len() == 0 ==> r == Err::<ClipChangeEvent, SlotError>(
                SlotError::ClipDoesntExist,
            ) && final(column_command_sender).sent() == old(column_command_sender).sent(),
            old(self).spec_contents().len() > 0 ==> {
                let looped = !old(self).spec_contents()[0].clip.looped;
                &&& r == Ok::<ClipChangeEvent, SlotError>(ClipChangeEvent::Looped(looped))
                &&& final(column_command_sender).sent() == old(column_command_sender).sent()
                    + Seq::new(
                    old(self).spec_contents().len(),
                    |i: int|
                        ColumnCommand::SetClipLooped(
                            ColumnSetClipLoopedArgs {
                                slot_index: old(self).spec_index(),
                                clip_index: i as usize,
                                looped,
                            },
                        ),
                )
                &&& forall|i: int|
                    0 <= i < final(self).spec_contents().len() ==> #[trigger] final(self).spec_contents()[i]
                        == (Content {
                        clip: Clip { looped, ..old(self).spec_contents()[i].clip },
                        ..old(self).spec_contents()[i]
                    })
            },
    {
        let looped = match self.looped() {
            Ok(l) => !l,
            Err(e) => return Err(e),
        };
        let n = self.contents.len();
        let mut i: usize = 0;
        while i < n
            invariant
                n == old(self).contents@.len(),
                n > 0,
                looped == !old(self).contents@[0].clip.looped,
                i <= n,
                self.index == old(self).index,
                self.state == old(self).state,
                self.temporary_route == old(self).temporary_route,
                self.contents@.len() == n,
                forall|j: int|
                    0 <= j < n ==> #[trigger] self.contents@[j] == if j < i {
                        Content {
                            clip: Clip { looped, ..old(self).contents@[j].clip },
                            ..old(self).contents@[j]
                        }
                    } else {
                        old(self).contents@[j]
                    },
                column_command_sender.sent() == old(column_command_sender).sent() + Seq::new(
                    i as nat,
                    |k: int|
                        ColumnCommand::SetClipLooped(
                            ColumnSetClipLoopedArgs {
                                slot_index: old(self).index,
                                clip_index: k as usize,
                                looped,
                            },
                        ),
                ),
            decreases n - i,
        {
            self.contents[i].clip.looped = looped;
            let args = ColumnSetClipLoopedArgs { slot_index: self.index, clip_index: i, looped };
            column_command_sender.set_clip_looped(args);
            i = i + 1;
            assert(column_command_sender.sent() =~= old(column_command_sender).sent() + Seq::new(
                i as nat,
                |k: int|
                    ColumnCommand::SetClipLooped(
                        ColumnSetClipLoopedArgs {
                            slot_index: old(self).index,
                            clip_index: k as usize,
                            looped,
                        },
                    ),
            ));
        }
        Ok(ClipChangeEvent::Looped(looped))
    }

    /// Scales the section length of all clips by `num / den`, and tells the real-time side clip
    /// by clip.
    pub fn adjust_section_length(
        &mut self,
        num: u32,
        den: u32,
        column_command_sender: &mut ColumnCommandSender,
    ) -> (r: Result<(), SlotError>)
        requires
            den > 0,
        ensures
            final(self).spec_index() == old(self).spec_index(),
            final(self).spec_state() == old(self).spec_state(),
            final(self).spec_temporary_route() == old(self).spec_temporary_route(),
            final(self).spec_contents().len() == old(self).spec_contents().len(),
            old(self).spec_contents().len() == 0 ==> r == Err::<(), SlotError>(
                SlotError::SlotNotFilled,
            ) && final(column_command_sender).sent() == old(column_command_sender).sent(),
            old(self).spec_contents().len() > 0 ==> r is Ok && final(column_command_sender).sent()
                == old(column_command_sender).sent() + Seq::new(
                old(self).spec_contents().len(),
                |i: int|
                    ColumnCommand::SetClipSection {
                        slot_index: old(self).spec_index(),
                        clip_index: i as usize,
                        section: final(self).spec_contents()[i].clip.section,
                    },
            ),
            forall|i: int|
                0 <= i < final(self).spec_contents().len() ==> #[trigger] final(self).spec_contents()[i]
                    == (Content {
                    clip: Clip {
                        section: ClipSection {
                            start_frame: old(self).spec_contents()[i].clip.section.start_frame,
                            length: Some(
                                scaled_section_length(old(self).spec_contents()[i], num, den),
                            ),
                        },
                        ..old(self).spec_contents()[i].clip
                    },
                    ..old(self).spec_contents()[i]
                }),
    {
        if self.contents.len() == 0 {
            return Err(SlotError::SlotNotFilled);
        }
        let n = self.contents.len();
        let mut i: usize = 0;
        while i < n
            invariant
                n == old(self).contents@.len(),
                den > 0,
                i <= n,
                self.index == old(self).index,
                self.state == old(self).state,
                self.temporary_route == old(self).temporary_route,
                self.contents@.len() == n,
                forall|j: int|
                    0 <= j < n ==> #[trigger] self.contents@[j] == if j < i {
                        Content {
                            clip: Clip {
                                section: ClipSection {
                                    start_frame: old(self).contents@[j].clip.section.start_frame,
                                    length: Some(
                                        scaled_section_length(old(self).contents@[j], num, den),
                                    ),
                                },
                                ..old(self).contents@[j].clip
                            },
                            ..old(self).contents@[j]
                        }
                    } else {
                        old(self).contents@[j]
                    },
                column_command_sender.sent() == old(column_command_sender).sent() + Seq::new(
                    i as nat,
                    |k: int|
                        ColumnCommand::SetClipSection {
                            slot_index: old(self).index,
                            clip_index: k as usize,
                            section: self.contents@[k].clip.section,
                        },
                ),
            decreases n - i,
        {
            let current: usize = match self.contents[i].clip.section.length {
                Some(l) => l,
                None => self.contents[i].runtime_data.material_info.frame_count,
            };
            proof {
                assert(current as int * num as int <= usize::MAX as int * u32::MAX as int)
                    by (nonlinear_arith)
                    requires
                        current <= usize::MAX,
                        num <= u32::MAX,
                ;
            }
            let product: u128 = current as u128 * num as u128;
            let scaled: u128 = product / den as u128;
            let length: usize = if scaled > usize::MAX as u128 {
                usize::MAX
            } else {
                scaled as usize
            };
            let section = ClipSection {
                start_frame: self.contents[i].clip.section.start_frame,
                length: Some(length),
            };
            self.contents[i].clip.section = section;
            column_command_sender.set_clip_section(self.index, i, section);
            i = i + 1;
            assert(column_command_sender.sent() =~= old(column_command_sender).sent() + Seq::new(
                i as nat,
                |k: int|
                    ColumnCommand::SetClipSection {
                        slot_index: old(self).index,
                        clip_index: k as usize,
                        section: self.contents@[k].clip.section,
                    },
            ));
        }
        Ok(())
    }

    /// Whether any clip of this slot is freezable.
    pub fn is_freezeable(&self) -> (r: bool)
        ensures
            r == exists|i: int|
                0 <= i < self.spec_contents().len()
                    && #[trigger] self.spec_contents()[i].runtime_data.material_info.is_midi,
    {
        let mut i: usize = 0;
        while i < self.contents.len()
            invariant
                i <= self.contents@.len(),
                forall|j: int| 0 <= j < i ==> !#[trigger] self.contents@[j].runtime_data.material_info.is_midi,
            decreases self.contents@.len() - i,
        {
            if self.contents[i].is_freezable() {
                return true;
            }
            i = i + 1;
        }
        false
    }

    /// The play state of the slot: that of the recording, or of the first clip.
    pub fn play_state(&self) -> (r: Result<ClipPlayState, SlotError>)
        ensures
            r == match self.spec_state() {
                SlotState::Normal => if self.spec_contents().len() == 0 {
                    Err(SlotError::ClipDoesntExist)
                } else {
                    Ok(self.spec_contents()[0].runtime_data.play_state)
                },
                SlotState::RequestedOverdubbing | SlotState::RequestedRecording(_) => Ok(
                    ClipPlayState::ScheduledForRecordingStart,
                ),
                SlotState::Recording(s) => Ok(s.runtime_data.play_state),
            },
    {
        match &self.state {
            SlotState::Normal => {
                if self.contents.len() == 0 {
                    Err(SlotError::ClipDoesntExist)
                } else {
                    Ok(self.contents[0].runtime_data.play_state)
                }
            },
            SlotState::RequestedOverdubbing | SlotState::RequestedRecording(_) => Ok(
                ClipPlayState::ScheduledForRecordingStart,
            ),
            SlotState::Recording(s) => Ok(s.runtime_data.play_state),
        }
    }

    /// Sets the play state of the recording, or else of every clip.
    pub fn update_play_state(&mut self, play_state: ClipPlayState)
        ensures
            final(self).spec_index() == old(self).spec_index(),
            final(self).spec_temporary_route() == old(self).spec_temporary_route(),
            match old(self).spec_state() {
                SlotState::Recording(s) => {
                    &&& final(self).spec_state() == SlotState::Recording(
                        RecordingState {
                            runtime_data: SlotRuntimeData { play_state, ..s.runtime_data },
                            ..s
                        },
                    )
                    &&& final(self).spec_contents() == old(self).spec_contents()
                },
                _ => {
                    &&& final(self).spec_state() == old(self).spec_state()
                    &&& final(self).spec_contents().len() == old(self).spec_contents().len()
                    &&& forall|i: int|
                        0 <= i < final(self).spec_contents().len()
                            ==> #[trigger] final(self).spec_contents()[i] == (Content {
                            runtime_data: SlotRuntimeData {
                                play_state,
                                ..old(self).spec_contents()[i].runtime_data
                            },
                            ..old(self).spec_contents()[i]
                        })
                },
            },
    {
        if let SlotState::Recording(s) = &mut self.state {
            s.runtime_data.play_state = play_state;
            return;
        }
        let n = self.contents.len();
        let mut i: usize = 0;
        while i < n
            invariant
                n == old(self).contents@.len(),
                i <= n,
                !(old(self).state is Recording),
                self.index == old(self).index,
                self.state == old(self).state,
                self.temporary_route == old(self).temporary_route,
                self.contents@.len() == n,
                forall|j: int|
                    0 <= j < n ==> #[trigger] self.contents@[j] == if j < i {
                        Content {
                            runtime_data: SlotRuntimeData {
                                play_state,
                                ..old(self).contents@[j].runtime_data
                            },
                            ..old(self).contents@[j]
                        }
                    } else {
                        old(self).contents@[j]
                    },
            decreases n - i,
        {
            self.contents[i].runtime_data.play_state = play_state;
            i = i + 1;
        }
    }

    pub fn update_material_info(&mut self, clip_index: usize, material_info: MaterialInfo) -> (r:
        Result<(), SlotError>)
        ensures
            final(self).spec_index() == old(self).spec_index(),
            final(self).spec_state() == old(self).spec_state(),
            final(self).spec_temporary_route() == old(self).spec_temporary_route(),
            clip_index >= old(self).spec_contents().len() ==> r == Err::<(), SlotError>(
                SlotError::ClipDoesntExist,
            ) && final(self).spec_contents() == old(self).spec_contents(),
            clip_index < old(self).spec_contents().len() ==> r is Ok && final(self).spec_contents()
                == old(self).spec_contents().update(
                clip_index as int,
                (Content {
                    runtime_data: SlotRuntimeData {
                        material_info,
                        ..old(self).spec_contents()[clip_index as int].runtime_data
                    },
                    ..old(self).spec_contents()[clip_index as int]
                }),
            ),
    {
        match get_content_mut(&mut self.contents, clip_index) {
            Ok(content) => {
                content.runtime_data.material_info = material_info;
                Ok(())
            },
            Err(e) => Err(e),
        }
    }

    /// The runtime data of the recording where the slot records, else the contents.
    pub fn relevant_contents(&self) -> (r: RelevantContent<'_>)
        ensures
            match self.spec_state() {
                SlotState::Recording(s) => r == RelevantContent::Recording(&s.runtime_data),
                _ => r matches RelevantContent::Normal(c) && c@ == self.spec_contents(),
            },
    {
        if let SlotState::Recording(s) = &self.state {
            RelevantContent::Recording(&s.runtime_data)
        } else {
            RelevantContent::Normal(&self.contents)
        }
    }

    /// Adds a clip, or replaces all clips by it.
    pub fn fill_with_clip(
        &mut self,
        clip: Clip,
        material_info: MaterialInfo,
        pooled_midi_source: Option<ClipSource>,
        mode: FillClipMode,
    )
        ensures
            final(self).spec_index() == old(self).spec_index(),
            final(self).spec_state() == old(self).spec_state(),
            final(self).spec_temporary_route() == old(self).spec_temporary_route(),
            ({
                let content = Content {
                    clip,
                    runtime_data: SlotRuntimeData {
                        play_state: ClipPlayState::Stopped,
                        material_info,
                    },
                    pooled_midi_source,
                };
                final(self).spec_contents() == match mode {
                    FillClipMode::Add => old(self).spec_contents().push(content),
                    FillClipMode::Replace => seq![content],
                }
            }),
    {
        let content = Content {
            clip,
            runtime_data: SlotRuntimeData { play_state: ClipPlayState::Stopped, material_info },
            pooled_midi_source,
        };
        match mode {
            FillClipMode::Add => {
                self.contents.push(content);
            },
            FillClipMode::Replace => {
                self.contents = vec![content];
            },
        }
    }

    /// Takes over the source that a finished MIDI overdub produced into the first clip.
    pub fn notify_midi_overdub_finished(
        &mut self,
        mirror_source: ClipSource,
        removed_routes: &mut Vec<TrackRoute>,
    ) -> (r: Result<SlotChangeEvent, SlotError>)
        ensures
            final(self).spec_index() == old(self).spec_index(),
            final(self).spec_state() == old(self).spec_state(),
            final(self).spec_temporary_route() is None,
            final(removed_routes)@ == match old(self).spec_temporary_route() {
                Some(route) => old(removed_routes)@.push(route),
                None => old(removed_routes)@,
            },
            old(self).spec_contents().len() == 0 ==> r == Err::<SlotChangeEvent, SlotError>(
                SlotError::ClipDoesntExist,
            ) && final(self).spec_contents() == old(self).spec_contents(),
            old(self).spec_contents().len() > 0 ==> r == Ok::<SlotChangeEvent, SlotError>(
                SlotChangeEvent::MidiOverdubFinished,
            ) && final(self).spec_contents() == old(self).spec_contents().update(
                0,
                (Content {
                    clip: Clip { source: mirror_source, ..old(self).spec_contents()[0].clip },
                    ..old(self).spec_contents()[0]
                }),
            ),
    {
        self.remove_temporary_route(removed_routes);
        match get_content_mut(&mut self.contents, 0) {
            Ok(content) => {
                content.clip.source = mirror_source;
                Ok(SlotChangeEvent::MidiOverdubFinished)
            },
            Err(e) => Err(e),
        }
    }

    /// Removes all clips, unless the slot is empty already.
    pub fn slot_cleared(&mut self) -> (r: Option<SlotChangeEvent>)
        ensures
            final(self).spec_index() == old(self).spec_index(),
            final(self).spec_state() == old(self).spec_state(),
            final(self).spec_temporary_route() == old(self).spec_temporary_route(),
            old(self).spec_is_empty() ==> r is None && final(self).spec_contents() == old(
                self,
            ).spec_contents(),
            !old(self).spec_is_empty() ==> r == Some(SlotChangeEvent::ClipRemoved)
                && final(self).spec_contents() == Seq::<Content>::empty(),
    {
        if self.is_empty() {
            return None;
        }
        self.contents.clear();
        Some(SlotChangeEvent::ClipRemoved)
    }

    /// Processes the end of a normal recording: a committed recording becomes the slot's only
    /// clip, a canceled one leaves the contents as they were. Either way the temporary route is
    /// handed out for removal.
    pub fn notify_normal_recording_finished(
        &mut self,
        outcome: NormalRecordingOutcome,
        removed_routes: &mut Vec<TrackRoute>,
    ) -> (r: Result<SlotChangeEvent, SlotError>)
        ensures
            final(self).spec_index() == old(self).spec_index(),
            final(self).spec_temporary_route() is None,
            final(removed_routes)@ == match old(self).spec_temporary_route() {
                Some(route) => old(removed_routes)@.push(route),
                None => old(removed_routes)@,
            },
            match outcome {
                NormalRecordingOutcome::Canceled => {
                    &&& r == Ok::<SlotChangeEvent, SlotError>(SlotChangeEvent::RecordingCanceled)
                    &&& final(self).spec_state() is Normal
                    &&& final(self).spec_contents() == old(self).spec_contents()
                },
                NormalRecordingOutcome::Committed(recording) => match old(self).spec_state() {
                    SlotState::Recording(s) => {
                        &&& r == Ok::<SlotChangeEvent, SlotError>(
                            SlotChangeEvent::ClipRecordingFinished,
                        )
                        &&& final(self).spec_state() is Normal
                        &&& final(self).spec_contents() == seq![
                            Content {
                                clip: recording.clip,
                                runtime_data: SlotRuntimeData {
                                    material_info: recording.material_info,
                                    ..s.runtime_data
                                },
                                pooled_midi_source: s.pooled_midi_source,
                            },
                        ]
                    },
                    _ => {
                        &&& r == Err::<SlotChangeEvent, SlotError>(
                            match old(self).spec_state() {
                                SlotState::Normal => SlotError::SlotWasNotRecording,
                                SlotState::RequestedOverdubbing => SlotError::RequestedOverdubbing,
                                _ => SlotError::RecordingNotYetAcknowledged,
                            },
                        )
                        &&& final(self).spec_state() == old(self).spec_state()
                        &&& final(self).spec_contents() == old(self).spec_contents()
                    },
                },
            },
    {
        self.remove_temporary_route(removed_routes);
        match outcome {
            NormalRecordingOutcome::Committed(recording) => {
                let mut previous = SlotState::Normal;
                std::mem::swap(&mut previous, &mut self.state);
                match previous {
                    SlotState::Recording(s) => {
                        let content = Content {
                            clip: recording.clip,
                            runtime_data: SlotRuntimeData {
                                play_state: s.runtime_data.play_state,
                                material_info: recording.material_info,
                            },
                            pooled_midi_source: s.pooled_midi_source,
                        };
                        self.contents = vec![content];
                        Ok(SlotChangeEvent::ClipRecordingFinished)
                    },
                    SlotState::Normal => Err(SlotError::SlotWasNotRecording),
                    SlotState::RequestedOverdubbing => {
                        self.state = SlotState::RequestedOverdubbing;
                        Err(SlotError::RequestedOverdubbing)
                    },
                    SlotState::RequestedRecording(s) => {
                        self.state = SlotState::RequestedRecording(s);
                        Err(SlotError::RecordingNotYetAcknowledged)
                    },
                }
            },
            NormalRecordingOutcome::Canceled => {
                self.state = SlotState::Normal;
                Ok(SlotChangeEvent::RecordingCanceled)
            },
        }
    }
}

/// A slot in state `Normal` without contents is empty; a slot in any recording-related state is
/// occupied, whatever it holds.
pub proof fn lemma_slot_occupancy(slot: Slot)
    ensures
        slot.spec_state() is Normal && slot.spec_contents().len() == 0 ==> slot.spec_is_empty(),
        !(slot.spec_state() is Normal) ==> !slot.spec_is_empty(),
        slot.spec_contents().len() > 0 ==> !slot.spec_is_empty(),
{
}

} // verus!
