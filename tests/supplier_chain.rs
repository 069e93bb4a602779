use clip_engine::chain::SupplierChain;
use clip_engine::downbeat::Downbeat;
use clip_engine::fader::{fade_sample, Fader, FADE_FRAME_COUNT};
use clip_engine::looper::{LoopBehavior, Looper, Repetition};
use clip_engine::recorder::{ClipInfo, Recorder};
use clip_engine::resampler::Resampler;
use clip_engine::section::Section;
use clip_engine::supply::{
    SupplyAudioRequest, SupplyMidiRequest, SupplyResponse, SupplyResponseStatus,
};
use clip_engine::time_stretcher::{TempoFactor, TimeStretcher};

/// Frames 1, 2, ..., n.
fn counting_frames(n: usize) -> Vec<i32> {
    (1..=n as i32).collect()
}

fn looper_over(frames: Vec<i32>, behavior: LoopBehavior) -> Looper {
    let mut looper = Looper::new(Section::new(Recorder::ready(frames, false, 48000, 1)));
    looper.set_enabled(true);
    looper.set_loop_behavior(behavior);
    looper
}

fn audio_request(start_frame: isize, dest_frame_count: usize) -> SupplyAudioRequest {
    SupplyAudioRequest { start_frame, dest_frame_offset: 0, dest_frame_count, dest_sample_rate: 48000 }
}

fn continuing(n: usize) -> SupplyResponse {
    SupplyResponse { num_frames_consumed: n, status: SupplyResponseStatus::PleaseContinue }
}

fn ended(n: usize) -> SupplyResponse {
    SupplyResponse {
        num_frames_consumed: n,
        status: SupplyResponseStatus::ReachedEnd { num_frames_written: n },
    }
}

#[test]
fn looper_fills_buffer_across_loop_boundary() {
    let mut looper = looper_over(counting_frames(1000), LoopBehavior::Infinitely);
    let mut dest = vec![0; 1500];
    let response = looper.supply_audio(&audio_request(0, 1500), &mut dest);
    assert_eq!(response, continuing(1500));
    assert_eq!(dest[0], 1);
    assert_eq!(dest[999], 1000);
    assert_eq!(dest[1000], 1);
    assert_eq!(dest[1499], 500);
}

#[test]
fn looper_wraparound_gives_same_output_in_later_cycle() {
    let mut looper = looper_over(counting_frames(100), LoopBehavior::Infinitely);
    let mut first = vec![0; 50];
    let mut later = vec![0; 50];
    let r1 = looper.supply_audio(&audio_request(70, 50), &mut first);
    let r2 = looper.supply_audio(&audio_request(3 * 100 + 70, 50), &mut later);
    assert_eq!(r1, r2);
    assert_eq!(first, later);
    assert_eq!(first[0], 71);
    assert_eq!(first[30], 1);
}

#[test]
fn looper_perfect_landing_continues() {
    let mut looper = looper_over(counting_frames(100), LoopBehavior::Infinitely);
    let mut dest = vec![0; 100];
    let response = looper.supply_audio(&audio_request(200, 100), &mut dest);
    assert_eq!(response, continuing(100));
    assert_eq!(dest, counting_frames(100));
}

#[test]
fn looper_stops_at_end_of_last_cycle() {
    let mut looper = looper_over(counting_frames(100), LoopBehavior::Infinitely);
    looper.keep_playing_until_end_of_current_cycle(150);
    assert_eq!(looper.loop_behavior, LoopBehavior::UntilEndOfCycle(1));
    let mut dest = vec![9; 60];
    let response = looper.supply_audio(&audio_request(180, 60), &mut dest);
    assert_eq!(response, ended(20));
    assert_eq!(dest[19], 100);
    assert_eq!(dest[20], 0);
    // A later cycle delivers nothing.
    let mut dest = vec![9; 10];
    let response = looper.supply_audio(&audio_request(250, 10), &mut dest);
    assert_eq!(response, ended(0));
    assert_eq!(dest, vec![0; 10]);
}

#[test]
fn looper_negative_position_marks_first_cycle() {
    let mut looper = looper_over(counting_frames(100), LoopBehavior::Infinitely);
    looper.keep_playing_until_end_of_current_cycle(-5);
    assert_eq!(looper.loop_behavior, LoopBehavior::UntilEndOfCycle(0));
    assert_eq!(looper.get_cycle_at_frame(100), 1);
    assert_eq!(looper.get_cycle_at_frame(99), 0);
}

#[test]
fn looper_when_disabled_plays_once() {
    let mut looper = looper_over(counting_frames(10), LoopBehavior::Infinitely);
    looper.set_enabled(false);
    let mut dest = vec![0; 15];
    let response = looper.supply_audio(&audio_request(5, 15), &mut dest);
    assert_eq!(response, ended(5));
    assert_eq!(&dest[..6], &[6, 7, 8, 9, 10, 0]);
    assert!(looper.check_relevance(5).is_none());
}

#[test]
fn looper_relevance() {
    let looper = looper_over(counting_frames(10), LoopBehavior::UntilEndOfCycle(1));
    let data = looper.check_relevance(15).unwrap();
    assert_eq!(data.start_frame, 15);
    assert_eq!(data.current_cycle, 1);
    assert!(looper.check_relevance(20).is_none());
    assert!(looper.check_relevance(-1).is_none());
    assert!(looper.is_last_cycle(1));
    assert!(!looper.is_last_cycle(0));
}

#[test]
fn looper_midi_second_pass_lands_after_first() {
    let mut material = vec![0; 10];
    material[0] = 0x903C64;
    material[8] = 0x803C00;
    let mut looper = Looper::new(Section::new(Recorder::ready(material, true, 48000, 0)));
    looper.set_enabled(true);
    looper.set_loop_behavior(LoopBehavior::Infinitely);
    let mut events = vec![0; 8];
    let response = looper.supply_midi(
        &SupplyMidiRequest { start_frame: 6, dest_frame_count: 8 },
        &mut events,
    );
    assert_eq!(response, continuing(8));
    assert_eq!(events, vec![0, 0, 0x803C00, 0, 0x903C64, 0, 0, 0]);
}

#[test]
fn loop_behavior_conversions() {
    assert_eq!(Repetition::from_bool(true), Repetition::Infinitely);
    assert_eq!(Repetition::from_bool(false), Repetition::Once);
    assert_eq!(LoopBehavior::from_bool(true), LoopBehavior::Infinitely);
    assert_eq!(LoopBehavior::from_bool(false), LoopBehavior::UntilEndOfCycle(0));
    assert_eq!(
        LoopBehavior::from_repetition(Repetition::Once),
        LoopBehavior::UntilEndOfCycle(0)
    );
    assert_eq!(LoopBehavior::from_repetition(Repetition::Infinitely), LoopBehavior::Infinitely);
    assert_eq!(LoopBehavior::default(), LoopBehavior::UntilEndOfCycle(0));
    assert_eq!(LoopBehavior::UntilEndOfCycle(3).last_cycle(), Some(3));
    assert_eq!(LoopBehavior::Infinitely.last_cycle(), None);
}

#[test]
fn section_hides_material_outside_bounds() {
    let mut section = Section::new(Recorder::ready(counting_frames(10), false, 44100, 2));
    section.set_bounds(2, Some(5));
    assert_eq!(section.frame_count(), 5);
    let mut dest = vec![7; 12];
    let request = SupplyAudioRequest {
        start_frame: -2,
        dest_frame_offset: 1,
        dest_frame_count: 10,
        dest_sample_rate: 44100,
    };
    let response = section.supply_audio(&request, &mut dest);
    assert_eq!(response, ended(7));
    assert_eq!(dest, vec![7, 0, 0, 3, 4, 5, 6, 7, 0, 0, 0, 7]);
}

#[test]
fn section_longer_than_material_is_clamped() {
    let mut section = Section::new(Recorder::ready(counting_frames(10), false, 44100, 2));
    section.set_bounds(8, Some(100));
    assert_eq!(section.frame_count(), 2);
    section.set_bounds(20, None);
    assert_eq!(section.frame_count(), 0);
}

#[test]
fn section_midi_events_outside_bounds_are_left_out() {
    let material = vec![1, 2, 3, 4, 5];
    let mut section = Section::new(Recorder::ready(material, true, 44100, 0));
    section.set_bounds(1, Some(2));
    let mut events = vec![0; 4];
    let response =
        section.supply_midi(&SupplyMidiRequest { start_frame: -1, dest_frame_count: 4 }, &mut events);
    assert_eq!(response, ended(3));
    assert_eq!(events, vec![0, 2, 3, 0]);
}

#[test]
fn recorder_records_then_reports_clip_info() {
    let mut recorder = Recorder::recording(false, 2);
    assert!(recorder.is_recording());
    assert_eq!(recorder.clip_info(), None);
    recorder.write_frames(&vec![1, 2, 3]);
    recorder.write_frames(&vec![4]);
    assert_eq!(recorder.frame_count(), 4);
    recorder.finish_recording(48000);
    assert_eq!(
        recorder.clip_info(),
        Some(ClipInfo { is_midi: false, frame_rate: 48000, frame_count: 4 })
    );
    let mut dest = vec![0; 6];
    let response = recorder.supply_audio(&audio_request(0, 6), &mut dest);
    assert_eq!(response, ended(4));
    assert_eq!(dest, vec![1, 2, 3, 4, 0, 0]);
}

#[test]
fn downbeat_shifts_start() {
    let mut downbeat = Downbeat::new(looper_over(counting_frames(10), LoopBehavior::UntilEndOfCycle(0)));
    downbeat.set_enabled(true);
    downbeat.set_downbeat_frame(3);
    let mut dest = vec![0; 4];
    let response = downbeat.supply_audio(&audio_request(-3, 4), &mut dest);
    assert_eq!(response, continuing(4));
    assert_eq!(dest, vec![1, 2, 3, 4]);
}

#[test]
fn fade_sample_scales_towards_zero() {
    assert_eq!(fade_sample(1000, FADE_FRAME_COUNT), 1000);
    assert_eq!(fade_sample(1000, 0), 0);
    assert_eq!(fade_sample(1000, 16), 250);
    assert_eq!(fade_sample(-1001, 32), -500);
    assert_eq!(fade_sample(i32::MIN, 64), i32::MIN);
}

#[test]
fn fader_fades_in_and_out() {
    let frames = vec![640; 200];
    let looper = looper_over(frames, LoopBehavior::UntilEndOfCycle(0));
    let mut fader = Fader::new(Resampler::new(TimeStretcher::new(Downbeat::new(looper))));
    fader.set_enabled(true);
    fader.schedule_fade_out(150);
    let mut dest = vec![0; 200];
    let response = fader.supply_audio(&audio_request(0, 200), &mut dest);
    assert_eq!(response, ended(200));
    assert_eq!(dest[0], 0);
    assert_eq!(dest[32], 320);
    assert_eq!(dest[64], 640);
    assert_eq!(dest[80], 640);
    assert_eq!(dest[100], 500);
    assert_eq!(dest[118], 320);
    assert_eq!(dest[150], 0);
    assert_eq!(dest[199], 0);
    fader.cancel_fade_out();
    assert_eq!(fader.fade_out_end, None);
}

#[test]
fn chain_is_configured_and_plays_once() {
    let mut chain = SupplierChain::new(Recorder::ready(counting_frames(100), false, 48000, 2));
    assert!(chain.fader().enabled);
    assert!(chain.resampler().enabled);
    assert!(chain.time_stretcher().enabled);
    assert!(chain.downbeat().enabled);
    assert!(chain.looper().enabled);
    assert_eq!(chain.looper().loop_behavior, LoopBehavior::UntilEndOfCycle(0));
    assert_eq!(chain.section_frame_count_in_ready_state(), 100);
    assert_eq!(chain.source_frame_rate_in_ready_state(), 48000);
    assert_eq!(
        chain.clip_info(),
        Some(ClipInfo { is_midi: false, frame_rate: 48000, frame_count: 100 })
    );
    assert_eq!(chain.recorder().channel_count(), 2);
    chain.fader_mut().set_enabled(false);
    let mut dest = vec![0; 150];
    let response = chain.supply_audio(&audio_request(0, 150), &mut dest);
    assert_eq!(response, ended(100));
    assert_eq!(dest[99], 100);
    assert_eq!(dest[100], 0);
}

#[test]
fn chain_accessors_reach_each_stage() {
    let mut chain = SupplierChain::new(Recorder::ready(counting_frames(100), false, 48000, 2));
    chain.head_mut().set_enabled(false);
    chain.looper_mut().set_loop_behavior(LoopBehavior::Infinitely);
    chain.section_mut().set_bounds(10, Some(20));
    chain.downbeat_mut().set_downbeat_frame(5);
    chain.time_stretcher_mut().set_enabled(false);
    chain.resampler_mut().set_enabled(false);
    assert!(!chain.head().enabled);
    assert_eq!(chain.section().frame_count(), 20);
    assert_eq!(chain.downbeat().downbeat_frame, 5);
    assert!(!chain.time_stretcher().enabled);
    assert!(!chain.resampler().enabled);
    assert_eq!(chain.recorder_mut().frame_count(), 100);
    let mut dest = vec![0; 20];
    let response = chain.supply_audio(&audio_request(10, 20), &mut dest);
    assert_eq!(response, continuing(20));
    // Position 10 plus the downbeat shift of 5 is frame 15 of the section, i.e. material 26.
    assert_eq!(dest[0], 26);
    assert_eq!(dest[5], 11);
    let mut events = vec![0; 3];
    let response =
        chain.supply_midi(&SupplyMidiRequest { start_frame: 0, dest_frame_count: 3 }, &mut events);
    assert_eq!(response, continuing(3));
    assert_eq!(events, vec![16, 17, 18]);
}

fn resampler_over(frames: Vec<i32>) -> Resampler {
    let looper = looper_over(frames, LoopBehavior::UntilEndOfCycle(0));
    let mut resampler = Resampler::new(TimeStretcher::new(Downbeat::new(looper)));
    resampler.set_enabled(true);
    resampler
}

fn request_at_rate(start_frame: isize, dest_frame_count: usize, rate: u32) -> SupplyAudioRequest {
    SupplyAudioRequest { start_frame, dest_frame_offset: 0, dest_frame_count, dest_sample_rate: rate }
}

#[test]
fn resampler_doubles_frames_for_double_rate() {
    let mut resampler = resampler_over(counting_frames(100));
    let mut dest = vec![0; 10];
    let response = resampler.supply_audio(&request_at_rate(0, 10, 96000), &mut dest);
    assert_eq!(response, continuing(10));
    assert_eq!(dest, vec![1, 1, 2, 2, 3, 3, 4, 4, 5, 5]);
}

#[test]
fn resampler_skips_frames_for_half_rate_and_reports_end() {
    let mut resampler = resampler_over(counting_frames(10));
    let mut dest = vec![0; 8];
    let response = resampler.supply_audio(&request_at_rate(0, 8, 24000), &mut dest);
    assert_eq!(response, ended(5));
    assert_eq!(dest, vec![1, 3, 5, 7, 9, 0, 0, 0]);
}

#[test]
fn resampler_maps_negative_positions_downwards() {
    let mut resampler = resampler_over(counting_frames(10));
    let mut dest = vec![0; 5];
    let response = resampler.supply_audio(&request_at_rate(-3, 5, 96000), &mut dest);
    assert_eq!(response, continuing(5));
    assert_eq!(dest, vec![0, 0, 0, 1, 1]);
}

#[test]
fn resampler_passes_through_at_matching_rate_or_when_disabled() {
    let mut resampler = resampler_over(counting_frames(10));
    let mut dest = vec![0; 4];
    resampler.supply_audio(&request_at_rate(2, 4, 48000), &mut dest);
    assert_eq!(dest, vec![3, 4, 5, 6]);
    resampler.set_enabled(false);
    let mut dest = vec![0; 4];
    resampler.supply_audio(&request_at_rate(2, 4, 96000), &mut dest);
    assert_eq!(dest, vec![3, 4, 5, 6]);
    assert_eq!(resampler.frame_rate(), Some(48000));
}

fn stretcher_over(frames: Vec<i32>, num: u32, den: u32) -> TimeStretcher {
    let looper = looper_over(frames, LoopBehavior::UntilEndOfCycle(0));
    let mut stretcher = TimeStretcher::new(Downbeat::new(looper));
    stretcher.set_enabled(true);
    stretcher.set_tempo_factor(Some(TempoFactor { num, den }));
    stretcher
}

#[test]
fn time_stretcher_reads_faster_at_double_tempo() {
    let mut stretcher = stretcher_over(counting_frames(100), 2, 1);
    let mut dest = vec![0; 5];
    let response = stretcher.supply_audio(&audio_request(0, 5), &mut dest);
    assert_eq!(response, continuing(5));
    assert_eq!(dest, vec![1, 3, 5, 7, 9]);
}

#[test]
fn time_stretcher_reads_slower_at_half_tempo() {
    let mut stretcher = stretcher_over(counting_frames(100), 1, 2);
    let mut dest = vec![0; 5];
    let response = stretcher.supply_audio(&audio_request(4, 5), &mut dest);
    assert_eq!(response, continuing(5));
    assert_eq!(dest, vec![3, 3, 4, 4, 5]);
}

#[test]
fn time_stretcher_reports_end_in_destination_frames() {
    let mut stretcher = stretcher_over(counting_frames(10), 2, 1);
    let mut dest = vec![0; 8];
    let response = stretcher.supply_audio(&audio_request(0, 8), &mut dest);
    assert_eq!(response, ended(5));
    assert_eq!(dest, vec![1, 3, 5, 7, 9, 0, 0, 0]);
}

#[test]
fn time_stretcher_passes_through_without_factor() {
    let mut stretcher = stretcher_over(counting_frames(10), 3, 3);
    let mut dest = vec![0; 3];
    stretcher.supply_audio(&audio_request(1, 3), &mut dest);
    assert_eq!(dest, vec![2, 3, 4]);
    stretcher.set_tempo_factor(None);
    let mut dest = vec![0; 3];
    stretcher.supply_audio(&audio_request(1, 3), &mut dest);
    assert_eq!(dest, vec![2, 3, 4]);
}
