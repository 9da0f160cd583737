use std::cell::{Cell, RefCell};
use std::collections::VecDeque;

use dasp_sample::Sample;
use solgb_audio::bridge::AudioBridge;
use solgb_audio::config::{negotiate, AudioError, OutputConfig, SampleFormat};
use solgb_audio::input::GBButton;
use solgb_audio::render::{refill_step, Playback, Refill, RefillStep, MAX_POLLS, REFILL_TIMEOUT_MICROS};
use solgb_audio::volume::{clamp_volume, Volume, MAX_VOLUME};

/// A sample source fed by the test: each poll hands out the next queued
/// chunk, or nothing once the queue is empty.
struct Source {
    chunks: RefCell<VecDeque<Vec<f32>>>,
    polls: Cell<u64>,
}

impl Source {
    fn new(chunks: Vec<Vec<f32>>) -> Source {
        Source { chunks: RefCell::new(chunks.into_iter().collect()), polls: Cell::new(0) }
    }
}

fn take(s: &Source) -> Option<Vec<f32>> {
    s.polls.set(s.polls.get() + 1);
    s.chunks.borrow_mut().pop_front()
}

fn scale(x: f32, volume: u8) -> f32 {
    x * (volume as f32 / 100.0)
}

fn scale_u8(x: f32, volume: u8) -> u8 {
    u8::from_sample(scale(x, volume))
}

fn still_clock() -> u64 {
    0
}

#[test]
fn clamp_keeps_levels_in_range() {
    assert_eq!(clamp_volume(0), 0);
    assert_eq!(clamp_volume(42), 42);
    assert_eq!(clamp_volume(100), 100);
    assert_eq!(clamp_volume(101), MAX_VOLUME);
    assert_eq!(clamp_volume(255), MAX_VOLUME);
}

#[test]
fn set_volume_above_range_reads_back_as_full() {
    let mut bridge: AudioBridge<Source> = AudioBridge::new();
    bridge.set_volume(150);
    assert_eq!(bridge.volume(), 100);
}

#[test]
fn volume_starts_muted_and_reaches_the_reader() {
    let mut v = Volume::new();
    assert_eq!(v.get(), 0);
    let reader = v.reader();
    assert_eq!(reader.get(), 0);
    v.set(37);
    assert_eq!(v.get(), 37);
    assert_eq!(reader.get(), 37);
    v.set(150);
    assert_eq!(v.get(), 100);
    assert_eq!(reader.get(), 100);
    v.set(0);
    assert_eq!(reader.get(), 0);
}

#[test]
fn new_bridge_is_muted() {
    let bridge: AudioBridge<Source> = AudioBridge::new();
    assert_eq!(bridge.volume(), 0);
}

#[test]
fn no_source_gives_silence_for_every_format() {
    let mut bridge: AudioBridge<Source> = AudioBridge::new();
    bridge.set_volume(100);
    let mut rl = bridge.render_loop::<f32>(None);
    let mut out = [7u8; 16];
    let r = rl.render(&mut out, 128u8, &take, &still_clock, &scale_u8);
    assert_eq!(out, [128u8; 16]);
    assert_eq!(r.fill.from_source, 0);
    assert_eq!(r.fill.refills, 0);
    assert!(!r.fill.underrun);
    assert_eq!(r.fill.last_refill, Refill { filled: false, polls: 0, waited: 0 });

    let mut outf = [0.9f32; 8];
    let r = rl.render(&mut outf, 0.0f32, &take, &still_clock, &scale);
    assert_eq!(outf, [0.0f32; 8]);
    assert!(!r.fill.underrun);
    assert!(!rl.playback().has_source());
}

#[test]
fn half_volume_float_output() {
    let mut bridge = AudioBridge::new();
    bridge.set_volume(50);
    bridge.publish_source(Source::new(vec![vec![0.5, -0.5, 0.5, -0.5]]));
    let mut rl = bridge.render_loop::<f32>(None);
    let mut out = [1.0f32; 4];
    let r = rl.render(&mut out, 0.0f32, &take, &still_clock, &scale);
    assert_eq!(out, [0.25, -0.25, 0.25, -0.25]);
    assert_eq!(r.fill.from_source, 4);
    assert_eq!(r.fill.refills, 1);
    assert!(!r.fill.underrun);
    assert_eq!(rl.playback().pending_len(), 0);
}

#[test]
fn full_volume_unsigned_byte_output() {
    let mut bridge = AudioBridge::new();
    bridge.set_volume(100);
    bridge.publish_source(Source::new(vec![vec![1.0, -1.0], vec![0.0, 0.0]]));
    let mut rl = bridge.render_loop::<f32>(None);
    let mut out = [9u8; 4];
    rl.render(&mut out, 128u8, &take, &still_clock, &scale_u8);
    assert_eq!(out, [255, 0, 128, 128]);
}

#[test]
fn zero_volume_silences_and_full_volume_is_unity() {
    let mut bridge = AudioBridge::new();
    bridge.set_volume(0);
    bridge.publish_source(Source::new(vec![vec![0.75, -0.25, 1.0, -1.0]]));
    let mut rl = bridge.render_loop::<f32>(None);
    let mut out = [1.0f32; 2];
    rl.render(&mut out, 0.0f32, &take, &still_clock, &scale);
    assert_eq!(out, [0.0, 0.0]);
    bridge.set_volume(100);
    rl.render(&mut out, 0.0f32, &take, &still_clock, &scale);
    assert_eq!(out, [1.0, -1.0]);
}

#[test]
fn ready_source_is_polled_once_per_drained_chunk() {
    let mut bridge = AudioBridge::new();
    bridge.set_volume(100);
    let chunks = vec![vec![0.1, 0.2], vec![0.3, 0.4], vec![0.5, 0.6], vec![0.7, 0.8]];
    let mut rl = bridge.render_loop::<f32>(Some(Source::new(chunks)));
    let mut out = [0.0f32; 6];
    let r = rl.render(&mut out, 0.0f32, &take, &still_clock, &scale);
    assert_eq!(out, [0.1, 0.2, 0.3, 0.4, 0.5, 0.6]);
    assert_eq!(r.fill.refills, 3);
    assert!(!r.fill.underrun);
    assert_eq!(r.fill.last_refill.polls, 1);
    assert!(r.fill.last_refill.filled);
}

#[test]
fn buffered_samples_carry_over_to_the_next_callback() {
    let mut bridge = AudioBridge::new();
    bridge.set_volume(100);
    let mut rl = bridge.render_loop::<f32>(Some(Source::new(vec![vec![0.1, 0.2, 0.3, 0.4, 0.5]])));
    let mut out = [0.0f32; 2];
    let r = rl.render(&mut out, 0.0f32, &take, &still_clock, &scale);
    assert_eq!(out, [0.1, 0.2]);
    assert_eq!(r.fill.refills, 1);
    assert_eq!(rl.playback().pending_len(), 3);
    let r = rl.render(&mut out, 0.0f32, &take, &still_clock, &scale);
    assert_eq!(out, [0.3, 0.4]);
    assert_eq!(r.fill.refills, 0);
    assert_eq!(rl.playback().pending_len(), 1);
}

#[test]
fn starved_source_times_out_into_silence() {
    let now = Cell::new(0u64);
    let clock = || {
        let t = now.get();
        now.set(t + 1_000);
        t
    };
    let mut bridge = AudioBridge::new();
    bridge.set_volume(100);
    let mut rl = bridge.render_loop::<f32>(Some(Source::new(vec![vec![0.5, 0.5]])));
    let mut out = [1.0f32; 5];
    let r = rl.render(&mut out, 0.0f32, &take, &clock, &scale);
    assert_eq!(out, [0.5, 0.5, 0.0, 0.0, 0.0]);
    assert_eq!(r.fill.from_source, 2);
    assert!(r.fill.underrun);
    assert_eq!(r.fill.refills, 2);
    assert!(!r.fill.last_refill.filled);
    assert!(r.fill.last_refill.waited > REFILL_TIMEOUT_MICROS);
    assert_eq!(r.fill.last_refill.waited, REFILL_TIMEOUT_MICROS + 1_000);
    assert_eq!(r.fill.last_refill.polls, 21);
}

#[test]
fn source_that_never_has_data_gives_silence() {
    let now = Cell::new(0u64);
    let clock = || {
        let t = now.get();
        now.set(t + 7_000);
        t
    };
    let mut p: Playback<Source, f32> = Playback::new(Some(Source::new(Vec::new())));
    let mut out = [3u8; 4];
    let r = p.fill(&mut out, 128u8, 100, &take, &clock, &scale_u8);
    assert_eq!(out, [128u8; 4]);
    assert_eq!(r.from_source, 0);
    assert_eq!(r.refills, 1);
    assert!(r.underrun);
    assert_eq!(r.last_refill, Refill { filled: false, polls: 3, waited: 21_000 });
}

#[test]
fn empty_chunks_do_not_end_a_refill() {
    let mut p: Playback<Source, f32> =
        Playback::new(Some(Source::new(vec![Vec::new(), Vec::new(), vec![0.25]])));
    let r = p.refill(&take, &still_clock);
    assert!(r.filled);
    assert_eq!(r.polls, 3);
    assert_eq!(r.waited, 0);
    assert_eq!(p.pending_len(), 1);
}

#[test]
fn replacing_the_source_discards_old_samples() {
    let mut bridge = AudioBridge::new();
    bridge.set_volume(100);
    bridge.publish_source(Source::new(vec![vec![0.1, 0.1, 0.1, 0.1, 0.1, 0.1]]));
    let mut rl = bridge.render_loop::<f32>(None);
    let mut out = [0.0f32; 2];
    rl.render(&mut out, 0.0f32, &take, &still_clock, &scale);
    assert_eq!(out, [0.1, 0.1]);
    assert_eq!(rl.playback().pending_len(), 4);

    assert!(bridge.publish_source(Source::new(vec![vec![0.9, 0.8], vec![0.7, 0.6]])));
    let mut out = [0.0f32; 4];
    let r = rl.render(&mut out, 0.0f32, &take, &still_clock, &scale);
    assert_eq!(out, [0.9, 0.8, 0.7, 0.6]);
    assert_eq!(r.fill.refills, 2);
    assert!(rl.playback().has_source());
}

#[test]
fn one_source_is_adopted_per_callback() {
    let mut bridge = AudioBridge::new();
    bridge.set_volume(100);
    bridge.publish_source(Source::new(vec![vec![0.1; 8]]));
    bridge.publish_source(Source::new(vec![vec![0.2; 8]]));
    let mut rl = bridge.render_loop::<f32>(None);
    let mut out = [0.0f32; 2];
    rl.render(&mut out, 0.0f32, &take, &still_clock, &scale);
    assert_eq!(out, [0.1, 0.1]);
    rl.render(&mut out, 0.0f32, &take, &still_clock, &scale);
    assert_eq!(out, [0.2, 0.2]);
}

#[test]
fn adopt_without_incoming_keeps_state() {
    let mut p: Playback<Source, f32> = Playback::new(None);
    p.adopt(None);
    assert!(!p.has_source());
    p.adopt(Some(Source::new(vec![vec![0.5]])));
    assert!(p.has_source());
    assert_eq!(p.pending_len(), 0);
}

#[test]
fn negotiate_accepts_stereo() {
    assert_eq!(
        negotiate(Some(SampleFormat::F32), 2, 48_000),
        Ok(OutputConfig { format: SampleFormat::F32, channels: 2, sample_rate: 48_000 })
    );
    assert_eq!(
        negotiate(Some(SampleFormat::U8), 2, 44_100),
        Ok(OutputConfig { format: SampleFormat::U8, channels: 2, sample_rate: 44_100 })
    );
}

#[test]
fn negotiate_rejects_other_channel_counts() {
    assert_eq!(negotiate(Some(SampleFormat::I16), 1, 44_100), Err(AudioError::UnsupportedChannels(1)));
    assert_eq!(negotiate(Some(SampleFormat::I16), 6, 44_100), Err(AudioError::UnsupportedChannels(6)));
}

#[test]
fn negotiate_rejects_unknown_formats_first() {
    assert_eq!(negotiate(None, 2, 44_100), Err(AudioError::UnsupportedFormat));
    assert_eq!(negotiate(None, 1, 44_100), Err(AudioError::UnsupportedFormat));
}

#[test]
fn buttons_compare_by_variant() {
    let b = GBButton::Start;
    let c = b;
    assert_eq!(b, c);
    assert_ne!(GBButton::A, GBButton::B);
    assert_ne!(GBButton::Up, GBButton::NoButton);
}

#[test]
fn set_returns_the_stored_level() {
    let mut bridge: AudioBridge<Source> = AudioBridge::new();
    assert_eq!(bridge.set_volume(150), 100);
    assert_eq!(bridge.set_volume(64), 64);
    assert_eq!(bridge.volume(), 64);
    let mut v = Volume::new();
    assert_eq!(v.set(255), MAX_VOLUME);
    assert_eq!(v.set(0), 0);
}

#[test]
fn callback_reports_adoption_and_volume() {
    let mut bridge = AudioBridge::new();
    bridge.set_volume(80);
    let mut rl = bridge.render_loop::<f32>(None);
    let mut out = [0.0f32; 2];
    let r = rl.render(&mut out, 0.0f32, &take, &still_clock, &scale);
    assert!(!r.adopted);
    assert_eq!(r.volume, 80);
    bridge.publish_source(Source::new(vec![vec![0.5, 0.5]]));
    let r = rl.render(&mut out, 0.0f32, &take, &still_clock, &scale);
    assert!(r.adopted);
    assert_eq!(r.volume, 80);
    assert_eq!(out, [0.4, 0.4]);
    let r = rl.render(&mut out, 0.0f32, &take, &still_clock, &scale);
    assert!(!r.adopted);
}

#[test]
fn step_adopts_a_non_empty_chunk_even_when_late() {
    match refill_step(Some(vec![0.5f32]), 0, 1_000_000, 1) {
        RefillStep::Adopt(c) => assert_eq!(c, vec![0.5f32]),
        other => panic!("expected Adopt, got {:?}", other),
    }
}

#[test]
fn step_polls_again_within_the_timeout() {
    assert!(matches!(refill_step::<f32>(None, 100, 100, 1), RefillStep::PollAgain));
    assert!(matches!(
        refill_step::<f32>(None, 100, 100 + REFILL_TIMEOUT_MICROS, 5),
        RefillStep::PollAgain
    ));
    assert!(matches!(refill_step::<f32>(Some(Vec::new()), 0, 10, 2), RefillStep::PollAgain));
    assert!(matches!(refill_step::<f32>(None, 500, 20, 3), RefillStep::PollAgain));
}

#[test]
fn step_gives_up_past_the_timeout_or_out_of_polls() {
    assert!(matches!(
        refill_step::<f32>(None, 100, 101 + REFILL_TIMEOUT_MICROS, 2),
        RefillStep::GiveUp
    ));
    assert!(matches!(refill_step::<f32>(Some(Vec::new()), 0, 25_000, 9), RefillStep::GiveUp));
    assert!(matches!(refill_step::<f32>(None, 0, 0, MAX_POLLS), RefillStep::GiveUp));
}

#[test]
fn late_but_timely_source_is_played() {
    let now = Cell::new(0u64);
    let clock = || {
        let t = now.get();
        now.set(t + 4_000);
        t
    };
    let src = Source::new(Vec::new());
    let mut p: Playback<Source, f32> = Playback::new(Some(src));
    // not ready for the first polls, then a chunk arrives before the timeout
    let delayed = |s: &Source| {
        s.polls.set(s.polls.get() + 1);
        if s.polls.get() < 4 {
            None
        } else {
            Some(vec![0.5f32, -0.5])
        }
    };
    let mut out = [0.0f32; 2];
    let r = p.fill(&mut out, 0.0, 100, &delayed, &clock, &scale);
    assert_eq!(out, [0.5, -0.5]);
    assert!(!r.underrun);
    assert_eq!(r.last_refill, Refill { filled: true, polls: 4, waited: 16_000 });
}
