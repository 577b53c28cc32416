use voicegate::buffer::{UtteranceBuffer, DEFAULT_CAPACITY};
use voicegate::converter::{FrameConverter, DEFAULT_GAIN};
use voicegate::gate::{SpeechGate, DEFAULT_HYSTERESIS_MS};
use voicegate::ingest::{ingest_classified, ingest_frame};
use voicegate::worker::worker_poll;
use webrtc_vad::{SampleRate, Vad, VadMode};

#[test]
fn worker_never_drains_while_speaking() {
    let mut buf = UtteranceBuffer::new(16);
    let mut gate = SpeechGate::new(900, 0);
    gate.step(true, 10);
    assert!(gate.speaking);
    buf.append(&vec![1, 2, 3]);
    assert!(worker_poll(&gate, &mut buf).is_none());
    assert_eq!(buf.len(), 3);
}

#[test]
fn worker_skips_empty_buffer() {
    let mut buf = UtteranceBuffer::new(16);
    let gate = SpeechGate::new(900, 0);
    assert!(worker_poll(&gate, &mut buf).is_none());
}

#[test]
fn worker_drains_closed_utterance() {
    let mut buf = UtteranceBuffer::new(16);
    let mut gate = SpeechGate::new(900, 0);
    gate.step(true, 10);
    buf.append(&vec![1, 2, 3]);
    gate.step(false, 900);
    assert!(gate.speaking);
    gate.step(false, 911);
    assert!(!gate.speaking);
    let drained = worker_poll(&gate, &mut buf).expect("utterance ready");
    assert_eq!(drained, vec![1, 2, 3]);
    assert!(worker_poll(&gate, &mut buf).is_none());
}

/// Drive the full pipeline over simulated 10 ms callbacks: the converter on
/// 48 kHz stereo frames, verdicts supplied per frame, and a worker polled
/// every 50 ms.
fn run_pipeline(verdicts: &[bool]) -> (Vec<usize>, UtteranceBuffer, SpeechGate) {
    let conv = FrameConverter::new(2, 48000, DEFAULT_GAIN);
    let mut gate = SpeechGate::new(DEFAULT_HYSTERESIS_MS, 0);
    let mut buf = UtteranceBuffer::new(DEFAULT_CAPACITY);
    let mut drains: Vec<usize> = Vec::new();
    for (k, &is_voice) in verdicts.iter().enumerate() {
        let now_ms = 10 * k as u64;
        // One 10 ms hardware frame: 480 stereo sample pairs at 48 kHz.
        let mut frame: Vec<i16> = Vec::new();
        for _ in 0..480 {
            frame.push(if is_voice { 1000 } else { 0 });
            frame.push(0);
        }
        let converted = conv.convert(&frame);
        assert_eq!(converted.len(), 160);
        ingest_classified(&mut gate, &mut buf, &converted, is_voice, now_ms);
        if k % 5 == 4 {
            if let Some(u) = worker_poll(&gate, &mut buf) {
                drains.push(u.len());
            }
        }
    }
    // A few idle poll ticks after the feed ends.
    for _ in 0..4 {
        if let Some(u) = worker_poll(&gate, &mut buf) {
            drains.push(u.len());
        }
    }
    (drains, buf, gate)
}

#[test]
fn single_burst_drains_once_with_hysteresis_tail() {
    // 500 ms of voice, then 1000 ms of silence.
    let mut verdicts = vec![true; 50];
    verdicts.extend(vec![false; 100]);
    let (drains, buf, gate) = run_pipeline(&verdicts);
    assert_eq!(drains.len(), 1);
    // 500 ms of voice plus the 900 ms hysteresis tail of silent frames,
    // appended while the speech gate stayed open, at 160 samples per 10 ms frame.
    // The speech gate closes at the first silent frame past the window.
    assert_eq!(drains[0], 160 * (50 + 90));
    assert!(!gate.speaking);
    assert_eq!(buf.len(), 0);
}

#[test]
fn two_bursts_within_window_merge_into_one_utterance() {
    // Two 200 ms voice bursts separated by 500 ms of silence (< 900 ms),
    // then 1500 ms of silence.
    let mut verdicts = vec![true; 20];
    verdicts.extend(vec![false; 50]);
    verdicts.extend(vec![true; 20]);
    verdicts.extend(vec![false; 150]);
    let (drains, _buf, gate) = run_pipeline(&verdicts);
    assert_eq!(drains.len(), 1);
    // Everything from the first voice frame through the trailing tail is one
    // utterance: 20 + 50 + 20 voice/pause frames plus the 90-frame tail.
    assert_eq!(drains[0], 160 * (20 + 50 + 20 + 90));
    assert!(!gate.speaking);
}

#[test]
fn interleaved_append_and_drain_lose_no_samples() {
    // Interleave appends (audio side) with drains (worker side) under a
    // deliberately tiny capacity, checking against a reference model: every
    // drained sample sequence is exactly the model's contents (the last
    // `capacity` appended samples since the previous drain, in order).
    let capacity = 7usize;
    let mut buf = UtteranceBuffer::new(capacity);
    let mut model: Vec<i16> = Vec::new();
    let mut next: i16 = 0;
    let mut drained_total = 0usize;
    let mut seed: u64 = 0x2545F4914F6CDD1D;
    for _ in 0..2000 {
        seed = seed.wrapping_mul(6364136223846793005).wrapping_add(1442695040888963407);
        let choice = (seed >> 60) as usize;
        if choice < 12 {
            let len = choice % 4;
            let mut chunk: Vec<i16> = Vec::new();
            for _ in 0..len {
                chunk.push(next);
                next = next.wrapping_add(1);
            }
            buf.append(&chunk);
            model.extend_from_slice(&chunk);
            if model.len() > capacity {
                model.drain(0..model.len() - capacity);
            }
        } else {
            let got = buf.drain_all();
            assert_eq!(got, model);
            drained_total += got.len();
            model.clear();
        }
        assert_eq!(buf.len(), model.len());
    }
    assert!(drained_total > 0);
}

#[test]
fn ingest_frame_with_real_classifier_on_silence() {
    // All-zero audio: the classifier reports no voice, the speech gate stays closed
    // and nothing is buffered.
    let conv = FrameConverter::new(2, 48000, DEFAULT_GAIN);
    let mut vad = Vad::new_with_rate_and_mode(SampleRate::Rate16kHz, VadMode::VeryAggressive);
    let mut gate = SpeechGate::new(DEFAULT_HYSTERESIS_MS, 0);
    let mut buf = UtteranceBuffer::new(DEFAULT_CAPACITY);
    for k in 0..20u64 {
        let frame = vec![0i16; 960];
        ingest_frame(&conv, &mut vad, &mut gate, &mut buf, &frame, 10 * k);
    }
    assert!(!gate.speaking);
    assert_eq!(buf.len(), 0);
    assert!(worker_poll(&gate, &mut buf).is_none());
}
