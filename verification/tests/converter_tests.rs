use voicegate::converter::{FrameConverter, TARGET_RATE};

fn stereo_frame(value: i16, frames: usize) -> Vec<i16> {
    let mut v = Vec::new();
    for _ in 0..frames {
        v.push(value);
        v.push(-value);
    }
    v
}

#[test]
fn convert_length_matches_round_formula() {
    // 480 stereo frames at 48000 Hz -> round(480 * 16000 / 48000) = 160 samples.
    let conv = FrameConverter::new(2, 48000, 5);
    let frame = stereo_frame(100, 480);
    let out = conv.convert(&frame);
    assert_eq!(out.len(), 480 * TARGET_RATE as usize / 48000);
    assert_eq!(out.len(), 160);
}

#[test]
fn convert_length_rounds_half_up() {
    let conv = FrameConverter::new(1, 48000, 1);
    // 1 mono sample: round(1 * 16000 / 48000) = round(0.333) = 0.
    let out = conv.convert(&vec![7]);
    assert_eq!(out.len(), 0);
    // 2 mono samples: round(2 * 16000 / 48000) = round(0.667) = 1.
    let out = conv.convert(&vec![7, 7]);
    assert_eq!(out.len(), 1);
    // 3 mono samples: exactly 1.
    let out = conv.convert(&vec![7, 7, 7]);
    assert_eq!(out.len(), 1);
}

#[test]
fn convert_empty_frame_yields_empty_output() {
    let conv = FrameConverter::new(2, 48000, 5);
    let out = conv.convert(&Vec::new());
    assert_eq!(out.len(), 0);
}

#[test]
fn convert_applies_gain_to_first_channel() {
    // Constant 100 on channel 0: downmix selects it, gain 5 makes 500.
    let conv = FrameConverter::new(2, 48000, 5);
    let frame = stereo_frame(100, 480);
    let out = conv.convert(&frame);
    assert_eq!(out.len(), 160);
    for s in &out {
        assert_eq!(*s, 500);
    }
}

#[test]
fn convert_gain_saturates() {
    let conv = FrameConverter::new(1, 16000, 5);
    let out = conv.convert(&vec![30000, -30000, 10]);
    assert_eq!(out, vec![32767, -32768, 50]);
}

#[test]
fn convert_same_rate_is_identity_at_unit_gain() {
    let conv = FrameConverter::new(1, 16000, 1);
    let input = vec![1, -2, 3, -4, 5];
    let out = conv.convert(&input);
    assert_eq!(out, input);
}

#[test]
fn convert_downsamples_by_index_selection() {
    // 32000 Hz mono, 4 samples: round(4 * 16000 / 32000) = 2 outputs,
    // taken at source indices 0 and 2.
    let conv = FrameConverter::new(1, 32000, 1);
    let out = conv.convert(&vec![1, 2, 3, 4]);
    assert_eq!(out, vec![1, 3]);
}

#[test]
fn convert_upsamples_by_repetition() {
    // 8000 Hz mono doubles: each source sample appears twice.
    let conv = FrameConverter::new(1, 8000, 1);
    let out = conv.convert(&vec![10, 20]);
    assert_eq!(out, vec![10, 10, 20, 20]);
}
