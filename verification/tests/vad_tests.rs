use voicegate::vad::{vad_window, VAD_WINDOW_LEN};

#[test]
fn window_pads_short_input_with_silence() {
    let w = vad_window(&vec![5, -6, 7]);
    assert_eq!(w.len(), VAD_WINDOW_LEN);
    assert_eq!(&w[..3], &[5, -6, 7]);
    assert!(w[3..].iter().all(|&s| s == 0));
}

#[test]
fn window_truncates_long_input() {
    let long: Vec<i16> = (0..300).map(|i| i as i16).collect();
    let w = vad_window(&long);
    assert_eq!(w.len(), VAD_WINDOW_LEN);
    for i in 0..VAD_WINDOW_LEN {
        assert_eq!(w[i], i as i16);
    }
}

#[test]
fn window_of_empty_input_is_all_silence() {
    let w = vad_window(&Vec::new());
    assert_eq!(w.len(), VAD_WINDOW_LEN);
    assert!(w.iter().all(|&s| s == 0));
}
