//! Voice-activity classifier boundary.
//!
//! The acoustic decision itself is the black-box `webrtc_vad::Vad`. The
//! library prepares the classifier's fixed analysis window (10 ms at 16 kHz =
//! 160 samples, truncating or zero-padding) and treats a classifier failure
//! as "no voice", so that a bad frame can never abort the audio callback.

use vstd::prelude::*;
use webrtc_vad::Vad;

verus! {

/// Samples in the classifier's analysis window: 10 ms at 16 kHz.
pub const VAD_WINDOW_LEN: usize = 160;

#[verifier::external_type_specification]
#[verifier::external_body]
pub struct ExVad(Vad);

/// The analysis window fed to the classifier: the first 160 samples,
/// zero-padded when fewer are available.
pub open spec fn window_spec(s: Seq<i16>) -> Seq<i16> {
    if s.len() >= 160 {
        s.take(160)
    } else {
        s + Seq::new((160 - s.len()) as nat, |i: int| 0i16)
    }
}

/// Build the classifier's analysis window from converted samples.
pub fn vad_window(samples: &Vec<i16>) -> (w: Vec<i16>)
    ensures
        w@ == window_spec(samples@),
        w@.len() == 160,
{
    let mut w: Vec<i16> = Vec::new();
    let n = samples.len();
    let mut i: usize = 0;
    while i < n && i < VAD_WINDOW_LEN
        invariant
            i <= n,
            i <= 160,
            n == samples@.len(),
            w@ =~= samples@.take(i as int),
        decreases n - i,
    {
        w.push(samples[i]);
        i += 1;
    }
    while i < VAD_WINDOW_LEN
        invariant
            samples@.len() >= 160 ==> i == 160 && w@ =~= samples@.take(160),
            samples@.len() < 160 ==> {
                &&& samples@.len() <= i <= 160
                &&& w@ =~= samples@ + Seq::new((i - samples@.len()) as nat, |k: int| 0i16)
            },
        decreases 160 - i,
    {
        w.push(0);
        i += 1;
        proof {
            if samples@.len() < 160 {
                assert(w@ =~= samples@ + Seq::new((i - samples@.len()) as nat, |k: int| 0i16));
            }
        }
    }
    proof {
        assert(w@ =~= window_spec(samples@));
    }
    w
}

/// Relies on `webrtc_vad::Vad::is_voice_segment`: a voice decision for one
/// frame of 16-bit samples; `Err` means the frame length is not one the
/// classifier accepts. The decision depends on the classifier's internal
/// state as well as the samples, so nothing more is promised of it. The
/// callee indexes the first sample, so the window must not be empty.
#[verifier::external_body]
fn vad_is_voice(vad: &mut Vad, window: &Vec<i16>) -> (r: Result<bool, ()>)
    requires
        window@.len() > 0,
{
    vad.is_voice_segment(window.as_slice())
}

/// Classify converted samples: build the fixed window, ask the classifier,
/// and fail safe toward "no voice" on a classifier error.
pub fn classify_frame(vad: &mut Vad, samples: &Vec<i16>) -> bool {
    let window = vad_window(samples);
    match vad_is_voice(vad, &window) {
        Ok(v) => v,
        Err(()) => false,
    }
}

} // verus!
