//! Per-callback frame conversion: channel downmix, sample-rate conversion to
//! 16 kHz, and a fixed gain.
//!
//! Samples are 16-bit signed PCM throughout the library; the capture edge
//! converts the device's float samples to this domain one for one. Downmix
//! deterministically selects the first channel of each interleaved frame,
//! resampling is nearest-neighbour index selection with the output length
//! pinned to `round(frames * 16000 / src_rate)`, and the gain is a saturating
//! scalar multiply.

use vstd::prelude::*;
use vstd::arithmetic::div_mod::{lemma_fundamental_div_mod, lemma_div_is_ordered, lemma_div_pos_is_pos};
use vstd::arithmetic::mul::lemma_mul_inequality;

verus! {

/// The pipeline's working sample rate in Hz.
pub const TARGET_RATE: u32 = 16000;

/// Default gain multiplier compensating for quiet microphones.
pub const DEFAULT_GAIN: u16 = 5;

/// Mono view of an interleaved frame: the first channel of each whole frame.
pub open spec fn downmix_spec(s: Seq<i16>, channels: nat) -> Seq<i16> {
    Seq::new(s.len() / channels, |i: int| s[i * channels as int])
}

/// Output length of the rate conversion: `round(m * 16000 / sr)`, half up.
pub open spec fn resampled_len(m: nat, src_rate: nat) -> nat {
    (m * 16000 + src_rate / 2) / src_rate
}

/// Nearest-neighbour sample-rate conversion from `src_rate` to 16000 Hz.
pub open spec fn resample_spec(s: Seq<i16>, src_rate: nat) -> Seq<i16> {
    Seq::new(resampled_len(s.len(), src_rate), |j: int| s[j * src_rate as int / 16000])
}

/// Clamp an integer into the 16-bit signed range.
pub open spec fn clamp16(v: int) -> int {
    if v > 32767 { 32767 } else if v < -32768 { -32768 } else { v }
}

/// Saturating gain applied to every sample.
pub open spec fn gain_spec(s: Seq<i16>, gain: int) -> Seq<i16> {
    Seq::new(s.len(), |i: int| clamp16(s[i] * gain) as i16)
}

/// The whole conversion: downmix, then resample, then gain.
pub open spec fn convert_spec(s: Seq<i16>, channels: nat, src_rate: nat, gain: int) -> Seq<i16> {
    gain_spec(resample_spec(downmix_spec(s, channels), src_rate), gain)
}

/// Configuration of the conversion done once per hardware callback.
#[derive(Clone, Copy, PartialEq, Eq, Structural, Debug)]
pub struct FrameConverter {
    /// Interleaved channel count of the capture device.
    pub channels: usize,
    /// Native sample rate of the capture device in Hz.
    pub src_rate: u32,
    /// Gain multiplier.
    pub gain: u16,
}

/// Every output index of the resampler maps to a valid input index.
proof fn lemma_resample_index_in_range(m: nat, sr: nat, j: int)
    requires
        sr >= 1,
        0 <= j < resampled_len(m, sr),
    ensures
        0 <= j * sr / 16000 < m,
{
    let q: int = (m * 16000 + sr / 2) as int;
    let l: int = q / (sr as int);
    // l * sr <= q
    lemma_fundamental_div_mod(q as int, sr as int);
    assert(l * sr as int <= q) by (nonlinear_arith)
        requires
            q == sr as int * l + q % sr as int,
            0 <= q % sr as int;
    // j <= l - 1, so j * sr <= (l - 1) * sr = l * sr - sr <= q - sr < m * 16000
    lemma_mul_inequality(j, l - 1, sr as int);
    assert(j * sr as int <= (l - 1) * sr as int);
    assert((l - 1) * sr as int == l * sr as int - sr as int) by (nonlinear_arith);
    assert((sr as int) / 2 < sr as int);
    assert(j * (sr as int) < m * 16000);
    // hence j * sr / 16000 <= (m * 16000 - 1) / 16000 == m - 1
    lemma_div_is_ordered(j * sr as int, m * 16000 - 1, 16000);
    assert((m * 16000 - 1) / 16000 == m - 1) by (nonlinear_arith)
        requires
            m >= 1;
    assert(j >= 0);
    lemma_div_pos_is_pos(j * sr as int, 16000);
    assert(j * sr as int >= 0) by (nonlinear_arith)
        requires
            j >= 0,
            sr >= 1;
    if m == 0 {
        // then l == (sr / 2) / sr == 0, contradicting j < l
        assert(q == (sr as int) / 2);
        assert(l == 0) by (nonlinear_arith)
            requires
                l == (sr as int / 2) / sr as int,
                sr >= 1;
    }
}

impl FrameConverter {
    /// Build a converter for a device with the given layout and rate.
    pub fn new(channels: usize, src_rate: u32, gain: u16) -> (c: FrameConverter)
        requires
            channels >= 1,
            src_rate >= 1,
        ensures
            c == (FrameConverter { channels, src_rate, gain }),
    {
        FrameConverter { channels, src_rate, gain }
    }

    /// Whether a converter's configuration is usable.
    pub open spec fn wf(self) -> bool {
        self.channels >= 1 && self.src_rate >= 1
    }

    /// Convert one interleaved hardware frame to mono 16 kHz gained samples.
    ///
    /// Total over any finite input: a zero-length frame yields a zero-length
    /// output. The output length is exactly
    /// `round(frame.len() / channels * 16000 / src_rate)`.
    pub fn convert(&self, frame: &Vec<i16>) -> (out: Vec<i16>)
        requires
            self.wf(),
            frame@.len() * 16000 + self.src_rate <= usize::MAX,
        ensures
            out@ == convert_spec(frame@, self.channels as nat, self.src_rate as nat, self.gain as int),
            out@.len() == resampled_len(frame@.len() / self.channels as nat, self.src_rate as nat),
    {
        let ghost mono_spec = downmix_spec(frame@, self.channels as nat);

        // Downmix: first channel of each whole frame.
        let m: usize = frame.len() / self.channels;
        let mut mono: Vec<i16> = Vec::new();
        let mut i: usize = 0;
        proof {
            assert(m as int == frame@.len() as int / self.channels as int);
            assert(forall|k: int| 0 <= k < m ==> #[trigger] (k * self.channels as int) < frame@.len() && k * self.channels as int >= 0) by {
                assert forall|k: int| 0 <= k < m implies #[trigger] (k * self.channels as int) < frame@.len() && k * self.channels as int >= 0 by {
                    lemma_fundamental_div_mod(frame@.len() as int, self.channels as int);
                    assert(k * self.channels as int <= (m - 1) * self.channels as int) by (nonlinear_arith)
                        requires
                            k <= m - 1,
                            self.channels >= 1;
                    assert((m - 1) * (self.channels as int) < frame@.len()) by (nonlinear_arith)
                        requires
                            frame@.len() as int == self.channels as int * (m as int) + frame@.len() as int % self.channels as int,
                            0 <= frame@.len() as int % self.channels as int,
                            self.channels >= 1;
                    assert(k * self.channels as int >= 0) by (nonlinear_arith)
                        requires
                            k >= 0,
                            self.channels >= 1;
                }
            }
        }
        while i < m
            invariant
                i <= m,
                m == frame@.len() / self.channels as nat,
                self.channels >= 1,
                frame@.len() <= usize::MAX,
                mono@ =~= mono_spec.take(i as int),
                mono_spec == downmix_spec(frame@, self.channels as nat),
                forall|k: int| 0 <= k < m ==> #[trigger] (k * self.channels as int) < frame@.len() && k * self.channels as int >= 0,
            decreases m - i,
        {
            proof {
                assert((i as int) * (self.channels as int) < frame@.len());
            }
            let idx: usize = i * self.channels;
            mono.push(frame[idx]);
            i += 1;
            proof {
                assert(mono@ =~= mono_spec.take(i as int));
            }
        }
        proof {
            assert(mono@ =~= mono_spec);
        }

        // Resample to the target rate.
        let sr: usize = self.src_rate as usize;
        let l: usize = (m * 16000 + sr / 2) / sr;
        let ghost res_spec = resample_spec(mono_spec, self.src_rate as nat);
        proof {
            assert(res_spec.len() == l as int);
        }
        let mut resampled: Vec<i16> = Vec::new();
        let mut j: usize = 0;
        while j < l
            invariant
                j <= l,
                sr == self.src_rate as int,
                sr >= 1,
                mono@ == mono_spec,
                l as int == resampled_len(mono_spec.len(), self.src_rate as nat),
                res_spec == resample_spec(mono_spec, self.src_rate as nat),
                mono_spec.len() * 16000 + sr <= usize::MAX,
                resampled@ =~= res_spec.take(j as int),
            decreases l - j,
        {
            proof {
                lemma_resample_index_in_range(mono_spec.len(), self.src_rate as nat, j as int);
                assert(j * sr <= mono_spec.len() * 16000) by (nonlinear_arith)
                    requires
                        (j as int) * (sr as int) < mono_spec.len() * 16000 || mono_spec.len() == 0,
                        j >= 0,
                        sr >= 1,
                        0 <= j as int * sr as int / 16000 < mono_spec.len();
            }
            let src_idx: usize = j * sr / 16000;
            resampled.push(mono[src_idx]);
            j += 1;
            proof {
                assert(resampled@ =~= res_spec.take(j as int));
            }
        }
        proof {
            assert(resampled@ =~= res_spec);
        }

        // Saturating gain.
        let g: i64 = self.gain as i64;
        let ghost out_spec = gain_spec(res_spec, self.gain as int);
        let mut out: Vec<i16> = Vec::new();
        let mut k: usize = 0;
        while k < resampled.len()
            invariant
                k <= resampled@.len(),
                resampled@ == res_spec,
                g == self.gain as int,
                out_spec == gain_spec(res_spec, self.gain as int),
                out@ =~= out_spec.take(k as int),
            decreases resampled@.len() - k,
        {
            let x: i16 = resampled[k];
            proof {
                assert(-32768 * 65535 <= (x as int) * (g as int) <= 32767 * 65535) by (nonlinear_arith)
                    requires
                        -32768 <= x as int <= 32767,
                        0 <= g as int <= 65535;
            }
            let v: i64 = (x as i64) * g;
            let clamped: i16 = if v > 32767 {
                32767
            } else if v < -32768 {
                -32768
            } else {
                v as i16
            };
            out.push(clamped);
            k += 1;
            proof {
                assert(out@ =~= out_spec.take(k as int));
            }
        }
        proof {
            assert(out@ =~= out_spec);
            assert(out@ == convert_spec(frame@, self.channels as nat, self.src_rate as nat, self.gain as int));
        }
        out
    }
}

} // verus!
