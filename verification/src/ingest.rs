//! The per-callback ingest step: convert, classify, gate, append.
//!
//! `ingest_classified` is the exact, deterministic core: it takes the voice
//! verdict as an argument and fully determines the next gate state and buffer
//! contents. `ingest_frame` is the real-time entry point: it converts the raw
//! hardware frame, asks the black-box classifier for the verdict, and then
//! behaves as `ingest_classified` for whichever verdict came back.

use vstd::prelude::*;
use webrtc_vad::Vad;
use crate::buffer::{ring_append_spec, UtteranceBuffer};
use crate::converter::{convert_spec, FrameConverter};
use crate::gate::{GateEvent, SpeechGate};
use crate::vad::classify_frame;

verus! {

/// The buffer contents after one ingest step: samples are appended exactly
/// when the speech gate is open after the step.
pub open spec fn ingest_buffer_spec(
    gate: SpeechGate,
    buf: Seq<i16>,
    samples: Seq<i16>,
    cap: nat,
    is_voice: bool,
    now_ms: u64,
) -> Seq<i16> {
    if gate.step_spec(is_voice, now_ms).speaking {
        ring_append_spec(buf, samples, cap)
    } else {
        buf
    }
}

/// Feed the samples of one callback together with their voice verdict.
/// Steps the speech gate, then appends the samples exactly when it is open
/// after the step.
pub fn ingest_classified(
    gate: &mut SpeechGate,
    buf: &mut UtteranceBuffer,
    samples: &Vec<i16>,
    is_voice: bool,
    now_ms: u64,
) -> (ev: GateEvent)
    requires
        old(gate).last_voice_at <= now_ms,
        old(buf).wf(),
    ensures
        *final(gate) == old(gate).step_spec(is_voice, now_ms),
        ev == old(gate).event_spec(is_voice, now_ms),
        final(gate).last_voice_at <= now_ms,
        final(buf).wf(),
        final(buf).capacity() == old(buf).capacity(),
        final(buf).view() == ingest_buffer_spec(
            *old(gate), old(buf).view(), samples@, old(buf).capacity(), is_voice, now_ms),
{
    let ev = gate.step(is_voice, now_ms);
    if gate.speaking {
        buf.append(samples);
    }
    ev
}

/// The real-time callback body: convert the raw frame, classify it, and
/// ingest the converted samples under whichever verdict the classifier gave.
/// A classifier failure acts as a "no voice" verdict, so the callback always
/// returns promptly and never propagates an error.
pub fn ingest_frame(
    conv: &FrameConverter,
    vad: &mut Vad,
    gate: &mut SpeechGate,
    buf: &mut UtteranceBuffer,
    frame: &Vec<i16>,
    now_ms: u64,
) -> (ev: GateEvent)
    requires
        conv.wf(),
        frame@.len() * 16000 + conv.src_rate <= usize::MAX,
        old(gate).last_voice_at <= now_ms,
        old(buf).wf(),
    ensures
        final(gate).last_voice_at <= now_ms,
        final(buf).wf(),
        final(buf).capacity() == old(buf).capacity(),
        exists|is_voice: bool| {
            let converted = convert_spec(
                frame@, conv.channels as nat, conv.src_rate as nat, conv.gain as int);
            &&& *final(gate) == #[trigger] old(gate).step_spec(is_voice, now_ms)
            &&& ev == old(gate).event_spec(is_voice, now_ms)
            &&& final(buf).view() == ingest_buffer_spec(
                *old(gate), old(buf).view(), converted, old(buf).capacity(), is_voice, now_ms)
        },
{
    let converted = conv.convert(frame);
    let is_voice = classify_frame(vad, &converted);
    let ev = ingest_classified(gate, buf, &converted, is_voice, now_ms);
    proof {
        let converted_spec = convert_spec(
            frame@, conv.channels as nat, conv.src_rate as nat, conv.gain as int);
        assert(converted@ == converted_spec);
    }
    ev
}

} // verus!
