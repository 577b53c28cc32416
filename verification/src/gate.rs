//! Debounced voice-activity gate.
//!
//! The speech gate keeps a `speaking` flag with trailing hysteresis: the first frame
//! classified as voice opens the speech gate, and the speech gate closes only after more
//! than `hysteresis_ms` milliseconds have passed with no frame classified as
//! voice. Short pauses inside an utterance therefore do not fragment it.

use vstd::prelude::*;

verus! {

/// Milliseconds of trailing silence required before an open gate closes.
pub const DEFAULT_HYSTERESIS_MS: u64 = 900;

/// The observable transition made by one gate step.
#[derive(Clone, Copy, PartialEq, Eq, Structural, Debug)]
pub enum GateEvent {
    /// The speech gate just opened: speech started.
    Started,
    /// The speech gate just closed: speech ended.
    Ended,
    /// No transition this step.
    Unchanged,
}

/// Debounce state machine over per-frame voice verdicts.
#[derive(Clone, Copy, PartialEq, Eq, Structural, Debug)]
pub struct SpeechGate {
    /// Whether the stream is currently considered inside an utterance.
    pub speaking: bool,
    /// Timestamp (ms, from a monotonic clock) of the last voice-classified frame.
    pub last_voice_at: u64,
    /// Hysteresis window in milliseconds.
    pub hysteresis_ms: u64,
}

impl SpeechGate {
    /// The state after feeding one verdict at time `now_ms`.
    pub open spec fn step_spec(self, is_voice: bool, now_ms: u64) -> SpeechGate {
        if is_voice {
            SpeechGate { speaking: true, last_voice_at: now_ms, hysteresis_ms: self.hysteresis_ms }
        } else if self.speaking && now_ms - self.last_voice_at > self.hysteresis_ms {
            SpeechGate { speaking: false, last_voice_at: self.last_voice_at, hysteresis_ms: self.hysteresis_ms }
        } else {
            self
        }
    }

    /// The event emitted by one gate step.
    pub open spec fn event_spec(self, is_voice: bool, now_ms: u64) -> GateEvent {
        if is_voice && !self.speaking {
            GateEvent::Started
        } else if !is_voice && self.speaking && now_ms - self.last_voice_at > self.hysteresis_ms {
            GateEvent::Ended
        } else {
            GateEvent::Unchanged
        }
    }

    /// A fresh, closed gate. `created_at_ms` seeds the voice timestamp so that
    /// later steps can assume a monotonic clock.
    pub fn new(hysteresis_ms: u64, created_at_ms: u64) -> (g: SpeechGate)
        ensures
            g == (SpeechGate { speaking: false, last_voice_at: created_at_ms, hysteresis_ms }),
    {
        SpeechGate { speaking: false, last_voice_at: created_at_ms, hysteresis_ms }
    }

    /// Feed one voice verdict, taken at time `now_ms` of a monotonic clock.
    pub fn step(&mut self, is_voice: bool, now_ms: u64) -> (ev: GateEvent)
        requires
            old(self).last_voice_at <= now_ms,
        ensures
            *final(self) == old(self).step_spec(is_voice, now_ms),
            ev == old(self).event_spec(is_voice, now_ms),
            final(self).last_voice_at <= now_ms,
    {
        if is_voice {
            self.last_voice_at = now_ms;
            if !self.speaking {
                self.speaking = true;
                GateEvent::Started
            } else {
                GateEvent::Unchanged
            }
        } else {
            if self.speaking && now_ms - self.last_voice_at > self.hysteresis_ms {
                self.speaking = false;
                GateEvent::Ended
            } else {
                GateEvent::Unchanged
            }
        }
    }
}

/// The speech gate state after a run of silent steps at the given times.
pub open spec fn run_silence(g: SpeechGate, times: Seq<u64>) -> SpeechGate
    decreases times.len(),
{
    if times.len() == 0 {
        g
    } else {
        run_silence(g.step_spec(false, times[0]), times.skip(1))
    }
}

/// Law: an open gate stays open through any run of silent frames whose times
/// all lie within the hysteresis window of the last voice-classified frame,
/// and the recorded voice timestamp does not move.
pub proof fn lemma_gate_holds_through_pause(g: SpeechGate, times: Seq<u64>)
    requires
        g.speaking,
        forall|i: int| 0 <= i < times.len() ==> #[trigger] times[i] <= g.last_voice_at + g.hysteresis_ms,
        forall|i: int| 0 <= i < times.len() ==> g.last_voice_at <= #[trigger] times[i],
    ensures
        run_silence(g, times) == g,
    decreases times.len(),
{
    if times.len() > 0 {
        assert(g.step_spec(false, times[0]) == g);
        assert(forall|i: int| 0 <= i < times.skip(1).len() ==> #[trigger] times.skip(1)[i] == times[i + 1]);
        lemma_gate_holds_through_pause(g, times.skip(1));
    }
}

/// Law: whenever the speech gate is speaking after a step, the last
/// voice-classified frame lies within the hysteresis window of that step's
/// time, so the `speaking` flag is never stale by more than one check.
pub proof fn lemma_speaking_implies_recent_voice(g: SpeechGate, is_voice: bool, now_ms: u64)
    requires
        g.last_voice_at <= now_ms,
    ensures
        g.step_spec(is_voice, now_ms).speaking ==>
            now_ms - g.step_spec(is_voice, now_ms).last_voice_at <= g.hysteresis_ms,
{
}

/// Law: an open gate closes at the first silent frame checked more than the
/// hysteresis window after the last voice-classified frame.
pub proof fn lemma_gate_closes_after_window(g: SpeechGate, now_ms: u64)
    requires
        g.speaking,
        g.last_voice_at + g.hysteresis_ms < now_ms,
    ensures
        !g.step_spec(false, now_ms).speaking,
        g.event_spec(false, now_ms) == GateEvent::Ended,
{
}

} // verus!
