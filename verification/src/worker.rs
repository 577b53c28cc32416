//! The transcription worker's poll decision.
//!
//! Once per poll tick the worker snapshots the speech gate and the buffer length,
//! and drains only when an utterance has closed: the speech gate is not speaking and
//! the buffer is non-empty. It never drains while the speech gate is open, so an
//! utterance is never truncated mid-speech. The blocking collaborators
//! (speech-to-text, language model, synthesis) consume the drained samples
//! outside the library, off the real-time path.

use vstd::prelude::*;
use crate::buffer::UtteranceBuffer;
use crate::gate::SpeechGate;

verus! {

/// One worker iteration: drain a finished utterance, or do nothing.
///
/// Returns `Some` with every buffered sample, oldest first, exactly when the
/// gate is closed and the buffer is non-empty; the buffer is then empty.
/// While `gate.speaking` holds, the buffer is never drained.
pub fn worker_poll(gate: &SpeechGate, buf: &mut UtteranceBuffer) -> (utterance: Option<Vec<i16>>)
    requires
        old(buf).wf(),
    ensures
        final(buf).wf(),
        final(buf).capacity() == old(buf).capacity(),
        gate.speaking ==> utterance is None,
        utterance is None ==> *final(buf) == *old(buf),
        !gate.speaking && old(buf).view().len() > 0 ==> utterance is Some,
        utterance matches Some(u) ==> {
            &&& !gate.speaking
            &&& u@ == old(buf).view()
            &&& u@.len() > 0
            &&& final(buf).view() == Seq::<i16>::empty()
        },
{
    if !gate.speaking && buf.len() > 0 {
        Some(buf.drain_all())
    } else {
        None
    }
}

} // verus!
