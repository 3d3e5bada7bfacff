use vstd::prelude::*;

use crate::text::{
    ends_sentence, ends_sentence_spec, trim, trim_spec, word_count, word_count_spec,
};

verus! {

/// Confidence is carried in basis points: this value stands for 1.0.
pub const CONFIDENCE_SCALE: u16 = 10000;

/// A non-final event below this confidence (0.6) is taken for noise.
pub const MIN_CONFIDENCE: u16 = 6000;

/// An interim event needs at least this many words to be acted upon.
pub const MIN_WORDS: usize = 4;

/// An interim event with enough words also needs this many characters,
/// unless it ends a sentence.
pub const MIN_CHARS: usize = 14;

/// One recognition result of the streaming recognizer.
pub struct TranscriptEvent {
    pub text: String,
    /// In basis points (see `CONFIDENCE_SCALE`).
    pub confidence: u16,
    pub is_final: bool,
}

/// What the readiness filter does with an event.
#[derive(PartialEq, Eq, Structural, Debug, Clone, Copy)]
pub enum TranscriptVerdict {
    /// Dropped: an interim result below the minimum confidence.
    LowConfidence,
    /// Dropped: an interim result too short to act upon.
    NotReady,
    /// Handed on to the response pipeline.
    Ready,
}

/// A final event, or one at or above the minimum confidence, passes the confidence gate.
pub open spec fn passes_confidence_spec(confidence: u16, is_final: bool) -> bool {
    is_final || confidence >= MIN_CONFIDENCE
}

/// An interim text is worth acting upon: enough words, and either long enough
/// or a complete sentence.
pub open spec fn has_content_spec(text: Seq<char>) -> bool {
    word_count_spec(text) >= MIN_WORDS && (text.len() >= MIN_CHARS || ends_sentence_spec(text))
}

pub open spec fn is_ready_spec(text: Seq<char>, is_final: bool) -> bool {
    is_final || has_content_spec(text)
}

pub open spec fn verdict_spec(text: Seq<char>, confidence: u16, is_final: bool) -> TranscriptVerdict {
    if !passes_confidence_spec(confidence, is_final) {
        TranscriptVerdict::LowConfidence
    } else if !is_ready_spec(text, is_final) {
        TranscriptVerdict::NotReady
    } else {
        TranscriptVerdict::Ready
    }
}

impl TranscriptEvent {
    pub open spec fn verdict(&self) -> TranscriptVerdict {
        verdict_spec(self.text@, self.confidence, self.is_final)
    }

    /// Judges this event on its own, with no memory of earlier ones.
    pub fn judge(&self) -> (r: TranscriptVerdict)
        ensures
            r == self.verdict(),
    {
        if !self.is_final && self.confidence < MIN_CONFIDENCE {
            return TranscriptVerdict::LowConfidence;
        }
        if self.is_final {
            return TranscriptVerdict::Ready;
        }
        let words = word_count(self.text.as_str());
        let chars = crate::text::chars_of(self.text.as_str());
        if words >= MIN_WORDS && (chars.len() >= MIN_CHARS || ends_sentence(self.text.as_str())) {
            TranscriptVerdict::Ready
        } else {
            TranscriptVerdict::NotReady
        }
    }

    /// Whether this event reaches the response pipeline.
    pub fn is_ready(&self) -> (r: bool)
        ensures
            r == (self.verdict() == TranscriptVerdict::Ready),
    {
        self.judge() == TranscriptVerdict::Ready
    }
}

/// The confidence gate: an interim event under the minimum confidence is
/// always dropped, and a final event is never dropped, whatever its confidence.
pub proof fn lemma_confidence_gate(text: Seq<char>, confidence: u16, is_final: bool)
    ensures
        confidence < MIN_CONFIDENCE && !is_final ==> verdict_spec(text, confidence, is_final)
            != TranscriptVerdict::Ready,
        is_final ==> verdict_spec(text, confidence, is_final) == TranscriptVerdict::Ready,
{
}

/// An interim event that passed the confidence gate and was still dropped has
/// fewer than four words, or is shorter than fourteen characters and does not
/// end in `.`, `?` or `!`.
pub proof fn lemma_dropped_interim_is_short(text: Seq<char>, confidence: u16)
    requires
        confidence >= MIN_CONFIDENCE,
        verdict_spec(text, confidence, false) != TranscriptVerdict::Ready,
    ensures
        word_count_spec(text) < MIN_WORDS || (text.len() < MIN_CHARS && !ends_sentence_spec(
            text,
        )),
{
}

/// One alternative of a recognizer message.
pub struct DeepgramAlternative {
    pub transcript: String,
    /// In basis points (see `CONFIDENCE_SCALE`).
    pub confidence: u16,
}

/// The channel part of a recognizer message.
pub struct DeepgramChannel {
    pub alternatives: Vec<DeepgramAlternative>,
}

/// A recognizer message that carries a recognition result.
pub struct DeepgramTranscript {
    pub channel: DeepgramChannel,
    pub is_final: bool,
}

impl DeepgramTranscript {
    /// The message is forwarded when its first alternative holds more than white space.
    pub open spec fn carries_text(&self) -> bool {
        self.channel.alternatives.len() > 0 && trim_spec(
            self.channel.alternatives@[0].transcript@,
        ).len() > 0
    }

    /// The transcript event this message forwards: its first alternative, if
    /// that holds more than white space.
    pub fn to_event(&self) -> (r: Option<TranscriptEvent>)
        ensures
            r is Some <==> self.carries_text(),
            r matches Some(ev) ==> {
                &&& ev.text@ == self.channel.alternatives@[0].transcript@
                &&& ev.confidence == self.channel.alternatives@[0].confidence
                &&& ev.is_final == self.is_final
            },
    {
        if self.channel.alternatives.len() == 0 {
            return None;
        }
        let first = &self.channel.alternatives[0];
        let trimmed = trim(first.transcript.as_str());
        if trimmed.as_str().is_empty() {
            return None;
        }
        Some(
            TranscriptEvent {
                text: first.transcript.clone(),
                confidence: first.confidence,
                is_final: self.is_final,
            },
        )
    }
}

} // verus!
