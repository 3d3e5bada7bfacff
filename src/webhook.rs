use vstd::prelude::*;


use crate::text::{same_text, word_count, word_count_spec};

verus! {

/// The telephony callbacks the service acts on.
#[derive(PartialEq, Eq, Structural, Debug, Clone, Copy)]
pub enum WebhookEventKind {
    CallAnswered,
    SpeakEnded,
    PlaybackStarted,
    PlaybackEnded,
    Transcription,
    TranscriptionPartial,
    Hangup,
    /// Acknowledged and otherwise ignored.
    Unhandled,
}

pub open spec fn event_kind_spec(t: Seq<char>) -> WebhookEventKind {
    if t == "call.answered"@ {
        WebhookEventKind::CallAnswered
    } else if t == "call.speak.ended"@ {
        WebhookEventKind::SpeakEnded
    } else if t == "call.playback.started"@ {
        WebhookEventKind::PlaybackStarted
    } else if t == "call.playback.ended"@ {
        WebhookEventKind::PlaybackEnded
    } else if t == "call.transcription"@ || t == "call.transcription.transcript_received"@ || t
        == "call.transcription.transcribed"@ {
        WebhookEventKind::Transcription
    } else if t == "call.transcription.partial"@ {
        WebhookEventKind::TranscriptionPartial
    } else if t == "call.hangup"@ {
        WebhookEventKind::Hangup
    } else {
        WebhookEventKind::Unhandled
    }
}

/// The kind of a callback, by its event type.
pub fn classify_event(event_type: &str) -> (r: WebhookEventKind)
    ensures
        r == event_kind_spec(event_type@),
{
    if same_text(event_type, "call.answered") {
        WebhookEventKind::CallAnswered
    } else if same_text(event_type, "call.speak.ended") {
        WebhookEventKind::SpeakEnded
    } else if same_text(event_type, "call.playback.started") {
        WebhookEventKind::PlaybackStarted
    } else if same_text(event_type, "call.playback.ended") {
        WebhookEventKind::PlaybackEnded
    } else if same_text(event_type, "call.transcription") || same_text(
        event_type,
        "call.transcription.transcript_received",
    ) || same_text(event_type, "call.transcription.transcribed") {
        WebhookEventKind::Transcription
    } else if same_text(event_type, "call.transcription.partial") {
        WebhookEventKind::TranscriptionPartial
    } else if same_text(event_type, "call.hangup") {
        WebhookEventKind::Hangup
    } else {
        WebhookEventKind::Unhandled
    }
}

/// An interim classic transcript needs this many words.
pub const CLASSIC_MIN_WORDS: usize = 5;

/// An interim classic transcript needs this many bytes.
pub const CLASSIC_MIN_BYTES: usize = 15;

/// A sanitized classic transcript is acted upon when it is not empty and is
/// final, or has enough words and bytes.
pub open spec fn classic_ready_spec(clean: &str, is_final: bool) -> bool {
    clean@.len() > 0 && (is_final || (word_count_spec(clean@) >= CLASSIC_MIN_WORDS
        && clean.len() >= CLASSIC_MIN_BYTES))
}

pub fn classic_transcript_ready(clean: &str, is_final: bool) -> (r: bool)
    ensures
        r == classic_ready_spec(clean, is_final),
{
    if clean.is_empty() {
        return false;
    }
    is_final || (word_count(clean) >= CLASSIC_MIN_WORDS && clean.len() >= CLASSIC_MIN_BYTES)
}

/// The identifier reported for a placed call: the call id, else the leg id,
/// else the session id, else `unknown`.
pub fn pick_call_id(
    call_id: Option<String>,
    call_leg_id: Option<String>,
    call_session_id: Option<String>,
) -> (r: String)
    ensures
        r@ == match (call_id, call_leg_id, call_session_id) {
            (Some(a), _, _) => a@,
            (None, Some(b), _) => b@,
            (None, None, Some(c)) => c@,
            (None, None, None) => "unknown"@,
        },
{
    match call_id {
        Some(a) => a,
        None => match call_leg_id {
            Some(b) => b,
            None => match call_session_id {
                Some(c) => c,
                None => "unknown".to_owned(),
            },
        },
    }
}

/// The status reported for a placed call, `initiated` when the provider gives none.
pub fn call_status(status: Option<String>) -> (r: String)
    ensures
        r@ == match status {
            Some(s) => s@,
            None => "initiated"@,
        },
{
    match status {
        Some(s) => s,
        None => "initiated".to_owned(),
    }
}

} // verus!
