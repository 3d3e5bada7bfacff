use vstd::prelude::*;

use base64::engine::general_purpose::STANDARD;
use base64::Engine;

verus! {

/// What standard base64 decoding (with padding) gives for a text: `None` when
/// the text is not valid base64.
pub uninterp spec fn base64_decoded(text: Seq<char>) -> Option<Seq<u8>>;

/// Relies on base64's `STANDARD.decode`: the result depends on the text alone;
/// invalid text gives an error, never a panic.
#[verifier::external_body]
fn decode_base64(text: &str) -> (r: Option<Vec<u8>>)
    ensures
        r is Some <==> base64_decoded(text@) is Some,
        r matches Some(b) ==> base64_decoded(text@) == Some(b@),
{
    STANDARD.decode(text).ok()
}

/// What standard base64 encoding (with padding) gives for some bytes.
pub uninterp spec fn base64_encoded(bytes: Seq<u8>) -> Seq<char>;

/// Relies on base64's `STANDARD.encode`: the result depends on the bytes alone.
#[verifier::external_body]
fn encode_base64(bytes: &[u8]) -> (r: String)
    ensures
        r@ == base64_encoded(bytes@),
{
    STANDARD.encode(bytes)
}

/// Encodes bytes as base64 (standard alphabet, with padding).
pub fn encode_payload(bytes: &[u8]) -> (r: String)
    ensures
        r@ == base64_encoded(bytes@),
{
    encode_base64(bytes)
}

pub open spec fn bytes_opt(o: Option<Vec<u8>>) -> Option<Seq<u8>> {
    match o {
        Some(b) => Some(b@),
        None => None,
    }
}

/// Decodes a base64 payload (standard alphabet, with padding).
pub fn decode_payload(text: &str) -> (r: Option<Vec<u8>>)
    ensures
        bytes_opt(r) == base64_decoded(text@),
{
    decode_base64(text)
}

/// One message of the duplex media transport, once its JSON framing is read.
pub enum MediaMessage {
    /// `start`: the stream began; it names the call.
    Start { call_control_id: Option<String>, stream_id: Option<String> },
    /// `media`: audio, base64 encoded.
    Media { payload: Option<String> },
    /// `stop`: the stream ended.
    Stop,
    /// A JSON message with another event, or with none.
    Unrecognized,
    /// A text message that is not JSON.
    Malformed,
    /// A binary or control frame.
    Binary,
    /// The transport was closed, or its stream ended.
    Closed,
    /// The transport failed to read.
    TransportError,
}

/// The per-call lifecycle, shared by all stages of the pipeline.
#[derive(PartialEq, Eq, Structural, Debug, Clone, Copy)]
pub enum CallPhase {
    /// Connected; waiting for the `start` message.
    AwaitingStart,
    /// The pipeline runs.
    Active,
    /// Input ended; channels close and in-flight work finishes.
    Draining,
    /// Every per-call task has exited.
    Terminated,
}

/// What media ingestion does with one message.
pub enum IngestAction {
    /// Nothing.
    Ignore,
    /// Setup failed: no session is created and no task is started.
    Abort,
    /// Create the session and start the per-call tasks for this call.
    StartPipeline { call_control_id: String },
    /// Send decoded audio on to the coalescer.
    Forward(Vec<u8>),
    /// The audio frame could not be decoded and is dropped.
    DropFrame,
    /// Close the channel to the coalescer: ingestion is over.
    EndIngestion,
}

/// The identifier used when a `start` message names no call.
pub open spec fn unknown_call_id() -> Seq<char> {
    "unknown"@
}

/// Demultiplexes the media transport of one call.
pub struct MediaIngestion {
    phase: CallPhase,
}

impl MediaIngestion {
    pub closed spec fn phase_of(&self) -> CallPhase {
        self.phase
    }

    pub fn new() -> (r: MediaIngestion)
        ensures
            r.phase_of() == CallPhase::AwaitingStart,
    {
        MediaIngestion { phase: CallPhase::AwaitingStart }
    }

    pub fn phase(&self) -> (r: CallPhase)
        ensures
            r == self.phase_of(),
    {
        self.phase
    }

    /// The action for a decoded (or undecodable) audio frame.
    pub fn on_audio(decoded: Option<Vec<u8>>) -> (r: IngestAction)
        ensures
            decoded matches Some(b) ==> (r matches IngestAction::Forward(x) && x@ == b@),
            decoded is None ==> r is DropFrame,
    {
        match decoded {
            Some(b) => IngestAction::Forward(b),
            None => IngestAction::DropFrame,
        }
    }

    /// Reacts to one transport message.
    ///
    /// Before `start`, every other message is ignored, except a close, a read
    /// failure or a text that is not JSON, which abort the setup. While
    /// active, `media` audio is decoded and forwarded (an undecodable frame
    /// is dropped), and `stop`, a close or a read failure end ingestion.
    /// Once ingestion has ended, messages are ignored.
    pub fn on_message(&mut self, msg: MediaMessage) -> (r: IngestAction)
        ensures
            old(self).phase_of() == CallPhase::AwaitingStart ==> match msg {
                MediaMessage::Start { call_control_id, .. } => {
                    &&& final(self).phase_of() == CallPhase::Active
                    &&& r matches IngestAction::StartPipeline { call_control_id: id } && id@ == match call_control_id {
                        Some(c) => c@,
                        None => unknown_call_id(),
                    }
                },
                MediaMessage::Closed | MediaMessage::TransportError | MediaMessage::Malformed => {
                    final(self).phase_of() == CallPhase::Terminated && r is Abort
                },
                _ => final(self).phase_of() == CallPhase::AwaitingStart && r is Ignore,
            },
            old(self).phase_of() == CallPhase::Active ==> match msg {
                MediaMessage::Media { payload: Some(p) } => {
                    &&& final(self).phase_of() == CallPhase::Active
                    &&& base64_decoded(p@) matches Some(b) ==> (r matches IngestAction::Forward(x)
                        && x@ == b)
                    &&& base64_decoded(p@) is None ==> r is DropFrame
                },
                MediaMessage::Stop | MediaMessage::Closed | MediaMessage::TransportError => {
                    final(self).phase_of() == CallPhase::Draining && r is EndIngestion
                },
                _ => final(self).phase_of() == CallPhase::Active && r is Ignore,
            },
            (old(self).phase_of() == CallPhase::Draining || old(self).phase_of()
                == CallPhase::Terminated) ==> final(self).phase_of() == old(self).phase_of()
                && r is Ignore,
    {
        match self.phase {
            CallPhase::AwaitingStart => match msg {
                MediaMessage::Start { call_control_id, .. } => {
                    self.phase = CallPhase::Active;
                    let id = match call_control_id {
                        Some(c) => c,
                        None => "unknown".to_owned(),
                    };
                    IngestAction::StartPipeline { call_control_id: id }
                },
                MediaMessage::Closed | MediaMessage::TransportError | MediaMessage::Malformed => {
                    self.phase = CallPhase::Terminated;
                    IngestAction::Abort
                },
                _ => IngestAction::Ignore,
            },
            CallPhase::Active => match msg {
                MediaMessage::Media { payload: Some(p) } => {
                    let decoded = decode_base64(p.as_str());
                    MediaIngestion::on_audio(decoded)
                },
                MediaMessage::Stop | MediaMessage::Closed | MediaMessage::TransportError => {
                    self.phase = CallPhase::Draining;
                    IngestAction::EndIngestion
                },
                _ => IngestAction::Ignore,
            },
            _ => IngestAction::Ignore,
        }
    }

    /// Setup failed after `start` (the recognizer could not be reached): the
    /// call's pipeline is abandoned as a whole.
    pub fn abort(&mut self)
        ensures
            final(self).phase_of() == CallPhase::Terminated,
    {
        self.phase = CallPhase::Terminated;
    }

    /// Every per-call task has exited.
    pub fn tasks_finished(&mut self)
        ensures
            old(self).phase_of() == CallPhase::Draining ==> final(self).phase_of()
                == CallPhase::Terminated,
            old(self).phase_of() != CallPhase::Draining ==> final(self).phase_of() == old(
                self,
            ).phase_of(),
    {
        if self.phase == CallPhase::Draining {
            self.phase = CallPhase::Terminated;
        }
    }
}

} // verus!
