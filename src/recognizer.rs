use vstd::prelude::*;

use crate::text::{decimal_spec, push_decimal, push_str};
use crate::transcript::{DeepgramTranscript, TranscriptEvent};

verus! {

/// Connection parameters of the streaming recognizer.
pub struct DeepgramConfig {
    pub encoding: String,
    pub sample_rate: u32,
    pub channels: u16,
    pub language: String,
    pub model: String,
    pub interim_results: bool,
    /// Silence, in milliseconds, that ends an utterance.
    pub endpointing: u32,
    pub utterance_end_ms: u32,
    pub vad_turnoff: u32,
}

pub open spec fn bool_text(b: bool) -> Seq<char> {
    if b {
        "true"@
    } else {
        "false"@
    }
}

impl DeepgramConfig {
    /// The configuration used for phone calls: mu-law at 8 kHz, mono, Spanish,
    /// interim results on, quick endpointing.
    pub fn for_calls() -> (r: DeepgramConfig)
        ensures
            r.encoding@ == "mulaw"@,
            r.sample_rate == 8000,
            r.channels == 1,
            r.language@ == "es"@,
            r.model@ == "nova-2"@,
            r.interim_results,
            r.endpointing == 200,
            r.utterance_end_ms == 500,
            r.vad_turnoff == 300,
    {
        DeepgramConfig {
            encoding: "mulaw".to_owned(),
            sample_rate: 8000,
            channels: 1,
            language: "es".to_owned(),
            model: "nova-2".to_owned(),
            interim_results: true,
            endpointing: 200,
            utterance_end_ms: 500,
            vad_turnoff: 300,
        }
    }

    pub open spec fn url_spec(&self) -> Seq<char> {
        "wss://api.deepgram.com/v1/listen?encoding="@ + self.encoding@ + "&sample_rate="@
            + decimal_spec(self.sample_rate as nat) + "&channels="@ + decimal_spec(
            self.channels as nat,
        ) + "&language="@ + self.language@ + "&model="@ + self.model@ + "&interim_results="@
            + bool_text(self.interim_results) + "&endpointing="@ + decimal_spec(
            self.endpointing as nat,
        ) + "&utterance_end_ms="@ + decimal_spec(self.utterance_end_ms as nat) + "&vad_turnoff="@
            + decimal_spec(self.vad_turnoff as nat)
    }

    /// The URL that opens the recognizer connection, parameters in the query.
    pub fn listen_url(&self) -> (r: String)
        ensures
            r@ == self.url_spec(),
    {
        let mut u = String::new();
        push_str(&mut u, "wss://api.deepgram.com/v1/listen?encoding=");
        push_str(&mut u, self.encoding.as_str());
        push_str(&mut u, "&sample_rate=");
        push_decimal(&mut u, self.sample_rate as u64);
        push_str(&mut u, "&channels=");
        push_decimal(&mut u, self.channels as u64);
        push_str(&mut u, "&language=");
        push_str(&mut u, self.language.as_str());
        push_str(&mut u, "&model=");
        push_str(&mut u, self.model.as_str());
        push_str(&mut u, "&interim_results=");
        if self.interim_results {
            push_str(&mut u, "true");
        } else {
            push_str(&mut u, "false");
        }
        push_str(&mut u, "&endpointing=");
        push_decimal(&mut u, self.endpointing as u64);
        push_str(&mut u, "&utterance_end_ms=");
        push_decimal(&mut u, self.utterance_end_ms as u64);
        push_str(&mut u, "&vad_turnoff=");
        push_decimal(&mut u, self.vad_turnoff as u64);
        u
    }
}

/// The listening URL with the configuration for phone calls.
pub open spec fn call_listen_url_spec() -> Seq<char> {
    "wss://api.deepgram.com/v1/listen?encoding="@ + "mulaw"@ + "&sample_rate="@ + decimal_spec(8000)
        + "&channels="@ + decimal_spec(1) + "&language="@ + "es"@ + "&model="@ + "nova-2"@
        + "&interim_results="@ + bool_text(true) + "&endpointing="@ + decimal_spec(200)
        + "&utterance_end_ms="@ + decimal_spec(500) + "&vad_turnoff="@ + decimal_spec(300)
}

/// The credentials and endpoint of the streaming recognizer.
pub struct DeepgramWebSocket {
    api_key: String,
}

impl DeepgramWebSocket {
    pub closed spec fn key(&self) -> Seq<char> {
        self.api_key@
    }

    pub fn new(api_key: String) -> (r: DeepgramWebSocket)
        ensures
            r.key() == api_key@,
    {
        DeepgramWebSocket { api_key }
    }

    /// The URL to connect to, with the configuration for phone calls.
    pub fn listen_url(&self) -> (r: String)
        ensures
            r@ == call_listen_url_spec(),
    {
        let c = DeepgramConfig::for_calls();
        c.listen_url()
    }

    /// The value of the `Authorization` header: `Token ` and the key.
    pub fn authorization(&self) -> (r: String)
        ensures
            r@ == "Token "@ + self.key(),
    {
        let mut h = String::new();
        push_str(&mut h, "Token ");
        push_str(&mut h, self.api_key.as_str());
        h
    }
}

/// The send side pings the recognizer at this interval, in seconds, so that
/// an idle connection is not closed.
pub const KEEPALIVE_SECS: u64 = 25;

/// What the send side of the recognizer connection reacts to.
pub enum SenderEvent {
    /// A coalesced audio chunk arrived.
    Audio(Vec<u8>),
    /// The keepalive interval (`KEEPALIVE_SECS`) elapsed.
    KeepaliveDue,
    /// The coalescer closed its channel.
    AudioClosed,
    /// Writing to the connection failed.
    SendFailed,
}

/// What the send side writes next.
pub enum SenderAction {
    SendBinary(Vec<u8>),
    SendPing,
    /// Send a close frame, then stop.
    SendClose,
    /// Stop without writing.
    Stop,
    /// The send side has already ended.
    Nothing,
}

/// The abstract form of a send-side event.
pub enum SendInput {
    Audio(Seq<u8>),
    KeepaliveDue,
    AudioClosed,
    SendFailed,
}

/// The abstract form of a send-side action.
pub enum SendOutput {
    Binary(Seq<u8>),
    Ping,
    Close,
    Stop,
    Nothing,
}

impl View for SenderEvent {
    type V = SendInput;

    open spec fn view(&self) -> SendInput {
        match self {
            SenderEvent::Audio(b) => SendInput::Audio(b@),
            SenderEvent::KeepaliveDue => SendInput::KeepaliveDue,
            SenderEvent::AudioClosed => SendInput::AudioClosed,
            SenderEvent::SendFailed => SendInput::SendFailed,
        }
    }
}

impl View for SenderAction {
    type V = SendOutput;

    open spec fn view(&self) -> SendOutput {
        match self {
            SenderAction::SendBinary(b) => SendOutput::Binary(b@),
            SenderAction::SendPing => SendOutput::Ping,
            SenderAction::SendClose => SendOutput::Close,
            SenderAction::Stop => SendOutput::Stop,
            SenderAction::Nothing => SendOutput::Nothing,
        }
    }
}

/// The send side's reaction to one event: whether it stays open, and what it writes.
pub open spec fn send_step_spec(open: bool, input: SendInput) -> (bool, SendOutput) {
    if !open {
        (false, SendOutput::Nothing)
    } else {
        match input {
            SendInput::Audio(b) => (true, SendOutput::Binary(b)),
            SendInput::KeepaliveDue => (true, SendOutput::Ping),
            SendInput::AudioClosed => (false, SendOutput::Close),
            SendInput::SendFailed => (false, SendOutput::Stop),
        }
    }
}

/// Whether the send side is open after `inputs`, and every action it took, in order.
pub open spec fn send_run_spec(inputs: Seq<SendInput>) -> (bool, Seq<SendOutput>)
    decreases inputs.len(),
{
    if inputs.len() == 0 {
        (true, Seq::empty())
    } else {
        let (open, outs) = send_run_spec(inputs.drop_last());
        let (open2, o) = send_step_spec(open, inputs.last());
        (open2, outs.push(o))
    }
}

/// The actions that write to the connection (all but `Nothing`).
pub open spec fn writes_of(outs: Seq<SendOutput>) -> Seq<SendOutput>
    decreases outs.len(),
{
    if outs.len() == 0 {
        Seq::empty()
    } else if outs.last() is Nothing {
        writes_of(outs.drop_last())
    } else {
        writes_of(outs.drop_last()).push(outs.last())
    }
}

/// The write each audio or keepalive event asks for.
pub open spec fn frames_for(inputs: Seq<SendInput>) -> Seq<SendOutput>
    decreases inputs.len(),
{
    if inputs.len() == 0 {
        Seq::empty()
    } else {
        frames_for(inputs.drop_last()).push(
            match inputs.last() {
                SendInput::Audio(b) => SendOutput::Binary(b),
                _ => SendOutput::Ping,
            },
        )
    }
}

pub open spec fn is_traffic(input: SendInput) -> bool {
    input is Audio || input is KeepaliveDue
}

proof fn lemma_traffic_run(inputs: Seq<SendInput>)
    requires
        forall|j: int| 0 <= j < inputs.len() ==> is_traffic(#[trigger] inputs[j]),
    ensures
        send_run_spec(inputs).0,
        writes_of(send_run_spec(inputs).1) == frames_for(inputs),
    decreases inputs.len(),
{
    if inputs.len() > 0 {
        let p = inputs.drop_last();
        assert forall|j: int| 0 <= j < p.len() implies is_traffic(#[trigger] p[j]) by {
            assert(p[j] == inputs[j]);
        }
        assert(is_traffic(inputs[inputs.len() - 1]));
        lemma_traffic_run(p);
        let outs2 = send_run_spec(inputs).1;
        assert(outs2.drop_last() == send_run_spec(p).1);
    }
}

/// Audio chunks go out unchanged and in order: when the send side meets audio
/// and keepalive events, then the closing of its audio channel, and then
/// anything at all, it writes one binary message per chunk and one ping per
/// keepalive, in the order of the events, then exactly one close frame, and
/// nothing after that.
pub proof fn lemma_sender_writes_in_order(inputs: Seq<SendInput>, k: int)
    requires
        0 <= k < inputs.len(),
        inputs[k] is AudioClosed,
        forall|j: int| 0 <= j < k ==> is_traffic(#[trigger] inputs[j]),
    ensures
        !send_run_spec(inputs).0,
        writes_of(send_run_spec(inputs).1) == frames_for(inputs.take(k)).push(SendOutput::Close),
    decreases inputs.len(),
{
    if inputs.len() == k + 1 {
        let p = inputs.drop_last();
        assert(p == inputs.take(k));
        assert forall|j: int| 0 <= j < p.len() implies is_traffic(#[trigger] p[j]) by {
            assert(p[j] == inputs[j]);
        }
        lemma_traffic_run(p);
        let outs2 = send_run_spec(inputs).1;
        assert(outs2.drop_last() == send_run_spec(p).1);
    } else {
        let p = inputs.drop_last();
        assert(p[k] == inputs[k]);
        assert forall|j: int| 0 <= j < k implies is_traffic(#[trigger] p[j]) by {
            assert(p[j] == inputs[j]);
        }
        lemma_sender_writes_in_order(p, k);
        assert(p.take(k) == inputs.take(k));
        let outs2 = send_run_spec(inputs).1;
        assert(outs2.drop_last() == send_run_spec(p).1);
    }
}

/// The send side of the recognizer connection.
pub struct RecognizerSender {
    open: bool,
}

impl RecognizerSender {
    pub closed spec fn is_open(&self) -> bool {
        self.open
    }

    pub fn new() -> (r: RecognizerSender)
        ensures
            r.is_open(),
    {
        RecognizerSender { open: true }
    }

    /// Audio goes out as binary messages and the keepalive as pings; when the
    /// audio channel closes a clean close frame is sent, and after that, or a
    /// failed write, the send side ends.
    pub fn on_event(&mut self, event: SenderEvent) -> (r: SenderAction)
        ensures
            (final(self).is_open(), r@) == send_step_spec(old(self).is_open(), event@),
            !old(self).is_open() ==> !final(self).is_open() && r is Nothing,
            old(self).is_open() ==> match event {
                SenderEvent::Audio(b) => final(self).is_open() && (r matches SenderAction::SendBinary(x) && x@ == b@),
                SenderEvent::KeepaliveDue => final(self).is_open() && r is SendPing,
                SenderEvent::AudioClosed => !final(self).is_open() && r is SendClose,
                SenderEvent::SendFailed => !final(self).is_open() && r is Stop,
            },
    {
        if !self.open {
            return SenderAction::Nothing;
        }
        match event {
            SenderEvent::Audio(b) => SenderAction::SendBinary(b),
            SenderEvent::KeepaliveDue => SenderAction::SendPing,
            SenderEvent::AudioClosed => {
                self.open = false;
                SenderAction::SendClose
            },
            SenderEvent::SendFailed => {
                self.open = false;
                SenderAction::Stop
            },
        }
    }
}

/// A message read from the recognizer connection.
pub enum RecognizerMessage {
    /// A JSON message carrying a recognition result.
    Transcript(DeepgramTranscript),
    /// A JSON message of another shape.
    Other,
    /// A text message that is not JSON, or a result that does not parse.
    Malformed,
    /// The connection was closed.
    Closed,
    /// Reading failed.
    Error,
}

/// What the receive side does with one message.
pub enum ReceiverAction {
    Forward(TranscriptEvent),
    Ignore,
    /// The receive side ends and closes its outbound channel.
    Stop,
}

/// Results whose first alternative holds text are forwarded; other messages
/// are ignored; a close or a read failure ends the receive side.
pub fn on_recognizer_message(msg: &RecognizerMessage) -> (r: ReceiverAction)
    ensures
        match msg {
            RecognizerMessage::Transcript(t) => if t.carries_text() {
                r matches ReceiverAction::Forward(ev) && ev.text@ == t.channel.alternatives@[0].transcript@
                    && ev.confidence == t.channel.alternatives@[0].confidence && ev.is_final
                    == t.is_final
            } else {
                r is Ignore
            },
            RecognizerMessage::Other | RecognizerMessage::Malformed => r is Ignore,
            RecognizerMessage::Closed | RecognizerMessage::Error => r is Stop,
        },
{
    match msg {
        RecognizerMessage::Transcript(t) => match t.to_event() {
            Some(ev) => ReceiverAction::Forward(ev),
            None => ReceiverAction::Ignore,
        },
        RecognizerMessage::Other | RecognizerMessage::Malformed => ReceiverAction::Ignore,
        RecognizerMessage::Closed | RecognizerMessage::Error => ReceiverAction::Stop,
    }
}

} // verus!
