use telnyx_ai_service::coalescer::{Coalescer, CoalescerEvent, Flush, FlushTrigger};
use telnyx_ai_service::media::{
    decode_payload, encode_payload, CallPhase, IngestAction, MediaIngestion, MediaMessage,
};
use telnyx_ai_service::recognizer::{
    on_recognizer_message, DeepgramConfig, DeepgramWebSocket, ReceiverAction, RecognizerMessage,
    RecognizerSender, SenderAction, SenderEvent,
};
use telnyx_ai_service::transcript::{DeepgramAlternative, DeepgramChannel, DeepgramTranscript};

fn flush_parts(f: Option<Flush>) -> Option<(Vec<u8>, FlushTrigger)> {
    f.map(|x| (x.bytes, x.trigger))
}

#[test]
fn chunk_over_threshold_flushes_at_once() {
    let mut c = Coalescer::new(0);
    let out = flush_parts(c.handle(CoalescerEvent::Chunk(vec![9u8; 3000], 5)));
    let (bytes, trigger) = out.expect("a flush");
    assert_eq!(bytes.len(), 3000);
    assert_eq!(trigger, FlushTrigger::Size);
    assert_eq!(c.pending_len(), 0);
    assert!(flush_parts(c.handle(CoalescerEvent::Tick(100))).is_none());
}

#[test]
fn small_chunks_accumulate_until_threshold() {
    let mut c = Coalescer::new(0);
    assert!(c.handle(CoalescerEvent::Chunk(vec![1u8; 1000], 1)).is_none());
    assert!(c.handle(CoalescerEvent::Chunk(vec![2u8; 1000], 2)).is_none());
    assert_eq!(c.pending_len(), 2000);
    let (bytes, trigger) = flush_parts(c.handle(CoalescerEvent::Chunk(vec![3u8; 48], 3))).unwrap();
    assert_eq!(trigger, FlushTrigger::Size);
    assert_eq!(bytes.len(), 2048);
    assert_eq!(bytes[0], 1);
    assert_eq!(bytes[1000], 2);
    assert_eq!(bytes[2047], 3);
}

#[test]
fn timer_flushes_once_interval_elapsed() {
    let mut c = Coalescer::new(0);
    assert!(c.handle(CoalescerEvent::Chunk(vec![5u8; 100], 0)).is_none());
    assert!(c.handle(CoalescerEvent::Tick(39)).is_none());
    let (bytes, trigger) = flush_parts(c.handle(CoalescerEvent::Tick(40))).unwrap();
    assert_eq!(trigger, FlushTrigger::Timer);
    assert_eq!(bytes, vec![5u8; 100]);
    assert!(c.handle(CoalescerEvent::Chunk(vec![6u8; 10], 50)).is_none());
    assert!(c.handle(CoalescerEvent::Tick(79)).is_none());
    assert!(c.handle(CoalescerEvent::Tick(80)).is_some());
}

#[test]
fn timer_ignores_empty_buffer_and_backward_clock() {
    let mut c = Coalescer::new(1000);
    assert!(c.handle(CoalescerEvent::Tick(5000)).is_none());
    assert!(c.handle(CoalescerEvent::Chunk(vec![1u8; 10], 1000)).is_none());
    assert!(c.handle(CoalescerEvent::Tick(10)).is_none());
    assert_eq!(c.pending_len(), 10);
}

#[test]
fn close_flushes_remaining_bytes_exactly_once() {
    let mut c = Coalescer::new(0);
    assert!(c.handle(CoalescerEvent::Chunk(vec![4u8; 10], 1)).is_none());
    let (bytes, trigger) = flush_parts(c.handle(CoalescerEvent::Closed)).unwrap();
    assert_eq!(trigger, FlushTrigger::Close);
    assert_eq!(bytes, vec![4u8; 10]);
    assert!(c.is_closed());
    assert!(c.handle(CoalescerEvent::Closed).is_none());
    assert!(c.handle(CoalescerEvent::Chunk(vec![1u8; 4000], 2)).is_none());
    assert!(c.handle(CoalescerEvent::Tick(1000)).is_none());
}

#[test]
fn close_with_empty_buffer_flushes_nothing() {
    let mut c = Coalescer::new(0);
    assert!(c.handle(CoalescerEvent::Closed).is_none());
    assert!(c.is_closed());
}

#[test]
fn flushed_audio_concatenates_to_delivered_audio() {
    let mut c = Coalescer::new(0);
    let mut delivered: Vec<u8> = Vec::new();
    let mut flushed: Vec<u8> = Vec::new();
    let mut triggers: Vec<FlushTrigger> = Vec::new();
    let mut chunk_ends: Vec<usize> = Vec::new();
    let mut flush_ends: Vec<usize> = Vec::new();
    let mut t: u64 = 0;
    for i in 0..60u32 {
        let len = ((i * 37) % 300 + 1) as usize;
        let chunk: Vec<u8> = (0..len).map(|k| ((k as u32 + i) % 251) as u8).collect();
        delivered.extend_from_slice(&chunk);
        chunk_ends.push(delivered.len());
        t += 7;
        if let Some(f) = c.handle(CoalescerEvent::Chunk(chunk, t)) {
            triggers.push(f.trigger);
            flushed.extend_from_slice(&f.bytes);
            flush_ends.push(flushed.len());
        }
        if i % 5 == 0 {
            if let Some(f) = c.handle(CoalescerEvent::Tick(t)) {
                triggers.push(f.trigger);
                flushed.extend_from_slice(&f.bytes);
                flush_ends.push(flushed.len());
            }
        }
    }
    if let Some(f) = c.handle(CoalescerEvent::Closed) {
        triggers.push(f.trigger);
        flushed.extend_from_slice(&f.bytes);
    }
    assert_eq!(flushed, delivered);
    for end in &flush_ends {
        assert!(chunk_ends.contains(end));
    }
    for tr in &triggers[..triggers.len() - 1] {
        assert_ne!(*tr, FlushTrigger::Close);
    }
}

#[test]
fn ingestion_waits_for_start() {
    let mut m = MediaIngestion::new();
    assert_eq!(m.phase(), CallPhase::AwaitingStart);
    assert!(matches!(m.on_message(MediaMessage::Unrecognized), IngestAction::Ignore));
    assert!(matches!(m.on_message(MediaMessage::Binary), IngestAction::Ignore));
    assert!(matches!(
        m.on_message(MediaMessage::Media { payload: Some("AAEC".to_string()) }),
        IngestAction::Ignore
    ));
    match m.on_message(MediaMessage::Start {
        call_control_id: Some("call-1".to_string()),
        stream_id: Some("s".to_string()),
    }) {
        IngestAction::StartPipeline { call_control_id } => assert_eq!(call_control_id, "call-1"),
        _ => panic!("expected the pipeline to start"),
    }
    assert_eq!(m.phase(), CallPhase::Active);
}

#[test]
fn start_without_call_id_uses_unknown() {
    let mut m = MediaIngestion::new();
    match m.on_message(MediaMessage::Start { call_control_id: None, stream_id: None }) {
        IngestAction::StartPipeline { call_control_id } => assert_eq!(call_control_id, "unknown"),
        _ => panic!("expected the pipeline to start"),
    }
}

#[test]
fn close_or_bad_json_before_start_aborts() {
    let mut a = MediaIngestion::new();
    assert!(matches!(a.on_message(MediaMessage::Closed), IngestAction::Abort));
    assert_eq!(a.phase(), CallPhase::Terminated);
    let mut b = MediaIngestion::new();
    assert!(matches!(b.on_message(MediaMessage::Malformed), IngestAction::Abort));
    let mut c = MediaIngestion::new();
    assert!(matches!(c.on_message(MediaMessage::TransportError), IngestAction::Abort));
}

#[test]
fn active_ingestion_forwards_decoded_audio() {
    let mut m = MediaIngestion::new();
    m.on_message(MediaMessage::Start { call_control_id: Some("c".to_string()), stream_id: None });
    match m.on_message(MediaMessage::Media { payload: Some("AAEC".to_string()) }) {
        IngestAction::Forward(b) => assert_eq!(b, vec![0u8, 1, 2]),
        _ => panic!("expected audio"),
    }
    assert!(matches!(
        m.on_message(MediaMessage::Media { payload: Some("@@not base64@@".to_string()) }),
        IngestAction::DropFrame
    ));
    assert!(matches!(m.on_message(MediaMessage::Media { payload: None }), IngestAction::Ignore));
    assert!(matches!(m.on_message(MediaMessage::Malformed), IngestAction::Ignore));
    assert!(matches!(m.on_message(MediaMessage::Stop), IngestAction::EndIngestion));
    assert_eq!(m.phase(), CallPhase::Draining);
    assert!(matches!(
        m.on_message(MediaMessage::Media { payload: Some("AAEC".to_string()) }),
        IngestAction::Ignore
    ));
    m.tasks_finished();
    assert_eq!(m.phase(), CallPhase::Terminated);
}

#[test]
fn transport_close_ends_ingestion() {
    let mut m = MediaIngestion::new();
    m.on_message(MediaMessage::Start { call_control_id: Some("c".to_string()), stream_id: None });
    assert!(matches!(m.on_message(MediaMessage::Closed), IngestAction::EndIngestion));
    let mut n = MediaIngestion::new();
    n.on_message(MediaMessage::Start { call_control_id: Some("c".to_string()), stream_id: None });
    n.abort();
    assert_eq!(n.phase(), CallPhase::Terminated);
}

#[test]
fn base64_payloads_decode_and_encode() {
    assert_eq!(decode_payload("aG9sYQ=="), Some(b"hola".to_vec()));
    assert_eq!(decode_payload(""), Some(Vec::new()));
    assert_eq!(decode_payload("a"), None);
    assert_eq!(encode_payload(b"hola"), "aG9sYQ==");
    assert_eq!(encode_payload(&[]), "");
}

#[test]
fn recognizer_url_and_header() {
    let d = DeepgramWebSocket::new("k123".to_string());
    assert_eq!(
        d.listen_url(),
        "wss://api.deepgram.com/v1/listen?encoding=mulaw&sample_rate=8000&channels=1&language=es&model=nova-2&interim_results=true&endpointing=200&utterance_end_ms=500&vad_turnoff=300"
    );
    assert_eq!(d.authorization(), "Token k123");
    let mut c = DeepgramConfig::for_calls();
    c.interim_results = false;
    c.sample_rate = 16000;
    assert!(c.listen_url().contains("sample_rate=16000&"));
    assert!(c.listen_url().contains("interim_results=false&"));
}

#[test]
fn sender_closes_cleanly_when_audio_ends() {
    let mut s = RecognizerSender::new();
    match s.on_event(SenderEvent::Audio(vec![1, 2, 3])) {
        SenderAction::SendBinary(b) => assert_eq!(b, vec![1, 2, 3]),
        _ => panic!("expected audio to be sent"),
    }
    assert!(matches!(s.on_event(SenderEvent::KeepaliveDue), SenderAction::SendPing));
    assert!(matches!(s.on_event(SenderEvent::AudioClosed), SenderAction::SendClose));
    assert!(matches!(s.on_event(SenderEvent::Audio(vec![1])), SenderAction::Nothing));
    let mut f = RecognizerSender::new();
    assert!(matches!(f.on_event(SenderEvent::SendFailed), SenderAction::Stop));
    assert!(matches!(f.on_event(SenderEvent::KeepaliveDue), SenderAction::Nothing));
}

#[test]
fn hangup_flushes_then_closes_recognizer() {
    let mut c = Coalescer::new(0);
    let mut s = RecognizerSender::new();
    assert!(c.handle(CoalescerEvent::Chunk(vec![8u8; 500], 10)).is_none());
    let mut sent: Vec<Vec<u8>> = Vec::new();
    if let Some(f) = c.handle(CoalescerEvent::Closed) {
        if let SenderAction::SendBinary(b) = s.on_event(SenderEvent::Audio(f.bytes)) {
            sent.push(b);
        }
    }
    assert!(c.handle(CoalescerEvent::Closed).is_none());
    assert_eq!(sent, vec![vec![8u8; 500]]);
    assert!(matches!(s.on_event(SenderEvent::AudioClosed), SenderAction::SendClose));
}

#[test]
fn receiver_forwards_results_with_text() {
    let msg = RecognizerMessage::Transcript(DeepgramTranscript {
        channel: DeepgramChannel {
            alternatives: vec![
                DeepgramAlternative { transcript: "hola".to_string(), confidence: 9100 },
                DeepgramAlternative { transcript: "ola".to_string(), confidence: 5000 },
            ],
        },
        is_final: true,
    });
    match on_recognizer_message(&msg) {
        ReceiverAction::Forward(ev) => {
            assert_eq!(ev.text, "hola");
            assert_eq!(ev.confidence, 9100);
            assert!(ev.is_final);
        }
        _ => panic!("expected a transcript"),
    }
    let blank = RecognizerMessage::Transcript(DeepgramTranscript {
        channel: DeepgramChannel {
            alternatives: vec![DeepgramAlternative { transcript: "  ".to_string(), confidence: 9000 }],
        },
        is_final: false,
    });
    assert!(matches!(on_recognizer_message(&blank), ReceiverAction::Ignore));
    let none = RecognizerMessage::Transcript(DeepgramTranscript {
        channel: DeepgramChannel { alternatives: vec![] },
        is_final: true,
    });
    assert!(matches!(on_recognizer_message(&none), ReceiverAction::Ignore));
    assert!(matches!(on_recognizer_message(&RecognizerMessage::Other), ReceiverAction::Ignore));
    assert!(matches!(on_recognizer_message(&RecognizerMessage::Malformed), ReceiverAction::Ignore));
    assert!(matches!(on_recognizer_message(&RecognizerMessage::Closed), ReceiverAction::Stop));
    assert!(matches!(on_recognizer_message(&RecognizerMessage::Error), ReceiverAction::Stop));
}
