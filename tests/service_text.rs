use telnyx_ai_service::config::{CallCounter, ServiceConfig};
use telnyx_ai_service::generator::{short_prompt, user_message};
use telnyx_ai_service::greeting::{greeting_at, greeting_at_offset, greeting_for_hour, GreetingKey, QuickReply};
use telnyx_ai_service::models::{ClientState, StatsResponse, TestClaudeResponse};
use telnyx_ai_service::storage::{CacheStep, S3Service};
use telnyx_ai_service::text::{
    clean_reply, ends_sentence, same_ignoring_ascii_case, same_text, sanitize_plain, trim,
    word_count,
};
use telnyx_ai_service::webhook::{
    call_status, classic_transcript_ready, classify_event, pick_call_id, WebhookEventKind,
};

#[test]
fn sanitize_drops_controls_and_collapses_spaces() {
    assert_eq!(sanitize_plain("  hola\t\tmundo \n "), "holamundo");
    assert_eq!(sanitize_plain("hola   mundo"), "hola mundo");
    assert_eq!(sanitize_plain("a\u{a0}\u{a0}b"), "a b");
    assert_eq!(sanitize_plain("\u{7}campana"), "campana");
    assert_eq!(sanitize_plain("  ¿Qué   tal?  "), "¿Qué tal?");
    assert_eq!(sanitize_plain(""), "");
    assert_eq!(sanitize_plain("\u{2003}\u{3000}"), "");
}

#[test]
fn cleaned_reply_is_first_trimmed_line() {
    assert_eq!(clean_reply("  Hola, ¿cómo estás?\nSegunda línea "), "Hola, ¿cómo estás?");
    assert_eq!(clean_reply("\n\n  texto  \n"), "texto");
    assert_eq!(clean_reply("uno \r\ndos"), "uno");
    assert_eq!(clean_reply(""), "");
    assert_eq!(clean_reply("   "), "");
    assert_eq!(clean_reply("sin salto"), "sin salto");
    assert_eq!(clean_reply("a\tb"), "ab");
    assert_eq!(clean_reply("Hola\nAdiós"), "Hola");
    assert_eq!(clean_reply("\u{7} hola\u{1b}[0m \u{85}"), "hola[0m");
}

#[test]
fn text_helpers() {
    assert_eq!(word_count("  uno  dos\ttres "), 3);
    assert_eq!(word_count(""), 0);
    assert_eq!(word_count("   "), 0);
    assert!(ends_sentence("listo. "));
    assert!(ends_sentence("¿sí?"));
    assert!(!ends_sentence("hola"));
    assert!(!ends_sentence(""));
    assert_eq!(trim(" \t a b \n"), "a b");
    assert!(same_text("abc", "abc"));
    assert!(!same_text("abc", "abd"));
    assert!(!same_text("abc", "ab"));
    assert!(same_ignoring_ascii_case("TrUe", "true"));
    assert!(!same_ignoring_ascii_case("tru", "true"));
}

#[test]
fn prompts_for_the_generator() {
    assert_eq!(short_prompt("hola", "Ana", None), "Cliente (Ana): hola");
    assert_eq!(short_prompt("hola", "Ana", Some("antes")), "Contexto: antes\nCliente (Ana): hola");
    assert_eq!(
        user_message("hola", "Ana", None),
        "Cliente (Ana): hola\n\nResponde como María, natural (80-110 chars). Usa muletillas colombianas. NUNCA cortes frases:"
    );
}

#[test]
fn settings_resolve_once() {
    let d = ServiceConfig::from_values(None, None);
    assert!(d.use_media_streams);
    assert!(!d.quick_reply_enabled);
    let a = ServiceConfig::from_values(Some("false"), Some("TRUE"));
    assert!(!a.use_media_streams);
    assert!(a.quick_reply_enabled);
    let b = ServiceConfig::from_values(Some("yes"), Some("1"));
    assert!(b.use_media_streams);
    assert!(b.quick_reply_enabled);
    let c = ServiceConfig::from_values(Some("False"), Some("0"));
    assert!(c.use_media_streams);
    assert!(!c.quick_reply_enabled);
}

#[test]
fn call_counter_counts() {
    let mut n = CallCounter::new();
    assert_eq!(n.total(), 0);
    n.record_call();
    n.record_call();
    assert_eq!(n.total(), 2);
}

#[test]
fn greeting_by_hour() {
    assert_eq!(greeting_for_hour(4), GreetingKey::Evening);
    assert_eq!(greeting_for_hour(5), GreetingKey::Morning);
    assert_eq!(greeting_for_hour(11), GreetingKey::Morning);
    assert_eq!(greeting_for_hour(12), GreetingKey::Afternoon);
    assert_eq!(greeting_for_hour(18), GreetingKey::Afternoon);
    assert_eq!(greeting_for_hour(19), GreetingKey::Evening);
    assert_eq!(greeting_for_hour(0), GreetingKey::Evening);
}

#[test]
fn greeting_uses_bogota_time() {
    // 1970-01-01 00:00 UTC is 19:00 the day before in Bogota.
    assert_eq!(greeting_at(0), GreetingKey::Evening);
    // 2023-11-14 22:13:20 UTC is 17:13 in Bogota.
    assert_eq!(greeting_at(1_700_000_000), GreetingKey::Afternoon);
    // 15:00 UTC is 10:00 in Bogota.
    assert_eq!(greeting_at(15 * 3600), GreetingKey::Morning);
    // 09:59:59 UTC is 04:59:59 in Bogota.
    assert_eq!(greeting_at(10 * 3600 - 1), GreetingKey::Evening);
    // The same instants by the UTC hour.
    assert_eq!(greeting_at_offset(0, 0), GreetingKey::Evening);
    assert_eq!(greeting_at_offset(1_700_000_000, 0), GreetingKey::Evening);
    assert_eq!(greeting_at_offset(15 * 3600, 0), GreetingKey::Afternoon);
    assert_eq!(greeting_at_offset(10 * 3600 - 1, 0), GreetingKey::Morning);
}

#[test]
fn greeting_and_quick_reply_keys() {
    assert_eq!(GreetingKey::Morning.storage_key(), "audio/greeting_morning.mp3");
    assert_eq!(GreetingKey::Evening.name(), "evening");
    assert!(GreetingKey::Afternoon.text().starts_with("Buenas tardes"));
    assert_eq!(GreetingKey::from_name("afternoon"), Some(GreetingKey::Afternoon));
    assert_eq!(GreetingKey::from_name("night"), None);
    assert_eq!(QuickReply::from_name("processing"), Some(QuickReply::Processing));
    assert_eq!(QuickReply::from_name("other"), None);
    assert_eq!(QuickReply::Processing.storage_key(), "audio/quick_processing.mp3");
    assert!(QuickReply::Processing.text().starts_with("Entendido"));
}

#[test]
fn storage_url_names_bucket_region_and_key() {
    let conf = aws_sdk_s3::config::Builder::new()
        .behavior_version(aws_sdk_s3::config::BehaviorVersion::latest())
        .build();
    let client = aws_sdk_s3::Client::from_conf(conf);
    let s = S3Service::new(client, "bucket-a".to_string(), "us-east-1".to_string());
    assert_eq!(s.get_url("audio/x.mp3"), "https://bucket-a.s3.us-east-1.amazonaws.com/audio/x.mp3");
    assert_eq!(s.bucket(), "bucket-a");
    assert_eq!(s.region(), "us-east-1");
    match s.cache_step("audio/greeting_morning.mp3", true) {
        CacheStep::Reuse(url) => {
            assert_eq!(url, "https://bucket-a.s3.us-east-1.amazonaws.com/audio/greeting_morning.mp3")
        }
        CacheStep::Synthesize => panic!("stored audio should be reused"),
    }
    assert!(matches!(s.cache_step("audio/greeting_morning.mp3", false), CacheStep::Synthesize));
}

#[test]
fn client_state_defaults_and_binding() {
    let f = ClientState::fallback("id1".to_string());
    assert_eq!(f.nombre, "Cliente");
    assert_eq!(f.telefono, "desconocido");
    assert_eq!(f.contexto, None);
    assert_eq!(f.call_control_id, Some("id1".to_string()));
    let s = ClientState {
        nombre: "Test".to_string(),
        telefono: "+12345678".to_string(),
        contexto: Some("Test context".to_string()),
        call_control_id: None,
    };
    let b = s.for_call("test_call_id".to_string());
    assert_eq!(b.nombre, "Test");
    assert_eq!(b.call_control_id, Some("test_call_id".to_string()));
}

#[test]
fn stats_uptime() {
    let s = StatsResponse::at(3, 10, 100, 160);
    assert_eq!(s.active_sessions, 3);
    assert_eq!(s.total_calls, 10);
    assert_eq!(s.uptime_seconds, 60);
    assert_eq!(StatsResponse::at(0, 0, 100, 50).uptime_seconds, 0);
    assert_eq!(StatsResponse::at(0, 0, i64::MIN, i64::MAX).uptime_seconds, u64::MAX);
}

#[test]
fn generator_trial_outcomes() {
    let ok = TestClaudeResponse::succeeded("m".to_string(), "hola".to_string());
    assert!(ok.success);
    assert_eq!(ok.response, Some("hola".to_string()));
    let bad = TestClaudeResponse::failed("m".to_string(), "boom".to_string());
    assert!(!bad.success);
    assert_eq!(bad.error, Some("boom".to_string()));
}

#[test]
fn webhook_events_are_classified() {
    assert_eq!(classify_event("call.answered"), WebhookEventKind::CallAnswered);
    assert_eq!(classify_event("call.speak.ended"), WebhookEventKind::SpeakEnded);
    assert_eq!(classify_event("call.playback.started"), WebhookEventKind::PlaybackStarted);
    assert_eq!(classify_event("call.playback.ended"), WebhookEventKind::PlaybackEnded);
    assert_eq!(classify_event("call.transcription"), WebhookEventKind::Transcription);
    assert_eq!(classify_event("call.transcription.transcript_received"), WebhookEventKind::Transcription);
    assert_eq!(classify_event("call.transcription.transcribed"), WebhookEventKind::Transcription);
    assert_eq!(classify_event("call.transcription.partial"), WebhookEventKind::TranscriptionPartial);
    assert_eq!(classify_event("call.hangup"), WebhookEventKind::Hangup);
    assert_eq!(classify_event("call.initiated"), WebhookEventKind::Unhandled);
    assert_eq!(classify_event("unknown"), WebhookEventKind::Unhandled);
}

#[test]
fn classic_transcripts_need_content() {
    assert!(!classic_transcript_ready("", true));
    assert!(classic_transcript_ready("si", true));
    assert!(!classic_transcript_ready("uno dos tres cuatro", false));
    assert!(classic_transcript_ready("uno dos tres cuatro cinco", false));
    assert!(!classic_transcript_ready("a b c d e", false));
}

#[test]
fn placed_call_identifiers() {
    assert_eq!(pick_call_id(Some("a".to_string()), Some("b".to_string()), None), "a");
    assert_eq!(pick_call_id(None, Some("b".to_string()), Some("c".to_string())), "b");
    assert_eq!(pick_call_id(None, None, Some("c".to_string())), "c");
    assert_eq!(pick_call_id(None, None, None), "unknown");
    assert_eq!(call_status(None), "initiated");
    assert_eq!(call_status(Some("queued".to_string())), "queued");
}
