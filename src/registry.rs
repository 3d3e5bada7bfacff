use vstd::prelude::*;

use dashmap::DashMap;

use crate::session::{
    appended_history, context_spec, opt_text, SessionInfo, SessionManager, SessionView,
};
use crate::text::{clean_reply, cleaned_reply_spec, sanitize_plain, sanitized_spec};
use crate::transcript::{TranscriptEvent, TranscriptVerdict};

verus! {

#[verifier::external_type_specification]
#[verifier::external_body]
#[verifier::reject_recursive_types(K)]
#[verifier::reject_recursive_types(V)]
#[verifier::reject_recursive_types(S)]
pub struct ExDashMap<K, V, S>(DashMap<K, V, S>);

/// The map that holds the sessions.
pub type SessionMap = DashMap<String, SessionInfo>;

/// What a session map holds: each call identifier with the session stored under it.
pub uninterp spec fn sessions_in(m: SessionMap) -> Map<Seq<char>, SessionView>;

/// Relies on `DashMap::new`: a map with no entries.
#[verifier::external_body]
fn session_map_new() -> (r: SessionMap)
    ensures
        sessions_in(r).dom() == Set::<Seq<char>>::empty(),
{
    DashMap::new()
}

/// Relies on `DashMap::insert`: the key maps to the value afterwards, replacing
/// any value stored under it before.
#[verifier::external_body]
fn session_map_insert(m: &mut SessionMap, key: String, value: SessionInfo)
    ensures
        sessions_in(*final(m)) == sessions_in(*old(m)).insert(key@, value@),
{
    m.insert(key, value);
}

/// Relies on `DashMap::remove`: the entry under the key leaves the map and is returned.
#[verifier::external_body]
fn session_map_remove(m: &mut SessionMap, key: &str) -> (r: Option<SessionInfo>)
    ensures
        sessions_in(*final(m)) == sessions_in(*old(m)).remove(key@),
        r is Some <==> sessions_in(*old(m)).contains_key(key@),
        r matches Some(v) ==> v@ == sessions_in(*old(m))[key@],
{
    m.remove(key).map(|(_, v)| v)
}

/// Relies on `DashMap::contains_key`: whether an entry is stored under the key.
#[verifier::external_body]
fn session_map_contains(m: &SessionMap, key: &str) -> (r: bool)
    ensures
        r == sessions_in(*m).contains_key(key@),
{
    m.contains_key(key)
}

/// Relies on `DashMap::get`: reads the transcription flag of the entry under
/// the key, if there is one.
#[verifier::external_body]
fn session_map_transcription_flag(m: &SessionMap, key: &str) -> (r: Option<bool>)
    ensures
        r is Some <==> sessions_in(*m).contains_key(key@),
        r matches Some(b) ==> b == sessions_in(*m)[key@].transcription_started,
{
    m.get(key).map(|entry| entry.transcription_started)
}

/// Relies on `DashMap::len`: the number of entries.
#[verifier::external_body]
fn session_map_len(m: &SessionMap) -> (r: usize)
    ensures
        r == sessions_in(*m).len(),
{
    m.len()
}

/// Whether classic transcription is to be started for a call.
#[derive(PartialEq, Eq, Structural, Debug, Clone, Copy)]
pub enum TranscriptionStart {
    /// Audio arrives through the media stream; classic transcription is not used.
    MediaStreamsActive,
    /// The call has no session.
    NoSession,
    /// It runs already.
    AlreadyStarted,
    /// Start it; mark the session once the provider accepted.
    Start,
}

/// Everything the response generator is asked with for one turn.
pub struct ReplyRequest {
    pub user_text: String,
    pub caller_name: String,
    pub context: Option<String>,
}

/// The sessions of all active calls, by call identifier.
pub struct SessionRegistry {
    sessions: SessionMap,
}

impl View for SessionRegistry {
    type V = Map<Seq<char>, SessionView>;

    closed spec fn view(&self) -> Map<Seq<char>, SessionView> {
        sessions_in(self.sessions)
    }
}

impl SessionRegistry {
    pub fn new() -> (r: SessionRegistry)
        ensures
            r@ == Map::<Seq<char>, SessionView>::empty(),
    {
        let r = SessionRegistry { sessions: session_map_new() };
        assert(r@ == Map::<Seq<char>, SessionView>::empty());
        r
    }

    /// Stores a session under its call identifier, replacing any earlier one.
    pub fn insert(&mut self, session: SessionInfo)
        ensures
            final(self)@ == old(self)@.insert(session@.call_control_id, session@),
    {
        let key = session.call_control_id.clone();
        session_map_insert(&mut self.sessions, key, session);
    }

    /// Creates the session of a call that was answered or whose media stream started.
    pub fn create_session(
        &mut self,
        call_control_id: String,
        nombre: String,
        telefono: String,
        created_at: i64,
    )
        ensures
            final(self)@ == old(self)@.insert(
                call_control_id@,
                SessionView {
                    call_control_id: call_control_id@,
                    nombre: nombre@,
                    telefono: telefono@,
                    contexto: None,
                    created_at,
                    conversation_history: Seq::empty(),
                    transcription_started: false,
                },
            ),
    {
        let s = SessionManager::create_session(call_control_id, nombre, telefono, created_at);
        self.insert(s);
    }

    /// Removes the session of a call that hung up; returns it if there was one.
    pub fn remove(&mut self, call_control_id: &str) -> (r: Option<SessionInfo>)
        ensures
            final(self)@ == old(self)@.remove(call_control_id@),
            r is Some <==> old(self)@.contains_key(call_control_id@),
            r matches Some(s) ==> s@ == old(self)@[call_control_id@],
    {
        session_map_remove(&mut self.sessions, call_control_id)
    }

    /// The number of active sessions.
    pub fn len(&self) -> (r: usize)
        ensures
            r == self@.len(),
    {
        session_map_len(&self.sessions)
    }

    /// Whether a session is stored under the identifier.
    pub fn contains(&self, call_control_id: &str) -> (r: bool)
        ensures
            r == self@.contains_key(call_control_id@),
    {
        session_map_contains(&self.sessions, call_control_id)
    }

    /// Marks classic transcription as started for the call; false when no session is stored.
    pub fn mark_transcription_started(&mut self, call_control_id: &str) -> (r: bool)
        ensures
            r == old(self)@.contains_key(call_control_id@),
            r ==> final(self)@ == old(self)@.insert(
                call_control_id@,
                SessionView { transcription_started: true, ..old(self)@[call_control_id@] },
            ),
            !r ==> final(self)@ == old(self)@,
    {
        match session_map_remove(&mut self.sessions, call_control_id) {
            Some(s) => {
                let mut s = s;
                s.transcription_started = true;
                session_map_insert(&mut self.sessions, call_control_id.to_owned(), s);
                assert(self@ == old(self)@.insert(
                    call_control_id@,
                    SessionView { transcription_started: true, ..old(self)@[call_control_id@] },
                ));
                true
            },
            None => {
                assert(self@ == old(self)@);
                false
            },
        }
    }

    /// Whether classic transcription is to be started for the call now.
    pub fn transcription_step(&self, call_control_id: &str, use_media_streams: bool) -> (r:
        TranscriptionStart)
        ensures
            r == if use_media_streams {
                TranscriptionStart::MediaStreamsActive
            } else if !self@.contains_key(call_control_id@) {
                TranscriptionStart::NoSession
            } else if self@[call_control_id@].transcription_started {
                TranscriptionStart::AlreadyStarted
            } else {
                TranscriptionStart::Start
            },
    {
        if use_media_streams {
            return TranscriptionStart::MediaStreamsActive;
        }
        match self.transcription_started(call_control_id) {
            None => TranscriptionStart::NoSession,
            Some(true) => TranscriptionStart::AlreadyStarted,
            Some(false) => TranscriptionStart::Start,
        }
    }

    /// Whether classic transcription was started for the call; `None` when no session is stored.
    pub fn transcription_started(&self, call_control_id: &str) -> (r: Option<bool>)
        ensures
            r is Some <==> self@.contains_key(call_control_id@),
            r matches Some(b) ==> b == self@[call_control_id@].transcription_started,
    {
        session_map_transcription_flag(&self.sessions, call_control_id)
    }

    /// What the reply generator is asked with for `text` on the call: the text,
    /// the caller's name and the context from the history; `None` when the
    /// call has no session.
    pub fn reply_request(&mut self, call_control_id: &str, text: &str) -> (r: Option<ReplyRequest>)
        ensures
            final(self)@ == old(self)@,
            r is Some <==> old(self)@.contains_key(call_control_id@),
            r matches Some(q) ==> {
                &&& q.user_text@ == text@
                &&& q.caller_name@ == old(self)@[call_control_id@].nombre
                &&& opt_text(q.context) == context_spec(
                    old(self)@[call_control_id@].conversation_history,
                )
            },
    {
        match session_map_remove(&mut self.sessions, call_control_id) {
            Some(s) => {
                let context = SessionManager::context_for_reply(&s);
                let caller_name = s.nombre.clone();
                session_map_insert(&mut self.sessions, call_control_id.to_owned(), s);
                assert(self@ == old(self)@);
                Some(ReplyRequest { user_text: text.to_owned(), caller_name, context })
            },
            None => None,
        }
    }

    /// The first half of a turn. A ready transcript for a call with a session
    /// yields what the reply generator is asked with: the transcript text, the
    /// caller's name and the context from the history. Anything else yields nothing.
    pub fn prepare_reply(&mut self, call_control_id: &str, event: &TranscriptEvent) -> (r: Option<
        ReplyRequest,
    >)
        ensures
            final(self)@ == old(self)@,
            r is Some <==> (event.verdict() == TranscriptVerdict::Ready && old(self)@.contains_key(
                call_control_id@,
            )),
            r matches Some(q) ==> {
                &&& q.user_text@ == event.text@
                &&& q.caller_name@ == old(self)@[call_control_id@].nombre
                &&& opt_text(q.context) == context_spec(
                    old(self)@[call_control_id@].conversation_history,
                )
            },
    {
        if !event.is_ready() {
            return None;
        }
        self.reply_request(call_control_id, event.text.as_str())
    }

    /// Appends a finished reply to the call's history and returns it; when the
    /// call has no session nothing changes and nothing is returned.
    fn record_reply(&mut self, call_control_id: &str, reply: String) -> (r: Option<String>)
        ensures
            r is Some <==> old(self)@.contains_key(call_control_id@),
            r is None ==> final(self)@ == old(self)@,
            r matches Some(x) ==> {
                &&& x@ == reply@
                &&& final(self)@ == old(self)@.insert(
                    call_control_id@,
                    SessionView {
                        conversation_history: appended_history(
                            old(self)@[call_control_id@].conversation_history,
                            reply@,
                        ),
                        ..old(self)@[call_control_id@]
                    },
                )
            },
    {
        match session_map_remove(&mut self.sessions, call_control_id) {
            Some(s) => {
                let mut s = s;
                let ghost text = reply@;
                SessionManager::add_to_history(&mut s, reply.clone());
                session_map_insert(&mut self.sessions, call_control_id.to_owned(), s);
                assert(self@ == old(self)@.insert(
                    call_control_id@,
                    SessionView {
                        conversation_history: appended_history(
                            old(self)@[call_control_id@].conversation_history,
                            text,
                        ),
                        ..old(self)@[call_control_id@]
                    },
                ));
                Some(reply)
            },
            None => {
                assert(self@ == old(self)@);
                None
            },
        }
    }

    /// The second half of a turn, given what the generator returned (`None` on
    /// failure). A reply for a call that still has a session is cleaned,
    /// appended to its history and returned for playback; otherwise nothing
    /// changes and nothing is returned.
    pub fn complete_reply(&mut self, call_control_id: &str, generated: Option<String>) -> (r: Option<
        String,
    >)
        ensures
            r is Some <==> (generated is Some && old(self)@.contains_key(call_control_id@)),
            r is None ==> final(self)@ == old(self)@,
            r matches Some(reply) ==> {
                &&& reply@ == cleaned_reply_spec(generated->0@)
                &&& final(self)@ == old(self)@.insert(
                    call_control_id@,
                    SessionView {
                        conversation_history: appended_history(
                            old(self)@[call_control_id@].conversation_history,
                            reply@,
                        ),
                        ..old(self)@[call_control_id@]
                    },
                )
            },
    {
        match generated {
            Some(raw) => self.record_reply(call_control_id, clean_reply(raw.as_str())),
            None => None,
        }
    }

    /// The second half of a turn on classic (webhook) transcription. As
    /// `complete_reply`, but the cleaned reply is also made plain text: control
    /// characters dropped and each run of white space turned into one blank.
    pub fn complete_classic_reply(&mut self, call_control_id: &str, generated: Option<String>) -> (r:
        Option<String>)
        ensures
            r is Some <==> (generated is Some && old(self)@.contains_key(call_control_id@)),
            r is None ==> final(self)@ == old(self)@,
            r matches Some(reply) ==> {
                &&& reply@ == sanitized_spec(cleaned_reply_spec(generated->0@))
                &&& final(self)@ == old(self)@.insert(
                    call_control_id@,
                    SessionView {
                        conversation_history: appended_history(
                            old(self)@[call_control_id@].conversation_history,
                            reply@,
                        ),
                        ..old(self)@[call_control_id@]
                    },
                )
            },
    {
        match generated {
            Some(raw) => {
                let cleaned = clean_reply(raw.as_str());
                self.record_reply(call_control_id, sanitize_plain(cleaned.as_str()))
            },
            None => None,
        }
    }
}

} // verus!
