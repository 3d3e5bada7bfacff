use vstd::prelude::*;

use crate::text::push_str;

verus! {

/// How many earlier replies a session keeps as context.
pub const HISTORY_CAPACITY: usize = 1;

/// The state of one call, from answer to hangup.
pub struct SessionInfo {
    pub call_control_id: String,
    pub nombre: String,
    pub telefono: String,
    pub contexto: Option<String>,
    /// Unix time, in seconds, at which the session was created.
    pub created_at: i64,
    /// Earlier replies, oldest first.
    pub conversation_history: Vec<String>,
    /// Whether classic (non-streaming) transcription was started.
    pub transcription_started: bool,
}

/// The abstract form of a session.
pub struct SessionView {
    pub call_control_id: Seq<char>,
    pub nombre: Seq<char>,
    pub telefono: Seq<char>,
    pub contexto: Option<Seq<char>>,
    pub created_at: i64,
    pub conversation_history: Seq<Seq<char>>,
    pub transcription_started: bool,
}

pub open spec fn opt_text(o: Option<String>) -> Option<Seq<char>> {
    match o {
        Some(s) => Some(s@),
        None => None,
    }
}

pub open spec fn texts_of(v: Seq<String>) -> Seq<Seq<char>> {
    v.map_values(|s: String| s@)
}

impl View for SessionInfo {
    type V = SessionView;

    open spec fn view(&self) -> SessionView {
        SessionView {
            call_control_id: self.call_control_id@,
            nombre: self.nombre@,
            telefono: self.telefono@,
            contexto: opt_text(self.contexto),
            created_at: self.created_at,
            conversation_history: texts_of(self.conversation_history@),
            transcription_started: self.transcription_started,
        }
    }
}

/// The history after `m` is appended: the oldest entry goes once the capacity is passed.
pub open spec fn appended_history(h: Seq<Seq<char>>, m: Seq<char>) -> Seq<Seq<char>> {
    let h2 = h.push(m);
    if h2.len() > HISTORY_CAPACITY {
        h2.drop_first()
    } else {
        h2
    }
}

/// The entries of `h` joined by `" | "`.
pub open spec fn joined_spec(h: Seq<Seq<char>>) -> Seq<char>
    decreases h.len(),
{
    if h.len() == 0 {
        Seq::empty()
    } else if h.len() == 1 {
        h[0]
    } else {
        joined_spec(h.drop_last()) + " | "@ + h.last()
    }
}

/// The context handed to the reply generator: the joined history, or none when that is empty.
pub open spec fn context_spec(h: Seq<Seq<char>>) -> Option<Seq<char>> {
    let j = joined_spec(h);
    if j.len() == 0 {
        None
    } else {
        Some(j)
    }
}

/// Appending to a history within capacity keeps it within capacity; the new
/// reply is the most recent entry, and a full history loses its oldest entry first.
pub proof fn lemma_history_capacity(h: Seq<Seq<char>>, m: Seq<char>)
    requires
        h.len() <= HISTORY_CAPACITY,
    ensures
        appended_history(h, m).len() <= HISTORY_CAPACITY,
        appended_history(h, m).last() == m,
        h.len() == HISTORY_CAPACITY ==> appended_history(h, m) == h.drop_first().push(m),
        h.len() < HISTORY_CAPACITY ==> appended_history(h, m) == h.push(m),
{
    if h.len() == HISTORY_CAPACITY {
        assert(h.push(m).drop_first() == h.drop_first().push(m));
    }
}

/// Creation and upkeep of call sessions.
pub struct SessionManager;

impl SessionManager {
    /// A fresh session with an empty history.
    pub fn create_session(
        call_control_id: String,
        nombre: String,
        telefono: String,
        created_at: i64,
    ) -> (r: SessionInfo)
        ensures
            r@ == (SessionView {
                call_control_id: call_control_id@,
                nombre: nombre@,
                telefono: telefono@,
                contexto: None,
                created_at,
                conversation_history: Seq::empty(),
                transcription_started: false,
            }),
    {
        let r = SessionInfo {
            call_control_id,
            nombre,
            telefono,
            contexto: None,
            created_at,
            conversation_history: Vec::new(),
            transcription_started: false,
        };
        assert(texts_of(r.conversation_history@) == Seq::<Seq<char>>::empty());
        r
    }

    /// Appends a reply to the history, dropping the oldest entry once the
    /// capacity is passed.
    pub fn add_to_history(session: &mut SessionInfo, message: String)
        ensures
            final(session)@ == (SessionView {
                conversation_history: appended_history(
                    old(session)@.conversation_history,
                    message@,
                ),
                ..old(session)@
            }),
    {
        let ghost h = session.conversation_history@;
        session.conversation_history.push(message);
        assert(texts_of(session.conversation_history@) == texts_of(h).push(message@));
        if session.conversation_history.len() > HISTORY_CAPACITY {
            let ghost h2 = session.conversation_history@;
            session.conversation_history.remove(0);
            assert(session.conversation_history@ == h2.drop_first());
            assert(texts_of(session.conversation_history@) == texts_of(h2).drop_first());
        }
    }

    /// The history joined by `" | "`.
    pub fn get_conversation_context(session: &SessionInfo) -> (r: String)
        ensures
            r@ == joined_spec(session@.conversation_history),
    {
        let h = &session.conversation_history;
        let ghost th = texts_of(h@);
        let mut out = String::new();
        let mut i: usize = 0;
        while i < h.len()
            invariant
                i <= h.len(),
                th == texts_of(h@),
                out@ == joined_spec(th.take(i as int)),
            decreases h.len() - i,
        {
            assert(th.take(i + 1).drop_last() == th.take(i as int));
            if i > 0 {
                push_str(&mut out, " | ");
            } else {
                assert(Seq::<char>::empty() + h[0 as int]@ == h[0 as int]@);
            }
            push_str(&mut out, h[i].as_str());
            i = i + 1;
        }
        assert(th.take(h.len() as int) == th);
        out
    }

    /// The context for the reply generator, or `None` when the history gives none.
    pub fn context_for_reply(session: &SessionInfo) -> (r: Option<String>)
        ensures
            opt_text(r) == context_spec(session@.conversation_history),
    {
        let joined = SessionManager::get_conversation_context(session);
        if joined.as_str().is_empty() {
            None
        } else {
            Some(joined)
        }
    }
}

} // verus!
