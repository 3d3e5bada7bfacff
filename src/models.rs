use vstd::prelude::*;

verus! {

/// A request to call one person.
pub struct InitiateCallRequest {
    pub telefono: String,
    pub nombre: String,
    pub contexto: Option<String>,
    pub saludo: Option<String>,
}

/// A request to call several people, one after the other.
pub struct BatchCallsRequest {
    pub calls: Vec<InitiateCallRequest>,
}

/// The delivery data of a telephony callback.
pub struct WebhookMeta {
    pub attempt: i32,
    pub delivered_at: String,
    pub event_type: String,
}

/// The payload of a `call.answered` callback.
pub struct CallAnsweredPayload {
    pub call_control_id: String,
    pub client_state: Option<String>,
    pub direction: String,
    pub from: String,
    pub to: String,
}

/// Who is called, carried through the telephony provider with the call.
pub struct ClientState {
    pub nombre: String,
    pub telefono: String,
    pub contexto: Option<String>,
    pub call_control_id: Option<String>,
}

impl ClientState {
    /// The state used when a call carries none that can be read.
    pub fn fallback(call_control_id: String) -> (r: ClientState)
        ensures
            r.nombre@ == "Cliente"@,
            r.telefono@ == "desconocido"@,
            r.contexto is None,
            r.call_control_id matches Some(id) && id@ == call_control_id@,
    {
        ClientState {
            nombre: "Cliente".to_owned(),
            telefono: "desconocido".to_owned(),
            contexto: None,
            call_control_id: Some(call_control_id),
        }
    }

    /// The state read from a call, bound to the call it arrived with.
    pub fn for_call(self, call_control_id: String) -> (r: ClientState)
        ensures
            r.nombre == self.nombre,
            r.telefono == self.telefono,
            r.contexto == self.contexto,
            r.call_control_id matches Some(id) && id@ == call_control_id@,
    {
        ClientState { call_control_id: Some(call_control_id), ..self }
    }
}

/// Service statistics.
pub struct StatsResponse {
    pub active_sessions: usize,
    pub total_calls: u64,
    pub uptime_seconds: u64,
}

impl StatsResponse {
    /// The statistics at Unix time `now` for a service started at `started_at`;
    /// the uptime is zero if the clock reads earlier than the start.
    pub fn at(active_sessions: usize, total_calls: u64, started_at: i64, now: i64) -> (r: StatsResponse)
        ensures
            r.active_sessions == active_sessions,
            r.total_calls == total_calls,
            r.uptime_seconds == if now >= started_at {
                now - started_at
            } else {
                0
            },
    {
        let uptime_seconds: u64 = if now >= started_at {
            ((now as i128) - (started_at as i128)) as u64
        } else {
            0
        };
        StatsResponse { active_sessions, total_calls, uptime_seconds }
    }
}

/// An error reported to an API caller.
pub struct ErrorResponse {
    pub error: String,
    pub message: Option<String>,
}

/// A request to try the reply generator without a call.
pub struct TestClaudeRequest {
    pub nombre: String,
    pub mensaje: String,
    pub contexto: Option<String>,
}

/// The outcome of a generator trial.
pub struct TestClaudeResponse {
    pub success: bool,
    pub model: String,
    pub input_tokens: Option<i32>,
    pub output_tokens: Option<i32>,
    pub response: Option<String>,
    pub error: Option<String>,
}

impl TestClaudeResponse {
    pub fn succeeded(model: String, response: String) -> (r: TestClaudeResponse)
        ensures
            r.success,
            r.model == model,
            r.input_tokens is None,
            r.output_tokens is None,
            r.response == Some(response),
            r.error is None,
    {
        TestClaudeResponse {
            success: true,
            model,
            input_tokens: None,
            output_tokens: None,
            response: Some(response),
            error: None,
        }
    }

    pub fn failed(model: String, error: String) -> (r: TestClaudeResponse)
        ensures
            !r.success,
            r.model == model,
            r.input_tokens is None,
            r.output_tokens is None,
            r.response is None,
            r.error == Some(error),
    {
        TestClaudeResponse {
            success: false,
            model,
            input_tokens: None,
            output_tokens: None,
            response: None,
            error: Some(error),
        }
    }
}

} // verus!
