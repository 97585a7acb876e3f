//! The decisions of one request: what each event of a stream does to the
//! response being assembled, when reading stops, which text goes to the
//! live display, and how a refused request is reported.

use vstd::prelude::*;
use vstd::string::*;
use crate::assembler::{fragment_delta, handle_json, merged};
use crate::json::{
    field_of, first_of, parse_json, text_meaning, well_keyed, Json, JsonModel, ParseFailure,
};
use crate::keys::lemma_merged_well_keyed;
use crate::openai_network_types::{
    entries_view, gathered_messages, inputs_view, messages_view, ordered, parsed_view,
    refusal_of, ErrorResponse, OpenAICompletionRequest, Tool,
};
use crate::types::{ApiType, AssistantSettings, CacheEntry, SublimeInputContent};
use crate::text::{contains_text, occurs_in, text_view};

verus! {

/// What the transport reports while a stream is read.
#[derive(Debug, PartialEq, Eq)]
pub enum StreamEvent {
    /// One event, with its payload.
    Data(String),
    /// The transport failed to deliver an event.
    Failed,
    /// The stream has ended.
    Exhausted,
    /// No event came within the time allowed for one.
    TimedOut,
}

/// What one event leads to.
#[derive(Debug, PartialEq, Eq)]
pub struct StreamStep {
    /// The text to forward to the live display, if any.
    pub delta: Option<String>,
    /// Whether reading stops here.
    pub finished: bool,
}

/// One streaming exchange: the response assembled so far, and the text of
/// payloads that ended too early to be parsed.
#[derive(Debug, PartialEq, Eq)]
pub struct StreamSession {
    pub composable: Json,
    pub buffer: String,
}

/// Model of a [`StreamSession`].
pub struct SessionModel {
    pub composable: JsonModel,
    pub buffer: Seq<char>,
}

/// Model of a [`StreamStep`].
pub struct StepModel {
    pub delta: Option<Seq<char>>,
    pub finished: bool,
}

impl View for StreamSession {
    type V = SessionModel;

    open spec fn view(&self) -> SessionModel {
        SessionModel { composable: self.composable@, buffer: self.buffer@ }
    }
}

impl View for StreamStep {
    type V = StepModel;

    open spec fn view(&self) -> StepModel {
        StepModel { delta: text_view(self.delta), finished: self.finished }
    }
}

/// Whether a parse result, where it is a document, is one in which no
/// object holds a key twice.
pub open spec fn well_parsed(parsed: Result<JsonModel, ParseFailure>) -> bool {
    parsed matches Ok(document) ==> well_keyed(document)
}

/// Whether a payload carries a populated `usage` object, which ends a
/// stream whose sender leaves the end marker out.
pub open spec fn has_usage(payload: JsonModel) -> bool {
    payload.field("usage"@) matches Some(JsonModel::Object(_))
}

/// Whether reading stops after a payload: it holds the end marker, or the
/// caller has cancelled.
pub open spec fn stops_after(data: Seq<char>, cancelled: bool) -> bool {
    occurs_in("[DONE]"@, data) || cancelled
}

/// The session after a payload that is merged, and the step it leads to.
pub open spec fn absorbed(
    session: SessionModel,
    payload: JsonModel,
    buffer: Seq<char>,
    data: Seq<char>,
    cancelled: bool,
) -> (SessionModel, StepModel) {
    if has_usage(payload) {
        (session, StepModel { delta: None, finished: true })
    } else {
        (
            SessionModel { composable: merged(session.composable, payload), buffer },
            StepModel { delta: fragment_delta(payload), finished: stops_after(data, cancelled) },
        )
    }
}

/// The session after one event with payload `data`, and the step it leads
/// to, given what the buffered text and the payload parse to.
///
/// A buffer that has become a whole document is merged and emptied, and the
/// payload at hand is passed over. Otherwise a payload that is a document is
/// merged; one that ended too early is added to the buffer; any other is
/// dropped. A document with a populated `usage` ends the stream unmerged.
pub open spec fn after_data(
    session: SessionModel,
    buffered: Result<JsonModel, ParseFailure>,
    fresh: Result<JsonModel, ParseFailure>,
    data: Seq<char>,
    cancelled: bool,
) -> (SessionModel, StepModel) {
    match buffered {
        Ok(combined) => absorbed(session, combined, Seq::empty(), data, cancelled),
        Err(_) => match fresh {
            Ok(payload) => absorbed(session, payload, session.buffer, data, cancelled),
            Err(ParseFailure::Incomplete) => (
                SessionModel { composable: session.composable, buffer: session.buffer + data },
                StepModel { delta: None, finished: stops_after(data, cancelled) },
            ),
            Err(ParseFailure::Malformed) => (
                session,
                StepModel { delta: None, finished: stops_after(data, cancelled) },
            ),
        },
    }
}

/// The session after any event, and the step it leads to. A failed or
/// exhausted transport ends the stream silently; a stall ends it with the
/// stall marker.
pub open spec fn after_event(
    session: SessionModel,
    event: StreamEvent,
    cancelled: bool,
) -> (SessionModel, StepModel) {
    match event {
        StreamEvent::Data(data) => after_data(
            session,
            text_meaning(session.buffer),
            text_meaning(data@),
            data@,
            cancelled,
        ),
        StreamEvent::Failed => (session, StepModel { delta: None, finished: true }),
        StreamEvent::Exhausted => (session, StepModel { delta: None, finished: true }),
        StreamEvent::TimedOut => (
            session,
            StepModel { delta: Some("\n[STALLED]"@), finished: true },
        ),
    }
}

/// The marker that closes the live display of a stream: the abort marker
/// where the caller has cancelled, none otherwise.
pub open spec fn closing_marker(cancelled: bool) -> Option<Seq<char>> {
    if cancelled {
        Some("\n[ABORTED]"@)
    } else {
        None
    }
}

fn has_usage_object(payload: &Json) -> (r: bool)
    ensures
        r == has_usage(payload@),
{
    match payload.get("usage") {
        Some(Json::Object(_)) => true,
        _ => false,
    }
}

impl StreamSession {
    /// A session that has seen nothing: an empty object, an empty buffer.
    pub fn new() -> (r: Self)
        ensures
            r@.composable == JsonModel::Object(Seq::empty()),
            r@.buffer == Seq::<char>::empty(),
            well_keyed(r@.composable),
    {
        StreamSession { composable: Json::empty_object(), buffer: String::new() }
    }

    fn absorb_payload(&mut self, payload: &Json, clear: bool, data: &str, cancelled: bool) -> (r:
        StreamStep)
        ensures
            (final(self)@, r@) == absorbed(
                old(self)@,
                payload@,
                if clear {
                    Seq::empty()
                } else {
                    old(self)@.buffer
                },
                data@,
                cancelled,
            ),
            well_keyed(old(self)@.composable) && well_keyed(payload@) ==> well_keyed(
                final(self)@.composable,
            ),
    {
        if has_usage_object(payload) {
            StreamStep { delta: None, finished: true }
        } else {
            proof {
                if well_keyed(self@.composable) && well_keyed(payload@) {
                    lemma_merged_well_keyed(self@.composable, payload@);
                }
            }
            let delta = handle_json(&mut self.composable, payload);
            if clear {
                self.buffer = String::new();
            }
            let finished = contains_text(data, "[DONE]") || cancelled;
            StreamStep { delta, finished }
        }
    }

    /// Takes one event with payload `data`, given what the buffered text
    /// and the payload parse to. Where no object of the response or of the
    /// parsed documents holds a key twice, none of the response does
    /// afterwards.
    pub fn absorb(
        &mut self,
        buffered: Result<Json, ParseFailure>,
        fresh: Result<Json, ParseFailure>,
        data: &str,
        cancelled: bool,
    ) -> (r: StreamStep)
        ensures
            (final(self)@, r@) == after_data(
                old(self)@,
                parsed_view(buffered),
                parsed_view(fresh),
                data@,
                cancelled,
            ),
            well_keyed(old(self)@.composable) && well_parsed(parsed_view(buffered))
                && well_parsed(parsed_view(fresh)) ==> well_keyed(final(self)@.composable),
    {
        match buffered {
            Ok(combined) => self.absorb_payload(&combined, true, data, cancelled),
            Err(_) => match fresh {
                Ok(payload) => self.absorb_payload(&payload, false, data, cancelled),
                Err(ParseFailure::Incomplete) => {
                    self.buffer.append(data);
                    let finished = contains_text(data, "[DONE]") || cancelled;
                    StreamStep { delta: None, finished }
                },
                Err(ParseFailure::Malformed) => {
                    let finished = contains_text(data, "[DONE]") || cancelled;
                    StreamStep { delta: None, finished }
                },
            },
        }
    }

    /// Takes what the transport reports next. A response in which no
    /// object holds a key twice stays such a response.
    pub fn on_event(&mut self, event: StreamEvent, cancelled: bool) -> (r: StreamStep)
        ensures
            (final(self)@, r@) == after_event(old(self)@, event, cancelled),
            well_keyed(old(self)@.composable) ==> well_keyed(final(self)@.composable),
    {
        match event {
            StreamEvent::Data(data) => {
                let buffered = parse_json(self.buffer.as_str());
                let fresh = parse_json(data.as_str());
                self.absorb(buffered, fresh, data.as_str(), cancelled)
            },
            StreamEvent::Failed => StreamStep { delta: None, finished: true },
            StreamEvent::Exhausted => StreamStep { delta: None, finished: true },
            StreamEvent::TimedOut => StreamStep {
                delta: Some("\n[STALLED]".to_owned()),
                finished: true,
            },
        }
    }

    /// Ends the exchange: the assembled response as it stands, and the
    /// marker that closes the live display.
    pub fn finish(self, cancelled: bool) -> (r: (Json, Option<String>))
        ensures
            r.0@ == self@.composable,
            text_view(r.1) == closing_marker(cancelled),
    {
        let marker = if cancelled {
            Some("\n[ABORTED]".to_owned())
        } else {
            None
        };
        (self.composable, marker)
    }
}

/// The text that a whole, unstreamed response shows: the content of the
/// message of its first choice.
pub open spec fn response_content(body: JsonModel) -> Option<Seq<char>> {
    match field_of(field_of(first_of(body.field("choices"@)), "message"@), "content"@) {
        Some(JsonModel::Str(text)) => Some(text),
        _ => None,
    }
}

/// The text that a whole, unstreamed response shows.
pub fn immediate_content(body: &Json) -> (r: Option<String>)
    ensures
        text_view(r) == response_content(body@),
{
    let first = match body.get("choices") {
        Some(c) => c.first(),
        None => None,
    };
    let message = match first {
        Some(f) => f.get("message"),
        None => None,
    };
    let content = match message {
        Some(m) => m.get("content"),
        None => None,
    };
    match content {
        Some(Json::Str(text)) => Some(text.clone()),
        _ => None,
    }
}

/// The report of a refused request: the status, then the message.
pub open spec fn refusal_report(status: Seq<char>, message: Seq<char>) -> Seq<char> {
    "Request failed with status: "@ + status + ", the error: "@ + message
}

/// The report of a request that was refused with `status` and `body`.
pub fn failure_report(status: &str, body: &str) -> (r: String)
    ensures
        r@ == refusal_report(status@, refusal_of(text_meaning(body@), body@).message()),
{
    let parsed = parse_json(body);
    let message = ErrorResponse::decode(&parsed, body).message();
    let mut report = "Request failed with status: ".to_owned();
    report.append(status);
    report.append(", the error: ");
    report.append(message.as_str());
    report
}


/// Once the caller has cancelled, the event at hand is the last one that
/// is read, whatever it holds.
pub proof fn lemma_cancel_stops_reading(session: SessionModel, event: StreamEvent)
    ensures
        after_event(session, event, true).1.finished,
{
}

/// A cancelled stream closes with the abort marker, and only a cancelled
/// one.
pub proof fn lemma_cancel_is_marked(cancelled: bool)
    ensures
        closing_marker(cancelled) == Some("\n[ABORTED]"@) <==> cancelled,
{
}


/// What a request needs beyond its body.
#[derive(Debug, Clone, Copy, PartialEq, Eq, Structural)]
pub struct NetworkClient {
    /// Seconds to wait for one event of a stream.
    pub timeout: usize,
}

/// The value of the authorization header for a token.
pub open spec fn bearer(token: Seq<char>) -> Seq<char> {
    "Bearer "@ + token
}

impl NetworkClient {
    /// A client that waits `timeout` seconds for each event of a stream.
    pub fn new(timeout: usize) -> (r: Self)
        ensures
            r.timeout == timeout,
    {
        NetworkClient { timeout }
    }

    /// The body of the request of a turn.
    pub fn prepare_payload(
        &self,
        settings: AssistantSettings,
        cache_entries: Vec<CacheEntry>,
        sublime_inputs: Vec<SublimeInputContent>,
        catalog: Vec<Tool>,
    ) -> (r: OpenAICompletionRequest)
        requires
            settings.api_type == ApiType::Antropic ==> cache_entries.len() == 0
                && sublime_inputs.len() == 0,
        ensures
            messages_view(r.messages@) == ordered(
                gathered_messages(
                    text_view(settings.assistant_role),
                    settings.advertisement,
                    settings.api_type,
                    entries_view(cache_entries@),
                    inputs_view(sublime_inputs@),
                ),
            ),
            r.stream == settings.stream,
            r.chat_model@ == settings.chat_model@,
            r.advertisement == settings.advertisement,
            r.temperature == settings.temperature,
            r.max_tokens == settings.max_tokens,
            r.max_completion_tokens == settings.max_completion_tokens,
            r.reasoning_effort == settings.reasoning_effort,
            r.top_p == settings.top_p,
            r.frequency_penalty == settings.frequency_penalty,
            r.presence_penalty == settings.presence_penalty,
            r.tools == (if settings.tools == Some(true) {
                Some(catalog)
            } else {
                None
            }),
            r.parallel_tool_calls == (if settings.tools == Some(true) {
                settings.parallel_tool_calls
            } else {
                None
            }),
    {
        OpenAICompletionRequest::create_openai_completion_request(
            settings,
            cache_entries,
            sublime_inputs,
            catalog,
        )
    }

    /// The value of the authorization header, where a token is
    /// configured.
    pub fn authorization(settings: &AssistantSettings) -> (r: Option<String>)
        ensures
            text_view(r) == match text_view(settings.token) {
                Some(token) => Some(bearer(token)),
                None => None,
            },
    {
        match &settings.token {
            Some(token) => {
                let mut header = "Bearer ".to_owned();
                header.append(token.as_str());
                Some(header)
            },
            None => None,
        }
    }
}

} // verus!
