use vstd::prelude::*;
use crate::auth::{is_refresh_forced, refresh_forced};
use crate::prompt::{build_user_prompt, system_prompt, user_prompt, SYSTEM_PROMPT};
use crate::text::{opt_text, text_of};
use crate::sanitize::{remove_markdown, sanitized};

verus! {

/// Body of the reply when generation produced no text.
pub const EMPTY_RESULT_MESSAGE: &'static str = "No response text found";

/// Body of the reply when the generation call failed.
pub const GENERATION_FAILED_MESSAGE: &'static str = "Failed to get completion";

/// Body of the reply when the stored schema could not be read.
pub const LOOKUP_FAILED_MESSAGE: &'static str = "Failed to read schema from DB";

/// Body of the reply when the schema could not be written.
pub const STORE_FAILED_MESSAGE: &'static str = "Failed to insert schema into DB";

/// Body of the reply to an event that the current phase does not expect.
pub const UNEXPECTED_EVENT_MESSAGE: &'static str = "Unexpected request state";

/// How a generated schema is written to the store.
#[derive(Clone, Copy, Debug, PartialEq, Eq, Structural)]
pub enum WriteMode {
    /// Insert, or replace the record stored for the key.
    Replace,
    /// Insert only where no record exists for the key.
    IfAbsent,
}

/// The parts of an HTTP request that the flow reads. `refresh` is the
/// refresh header's value where the header is present.
pub struct RequestParts {
    pub method: String,
    pub path: String,
    pub headers: Vec<(String, String)>,
    pub body: String,
    pub refresh: Option<String>,
}

/// The HTTP reply that ends a request: status, body and whether the body is
/// sent as JSON (otherwise as plain text).
pub struct Reply {
    pub status: u16,
    pub body: String,
    pub json: bool,
}

/// What the driver does next.
pub enum Action {
    /// Read the schema stored for (path, method).
    Lookup,
    /// Call the model once with these instructions.
    Generate { system: String, user: String },
    /// Write `schema` for (path, method) in the given mode.
    Store { mode: WriteMode, schema: String },
    /// Send the reply; the request is over.
    Respond(Reply),
}

/// What the driver reports back after an action.
pub enum Event {
    /// The lookup ran: the stored schema, or `None` where no record exists.
    Found(Option<String>),
    /// The lookup failed for a reason other than a missing record.
    LookupFailed,
    /// The model answered: its text, or `None` where it gave no text.
    Generated(Option<String>),
    /// The model call failed.
    GenerationFailed,
    /// The write succeeded.
    Stored,
    /// The write failed.
    StoreFailed,
}

/// Where a request stands.
pub enum Phase {
    /// Waiting for the stored schema.
    AwaitLookup,
    /// Waiting for the model; `cached` tells whether a schema was found.
    AwaitGeneration { cached: bool },
    /// Waiting for the write of `body`, which is then the reply.
    AwaitStore { body: String },
    /// The reply has been given.
    Done,
}

/// One request on its way from cache lookup to reply.
pub struct Exchange {
    pub request: RequestParts,
    pub forced: bool,
    pub phase: Phase,
}

/// An action with its texts as character sequences.
pub enum ActionView {
    Lookup,
    Generate { system: Seq<char>, user: Seq<char> },
    Store { mode: WriteMode, schema: Seq<char> },
    Respond { status: u16, body: Seq<char>, json: bool },
}

/// An event with its texts as character sequences.
pub enum EventView {
    Found(Option<Seq<char>>),
    LookupFailed,
    Generated(Option<Seq<char>>),
    GenerationFailed,
    Stored,
    StoreFailed,
}

/// A phase with its texts as character sequences.
pub enum PhaseView {
    AwaitLookup,
    AwaitGeneration { cached: bool },
    AwaitStore { body: Seq<char> },
    Done,
}

/// The request as the flow sees it.
pub struct RequestView {
    pub method: Seq<char>,
    pub path: Seq<char>,
    pub headers: Seq<(String, String)>,
    pub body: Seq<char>,
    pub refresh: Option<Seq<char>>,
}

/// An exchange as the flow's contracts see it.
pub struct ExchangeView {
    pub request: RequestView,
    pub forced: bool,
    pub phase: PhaseView,
}

impl View for RequestParts {
    type V = RequestView;

    open spec fn view(&self) -> RequestView {
        RequestView {
            method: self.method@,
            path: self.path@,
            headers: self.headers@,
            body: self.body@,
            refresh: opt_text(self.refresh),
        }
    }
}

impl View for Action {
    type V = ActionView;

    open spec fn view(&self) -> ActionView {
        match self {
            Action::Lookup => ActionView::Lookup,
            Action::Generate { system, user } => ActionView::Generate { system: system@, user: user@ },
            Action::Store { mode, schema } => ActionView::Store { mode: *mode, schema: schema@ },
            Action::Respond(r) => ActionView::Respond { status: r.status, body: r.body@, json: r.json },
        }
    }
}

impl View for Event {
    type V = EventView;

    open spec fn view(&self) -> EventView {
        match self {
            Event::Found(s) => EventView::Found(opt_text(*s)),
            Event::LookupFailed => EventView::LookupFailed,
            Event::Generated(t) => EventView::Generated(opt_text(*t)),
            Event::GenerationFailed => EventView::GenerationFailed,
            Event::Stored => EventView::Stored,
            Event::StoreFailed => EventView::StoreFailed,
        }
    }
}

impl View for Phase {
    type V = PhaseView;

    open spec fn view(&self) -> PhaseView {
        match self {
            Phase::AwaitLookup => PhaseView::AwaitLookup,
            Phase::AwaitGeneration { cached } => PhaseView::AwaitGeneration { cached: *cached },
            Phase::AwaitStore { body } => PhaseView::AwaitStore { body: body@ },
            Phase::Done => PhaseView::Done,
        }
    }
}

impl View for Exchange {
    type V = ExchangeView;

    open spec fn view(&self) -> ExchangeView {
        ExchangeView { request: self.request@, forced: self.forced, phase: self.phase@ }
    }
}

/// The generation request for `req`, constrained by `schema` where given.
pub open spec fn generate_for(req: RequestView, schema: Option<Seq<char>>) -> ActionView {
    ActionView::Generate {
        system: SYSTEM_PROMPT@,
        user: user_prompt(req.method, req.path, req.headers, req.body, schema),
    }
}

/// The action that ends a request with a reply.
pub open spec fn respond(status: u16, body: Seq<char>, json: bool) -> ActionView {
    ActionView::Respond { status, body, json }
}

/// The first step of a request: a forced refresh skips the lookup and
/// generates without a constraint; any other request reads the store first.
pub open spec fn start(req: RequestView, secret: Option<Seq<char>>) -> (ExchangeView, ActionView) {
    if refresh_forced(req.refresh, secret) {
        (
            ExchangeView { request: req, forced: true, phase: PhaseView::AwaitGeneration { cached: false } },
            generate_for(req, None),
        )
    } else {
        (
            ExchangeView { request: req, forced: false, phase: PhaseView::AwaitLookup },
            ActionView::Lookup,
        )
    }
}

/// One step of a request: the phase and the reported event give the next
/// phase and action.
pub open spec fn next(e: ExchangeView, ev: EventView) -> (ExchangeView, ActionView) {
    let done = ExchangeView { phase: PhaseView::Done, ..e };
    match (e.phase, ev) {
        (PhaseView::AwaitLookup, EventView::Found(s)) => (
            ExchangeView { phase: PhaseView::AwaitGeneration { cached: s is Some }, ..e },
            generate_for(e.request, s),
        ),
        (PhaseView::AwaitLookup, EventView::LookupFailed) => (done, respond(500, LOOKUP_FAILED_MESSAGE@, false)),
        (PhaseView::AwaitGeneration { cached: _ }, EventView::GenerationFailed) => (
            done,
            respond(500, GENERATION_FAILED_MESSAGE@, false),
        ),
        (PhaseView::AwaitGeneration { cached: _ }, EventView::Generated(None)) => (
            done,
            respond(404, EMPTY_RESULT_MESSAGE@, false),
        ),
        (PhaseView::AwaitGeneration { cached }, EventView::Generated(Some(t))) => {
            let body = sanitized(t);
            if e.forced {
                (
                    ExchangeView { phase: PhaseView::AwaitStore { body }, ..e },
                    ActionView::Store { mode: WriteMode::Replace, schema: body },
                )
            } else if !cached {
                (
                    ExchangeView { phase: PhaseView::AwaitStore { body }, ..e },
                    ActionView::Store { mode: WriteMode::IfAbsent, schema: body },
                )
            } else {
                (done, respond(200, body, true))
            }
        },
        (PhaseView::AwaitStore { body }, EventView::Stored) => (done, respond(200, body, true)),
        (PhaseView::AwaitStore { body: _ }, EventView::StoreFailed) => (done, respond(500, STORE_FAILED_MESSAGE@, false)),
        _ => (done, respond(500, UNEXPECTED_EVENT_MESSAGE@, false)),
    }
}

/// Ends the request with a reply.
fn reply(status: u16, body: &str, json: bool) -> (r: Action)
    ensures
        r@ == respond(status, body@, json),
{
    Action::Respond(Reply { status, body: String::from_str(body), json })
}

/// The generation action for `request`, constrained by `schema` where given.
fn generation(request: &RequestParts, schema: Option<&str>) -> (r: Action)
    ensures
        r@ == generate_for(request@, text_of(schema)),
{
    let user = build_user_prompt(
        request.method.as_str(),
        request.path.as_str(),
        &request.headers,
        request.body.as_str(),
        schema,
    );
    Action::Generate { system: system_prompt(), user }
}

impl Exchange {
    /// Starts a request. `secret` is the configured authorisation key.
    pub fn begin(request: RequestParts, secret: Option<&str>) -> (r: (Exchange, Action))
        ensures
            (r.0@, r.1@) == start(request@, text_of(secret)),
    {
        let refresh = match &request.refresh {
            Some(v) => Some(v.as_str()),
            None => None,
        };
        let forced = is_refresh_forced(refresh, secret);
        proof {
            assert(text_of(refresh) == request@.refresh);
        }
        if forced {
            let action = generation(&request, None);
            (Exchange { request, forced: true, phase: Phase::AwaitGeneration { cached: false } }, action)
        } else {
            (Exchange { request, forced: false, phase: Phase::AwaitLookup }, Action::Lookup)
        }
    }

    /// Takes the outcome of the last action and returns the next one.
    pub fn advance(&mut self, event: Event) -> (r: Action)
        ensures
            (final(self)@, r@) == next(old(self)@, event@),
    {
        let mut phase = Phase::Done;
        core::mem::swap(&mut self.phase, &mut phase);
        match (phase, event) {
            (Phase::AwaitLookup, Event::Found(s)) => {
                let cached = s.is_some();
                let action = match &s {
                    Some(schema) => generation(&self.request, Some(schema.as_str())),
                    None => generation(&self.request, None),
                };
                self.phase = Phase::AwaitGeneration { cached };
                action
            },
            (Phase::AwaitLookup, Event::LookupFailed) => reply(500, LOOKUP_FAILED_MESSAGE, false),
            (Phase::AwaitGeneration { cached: _ }, Event::GenerationFailed) => {
                reply(500, GENERATION_FAILED_MESSAGE, false)
            },
            (Phase::AwaitGeneration { cached: _ }, Event::Generated(None)) => {
                reply(404, EMPTY_RESULT_MESSAGE, false)
            },
            (Phase::AwaitGeneration { cached }, Event::Generated(Some(text))) => {
                let body = String::from_str(remove_markdown(text.as_str()));
                if self.forced {
                    let schema = body.clone();
                    self.phase = Phase::AwaitStore { body };
                    Action::Store { mode: WriteMode::Replace, schema }
                } else if !cached {
                    let schema = body.clone();
                    self.phase = Phase::AwaitStore { body };
                    Action::Store { mode: WriteMode::IfAbsent, schema }
                } else {
                    Action::Respond(Reply { status: 200, body, json: true })
                }
            },
            (Phase::AwaitStore { body }, Event::Stored) => Action::Respond(Reply { status: 200, body, json: true }),
            (Phase::AwaitStore { body: _ }, Event::StoreFailed) => reply(500, STORE_FAILED_MESSAGE, false),
            (_, _) => reply(500, UNEXPECTED_EVENT_MESSAGE, false),
        }
    }
}

} // verus!
