//! The trigger: one run from generation through the two notifications, as a
//! machine that is told what happened and says what is to be done next.

use crate::config::{Config, Settings};
use crate::error::{AppError, ErrorKind, Failure};
use crate::gemini::{
    asked, create_request, generate_fermi_problem_and_solution, generated, request_address,
    request_failure, request_refused, request_url, Asked, Estimation, GeminiRequest,
    GeminiResponse,
};
use crate::ntfy::{
    notification, notification_failure, notification_refused, send_notification, Notification,
    NotificationRequest,
};
use crate::status::{success_code, HttpStatus};
use vstd::prelude::*;

verus! {

/// How long the service is to hold the solution back.
pub const SOLUTION_DELAY: &'static str = "10m";

/// The words that open the title of the problem.
pub const PROBLEM_PREFIX: &'static str = "Problem: ";

/// The words that open the title of the solution.
pub const SOLUTION_PREFIX: &'static str = "Solution: ";

/// The seconds after which an exchange with a service is given up.
pub const REQUEST_TIMEOUT_SECS: u64 = 45;

/// What the caller of the service is answered.
#[derive(Debug, Clone, PartialEq, Eq)]
pub struct TriggerResponse {
    /// The number of the HTTP status.
    pub status: u16,
    /// The body, in plain words.
    pub body: String,
    /// Whether the body goes out encoded as a JSON string.
    pub json: bool,
}

/// The mathematical value of a `TriggerResponse`.
pub struct Reply {
    pub status: u16,
    pub body: Seq<char>,
    pub json: bool,
}

impl View for TriggerResponse {
    type V = Reply;

    open spec fn view(&self) -> Reply {
        Reply { status: self.status, body: self.body@, json: self.json }
    }
}

/// Whether a failure of kind `kind` is one of a service that was called,
/// not one of this service.
pub open spec fn upstream(kind: ErrorKind) -> bool {
    kind == ErrorKind::Reqwest || kind == ErrorKind::GeminiApi || kind == ErrorKind::Ntfy
}

/// The status that answers a failure of kind `kind`: 502 for a failure of a
/// service that was called, 500 for any other.
pub open spec fn error_status(kind: ErrorKind) -> u16 {
    if upstream(kind) {
        502
    } else {
        500
    }
}

/// The few words that tell the caller what kind of failure it was.
pub open spec fn error_category(kind: ErrorKind) -> Seq<char> {
    match kind {
        ErrorKind::Config => "Configuration Error"@,
        ErrorKind::Reqwest => "Upstream Service Error"@,
        ErrorKind::Serde => "Data Processing Error"@,
        ErrorKind::GeminiApi => "Gemini API Error"@,
        ErrorKind::Ntfy => "Notification Service Error"@,
        ErrorKind::Io => "IO Error"@,
        ErrorKind::ParseError => "Content Parsing Error"@,
        ErrorKind::Internal => "Internal Server Error"@,
    }
}

/// What the caller is answered on a failure of kind `kind`. It depends on
/// the kind alone: the detail of a failure is never handed out.
pub open spec fn error_reply(kind: ErrorKind) -> Reply {
    Reply { status: error_status(kind), body: error_category(kind), json: true }
}

/// What the caller is answered when the problem is out and the solution is scheduled.
pub open spec fn done_reply() -> Reply {
    Reply {
        status: 200,
        body: "Fermi problem sent, solution scheduled for "@ + SOLUTION_DELAY@ + " delay."@,
        json: false,
    }
}

/// What the probe for liveness is answered.
pub open spec fn health_reply() -> Reply {
    Reply { status: 200, body: "OK"@, json: false }
}

impl AppError {
    /// What the caller is answered on this failure.
    pub fn error_response(&self) -> (r: TriggerResponse)
        ensures
            r@ == error_reply(self@.kind),
            r.status == 502 || r.status == 500,
            r.status == 502 <==> upstream(self@.kind),
    {
        let (status, category): (u16, &'static str) = match self.kind() {
            ErrorKind::Config => (500, "Configuration Error"),
            ErrorKind::Reqwest => (502, "Upstream Service Error"),
            ErrorKind::Serde => (500, "Data Processing Error"),
            ErrorKind::GeminiApi => (502, "Gemini API Error"),
            ErrorKind::Ntfy => (502, "Notification Service Error"),
            ErrorKind::Io => (500, "IO Error"),
            ErrorKind::ParseError => (500, "Content Parsing Error"),
            ErrorKind::Internal => (500, "Internal Server Error"),
        };
        TriggerResponse { status, body: category.to_owned(), json: true }
    }
}

/// Answers the probe for liveness. Nothing is asked of any service.
pub fn health_check() -> (r: TriggerResponse)
    ensures
        r@ == health_reply(),
{
    TriggerResponse { status: 200, body: "OK".to_owned(), json: false }
}

/// Where a run stands.
#[derive(Debug, Clone, PartialEq, Eq)]
pub enum State {
    /// Nothing has been done yet.
    Idle,
    /// The request for a puzzle is out.
    Generating,
    /// The generation service answered without success; its body is being read.
    GenerationRefused(HttpStatus),
    /// The generation service answered with success; its body is being decoded.
    GenerationAnswered,
    /// The problem is on its way; the solution waits here.
    ProblemSent { solution: String },
    /// The notification service refused the problem; its body is being read.
    ProblemRefused(HttpStatus),
    /// The solution is on its way.
    SolutionSent,
    /// The notification service refused the solution; its body is being read.
    SolutionRefused(HttpStatus),
    /// The caller has its answer.
    Finished,
}

/// What happened since the last step.
#[derive(Debug, PartialEq, Eq)]
pub enum Event {
    /// The service was called.
    Triggered,
    /// The exchange failed before any status came back.
    Transport(String),
    /// A response came back with this status.
    Status(HttpStatus),
    /// The body of a refusal, if it could be read.
    ErrorBody(Option<String>),
    /// The decoded answer of the generation service, or why it did not decode.
    Envelope(Result<GeminiResponse, String>),
}

/// What is to be done next.
#[derive(Debug, PartialEq, Eq)]
pub enum Action {
    /// Post `request` to `url` and report the status.
    Generate { url: String, request: GeminiRequest },
    /// Post the notification and report the status.
    Notify(NotificationRequest),
    /// Read the body of the last response as text and report it.
    ReadErrorBody,
    /// Decode the body of the last response and report it.
    ReadEnvelope,
    /// End the run with this outcome.
    Finish(Result<TriggerResponse, AppError>),
}

/// The mathematical value of a `State`.
pub enum StateView {
    Idle,
    Generating,
    GenerationRefused(u16),
    GenerationAnswered,
    ProblemSent { solution: Seq<char> },
    ProblemRefused(u16),
    SolutionSent,
    SolutionRefused(u16),
    Finished,
}

/// The mathematical value of an `Event`.
pub enum EventView {
    Triggered,
    Transport(Seq<char>),
    Status(u16),
    ErrorBody(Option<Seq<char>>),
    Envelope(Result<Seq<Seq<Seq<char>>>, Seq<char>>),
}

/// The mathematical value of an `Action`.
pub enum ActionView {
    Generate { url: Seq<char>, request: Asked },
    Notify(Notification),
    ReadErrorBody,
    ReadEnvelope,
    Finish(Result<Reply, Failure>),
}

impl View for State {
    type V = StateView;

    open spec fn view(&self) -> StateView {
        match self {
            State::Idle => StateView::Idle,
            State::Generating => StateView::Generating,
            State::GenerationRefused(s) => StateView::GenerationRefused(s.code()),
            State::GenerationAnswered => StateView::GenerationAnswered,
            State::ProblemSent { solution } => StateView::ProblemSent { solution: solution@ },
            State::ProblemRefused(s) => StateView::ProblemRefused(s.code()),
            State::SolutionSent => StateView::SolutionSent,
            State::SolutionRefused(s) => StateView::SolutionRefused(s.code()),
            State::Finished => StateView::Finished,
        }
    }
}

impl View for Event {
    type V = EventView;

    open spec fn view(&self) -> EventView {
        match self {
            Event::Triggered => EventView::Triggered,
            Event::Transport(reason) => EventView::Transport(reason@),
            Event::Status(s) => EventView::Status(s.code()),
            Event::ErrorBody(Some(body)) => EventView::ErrorBody(Some(body@)),
            Event::ErrorBody(None) => EventView::ErrorBody(None),
            Event::Envelope(Ok(response)) => EventView::Envelope(Ok(response@)),
            Event::Envelope(Err(reason)) => EventView::Envelope(Err(reason@)),
        }
    }
}

impl View for Action {
    type V = ActionView;

    open spec fn view(&self) -> ActionView {
        match self {
            Action::Generate { url, request } => ActionView::Generate {
                url: url@,
                request: request@,
            },
            Action::Notify(n) => ActionView::Notify(n@),
            Action::ReadErrorBody => ActionView::ReadErrorBody,
            Action::ReadEnvelope => ActionView::ReadEnvelope,
            Action::Finish(Ok(response)) => ActionView::Finish(Ok(response@)),
            Action::Finish(Err(e)) => ActionView::Finish(Err(e@)),
        }
    }
}

/// The end of a run in the failure `f`.
pub open spec fn fail(f: Failure) -> (StateView, ActionView) {
    (StateView::Finished, ActionView::Finish(Err(f)))
}

/// The failure of an exchange that broke off before any status came back.
pub open spec fn transport_failure(reason: Seq<char>) -> Failure {
    Failure { kind: ErrorKind::Reqwest, detail: reason }
}

/// The failure of an event that the state of the run does not expect.
pub open spec fn out_of_turn() -> Failure {
    Failure { kind: ErrorKind::Internal, detail: "unexpected event"@ }
}

/// One step of a run: a puzzle is asked for; its problem is sent at once;
/// then its solution is sent with the fixed delay; then the caller is told
/// so. The first failure ends the run, and nothing is tried twice.
pub open spec fn step(settings: Settings, state: StateView, event: EventView) -> (
    StateView,
    ActionView,
) {
    match (state, event) {
        (StateView::Idle, EventView::Triggered) => (
            StateView::Generating,
            ActionView::Generate {
                url: request_address(settings.gemini_api_key),
                request: asked(),
            },
        ),
        (StateView::Generating, EventView::Transport(reason)) => fail(transport_failure(reason)),
        (StateView::Generating, EventView::Status(code)) => if success_code(code) {
            (StateView::GenerationAnswered, ActionView::ReadEnvelope)
        } else {
            (StateView::GenerationRefused(code), ActionView::ReadErrorBody)
        },
        (StateView::GenerationRefused(code), EventView::ErrorBody(body)) => fail(
            request_refused(code, body),
        ),
        (StateView::GenerationAnswered, EventView::Envelope(Err(reason))) => fail(
            transport_failure(reason),
        ),
        (StateView::GenerationAnswered, EventView::Envelope(Ok(response))) => match generated(
            response,
        ) {
            Ok(estimation) => (
                StateView::ProblemSent { solution: estimation.solution },
                ActionView::Notify(
                    notification(settings, PROBLEM_PREFIX@, estimation.problem, None),
                ),
            ),
            Err(f) => fail(f),
        },
        (StateView::ProblemSent { solution }, EventView::Transport(reason)) => fail(
            transport_failure(reason),
        ),
        (StateView::ProblemSent { solution }, EventView::Status(code)) => if success_code(code) {
            (
                StateView::SolutionSent,
                ActionView::Notify(notification(settings, SOLUTION_PREFIX@, solution, Some(SOLUTION_DELAY@))),
            )
        } else {
            (StateView::ProblemRefused(code), ActionView::ReadErrorBody)
        },
        (StateView::ProblemRefused(code), EventView::ErrorBody(body)) => fail(
            notification_refused(code, body),
        ),
        (StateView::SolutionSent, EventView::Transport(reason)) => fail(
            transport_failure(reason),
        ),
        (StateView::SolutionSent, EventView::Status(code)) => if success_code(code) {
            (StateView::Finished, ActionView::Finish(Ok(done_reply())))
        } else {
            (StateView::SolutionRefused(code), ActionView::ReadErrorBody)
        },
        (StateView::SolutionRefused(code), EventView::ErrorBody(body)) => fail(
            notification_refused(code, body),
        ),
        _ => fail(out_of_turn()),
    }
}

/// The end of a run in the failure `e`.
fn failed(e: AppError) -> (r: (State, Action))
    ensures
        (r.0@, r.1@) == fail(e@),
{
    (State::Finished, Action::Finish(Err(e)))
}

/// The end of a run on an event that its state does not expect.
fn refuse_event() -> (r: (State, Action))
    ensures
        (r.0@, r.1@) == fail(out_of_turn()),
{
    failed(AppError::Internal("unexpected event".to_owned()))
}

/// What the caller is answered when the problem is out and the solution is scheduled.
pub fn done_response() -> (r: TriggerResponse)
    ensures
        r@ == done_reply(),
{
    let mut body = "Fermi problem sent, solution scheduled for ".to_owned();
    body.append(SOLUTION_DELAY);
    body.append(" delay.");
    TriggerResponse { status: 200, body, json: false }
}

/// Takes one step of a run: from where the run stands and what happened,
/// to where it stands now and what is to be done next.
pub fn handle_fermi_request(config: &Config, state: State, event: Event) -> (r: (State, Action))
    ensures
        (r.0@, r.1@) == step(config@, state@, event@),
{
    match state {
        State::Idle => match event {
            Event::Triggered => (
                State::Generating,
                Action::Generate { url: request_url(config), request: create_request() },
            ),
            _ => refuse_event(),
        },
        State::Generating => match event {
            Event::Transport(reason) => failed(AppError::Reqwest(reason)),
            Event::Status(status) => if status.is_success() {
                (State::GenerationAnswered, Action::ReadEnvelope)
            } else {
                (State::GenerationRefused(status), Action::ReadErrorBody)
            },
            _ => refuse_event(),
        },
        State::GenerationRefused(status) => match event {
            Event::ErrorBody(body) => failed(request_failure(&status, &body)),
            _ => refuse_event(),
        },
        State::GenerationAnswered => match event {
            Event::Envelope(Err(reason)) => failed(AppError::Reqwest(reason)),
            Event::Envelope(Ok(response)) => match generate_fermi_problem_and_solution(&response) {
                Ok(estimation) => {
                    let request = send_notification(
                        config,
                        PROBLEM_PREFIX,
                        estimation.problem.as_str(),
                        None,
                    );
                    (State::ProblemSent { solution: estimation.solution }, Action::Notify(request))
                },
                Err(e) => failed(e),
            },
            _ => refuse_event(),
        },
        State::ProblemSent { solution } => match event {
            Event::Transport(reason) => failed(AppError::Reqwest(reason)),
            Event::Status(status) => if status.is_success() {
                let request = send_notification(
                    config,
                    SOLUTION_PREFIX,
                    solution.as_str(),
                    Some(SOLUTION_DELAY),
                );
                (State::SolutionSent, Action::Notify(request))
            } else {
                (State::ProblemRefused(status), Action::ReadErrorBody)
            },
            _ => refuse_event(),
        },
        State::ProblemRefused(status) => match event {
            Event::ErrorBody(body) => failed(notification_failure(&status, &body)),
            _ => refuse_event(),
        },
        State::SolutionSent => match event {
            Event::Transport(reason) => failed(AppError::Reqwest(reason)),
            Event::Status(status) => if status.is_success() {
                (State::Finished, Action::Finish(Ok(done_response())))
            } else {
                (State::SolutionRefused(status), Action::ReadErrorBody)
            },
            _ => refuse_event(),
        },
        State::SolutionRefused(status) => match event {
            Event::ErrorBody(body) => failed(notification_failure(&status, &body)),
            _ => refuse_event(),
        },
        State::Finished => refuse_event(),
    }
}

/// A run ends exactly when the caller gets its answer: a step that says
/// to finish leaves the run finished, and no other step does.
pub proof fn law_finish_ends_run(settings: Settings, state: StateView, event: EventView)
    ensures
        step(settings, state, event).1 is Finish <==> step(settings, state, event).0 is Finished,
{
}

/// Nothing more is done in a run that is finished: whatever is reported
/// then is out of turn.
pub proof fn law_finished_stays(settings: Settings, event: EventView)
    ensures
        step(settings, StateView::Finished, event) == fail(out_of_turn()),
{
}

/// A notification goes out only for a puzzle that was generated and read:
/// the problem when the answer of the generation service has parsed, the
/// solution when the problem was accepted.
pub proof fn law_notify_needs_estimation(settings: Settings, state: StateView, event: EventView)
    requires
        step(settings, state, event).1 is Notify,
    ensures
        match (state, event) {
            (StateView::GenerationAnswered, EventView::Envelope(Ok(response))) => generated(
                response,
            ) is Ok,
            (StateView::ProblemSent { solution }, EventView::Status(code)) => success_code(code),
            _ => false,
        },
{
}

/// Every failure of a run is answered with 502 where a service that was
/// called failed, and with 500 otherwise, and never with its detail.
pub proof fn law_failure_status(f: Failure, g: Failure)
    ensures
        error_reply(f.kind).status == 502 || error_reply(f.kind).status == 500,
        error_reply(f.kind).status == 502 <==> upstream(f.kind),
        f.kind == g.kind ==> error_reply(f.kind) == error_reply(g.kind),
{
}

/// A run in which every service answers with success: the puzzle is asked
/// for, its answer is decoded, the problem goes out at once, the solution
/// goes out with the fixed delay, and the caller is answered 200.
pub proof fn law_full_run(
    settings: Settings,
    response: Seq<Seq<Seq<char>>>,
    estimation: Estimation,
    generated_code: u16,
    problem_code: u16,
    solution_code: u16,
)
    requires
        generated(response) == Ok::<Estimation, Failure>(estimation),
        success_code(generated_code),
        success_code(problem_code),
        success_code(solution_code),
    ensures
        ({
            let (s1, a1) = step(settings, StateView::Idle, EventView::Triggered);
            let (s2, a2) = step(settings, s1, EventView::Status(generated_code));
            let (s3, a3) = step(settings, s2, EventView::Envelope(Ok(response)));
            let (s4, a4) = step(settings, s3, EventView::Status(problem_code));
            let (s5, a5) = step(settings, s4, EventView::Status(solution_code));
            &&& a1 == (ActionView::Generate {
                url: request_address(settings.gemini_api_key),
                request: asked(),
            })
            &&& a2 == ActionView::ReadEnvelope
            &&& a3 == ActionView::Notify(
                notification(settings, PROBLEM_PREFIX@, estimation.problem, None),
            )
            &&& a4 == ActionView::Notify(
                notification(settings, SOLUTION_PREFIX@, estimation.solution, Some(SOLUTION_DELAY@)),
            )
            &&& a5 == ActionView::Finish(Ok(done_reply()))
            &&& s5 == StateView::Finished
            &&& done_reply().status == 200
        }),
{
}

/// A run in which the generation service answers without success: its body
/// is read, the run ends in the failure that tells status and body, the
/// caller is answered 502, and no notification goes out.
pub proof fn law_generation_refused(settings: Settings, code: u16, body: Option<Seq<char>>)
    requires
        !success_code(code),
    ensures
        ({
            let (s1, a1) = step(settings, StateView::Idle, EventView::Triggered);
            let (s2, a2) = step(settings, s1, EventView::Status(code));
            let (s3, a3) = step(settings, s2, EventView::ErrorBody(body));
            &&& a1 is Generate
            &&& a2 == ActionView::ReadErrorBody
            &&& a3 == ActionView::Finish(Err(request_refused(code, body)))
            &&& s3 == StateView::Finished
            &&& error_reply(request_refused(code, body).kind).status == 502
        }),
{
}

/// A run in which the problem goes out and the solution is refused: the run
/// ends in the failure that tells status and body of the refusal, and the
/// caller is answered 502, though the problem was delivered.
pub proof fn law_solution_refused(
    settings: Settings,
    response: Seq<Seq<Seq<char>>>,
    estimation: Estimation,
    generated_code: u16,
    problem_code: u16,
    code: u16,
    body: Option<Seq<char>>,
)
    requires
        generated(response) == Ok::<Estimation, Failure>(estimation),
        success_code(generated_code),
        success_code(problem_code),
        !success_code(code),
    ensures
        ({
            let (s1, a1) = step(settings, StateView::Idle, EventView::Triggered);
            let (s2, a2) = step(settings, s1, EventView::Status(generated_code));
            let (s3, a3) = step(settings, s2, EventView::Envelope(Ok(response)));
            let (s4, a4) = step(settings, s3, EventView::Status(problem_code));
            let (s5, a5) = step(settings, s4, EventView::Status(code));
            let (s6, a6) = step(settings, s5, EventView::ErrorBody(body));
            &&& a3 == ActionView::Notify(
                notification(settings, PROBLEM_PREFIX@, estimation.problem, None),
            )
            &&& a4 is Notify
            &&& a5 == ActionView::ReadErrorBody
            &&& a6 == ActionView::Finish(Err(notification_refused(code, body)))
            &&& s6 == StateView::Finished
            &&& error_reply(notification_refused(code, body).kind).status == 502
        }),
{
}

/// A run in which the problem is refused: the run ends in that failure, and
/// the solution is never scheduled.
pub proof fn law_problem_refused(
    settings: Settings,
    solution: Seq<char>,
    code: u16,
    body: Option<Seq<char>>,
)
    requires
        !success_code(code),
    ensures
        ({
            let (s1, a1) = step(
                settings,
                StateView::ProblemSent { solution },
                EventView::Status(code),
            );
            let (s2, a2) = step(settings, s1, EventView::ErrorBody(body));
            &&& a1 == ActionView::ReadErrorBody
            &&& a2 == ActionView::Finish(Err(notification_refused(code, body)))
            &&& s2 == StateView::Finished
        }),
{
}

} // verus!
