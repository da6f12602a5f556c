//! Outbound HTTP calls as data: the request to send, the reply that came
//! back, and how a call with retries unfolds over a log of outcomes.
//!
//! Nothing here performs I/O. A run is a function of its inputs and of the
//! outcomes so far; it either names the next effect for the caller to
//! perform, or it is finished. The caller performs the effect, appends its
//! outcome to the log, and runs again.

use crate::engine::retry::{retry_delay, RetryExecutor};
use crate::json::{Json, JsonView};
use crate::models::step::RetryConfig;
use crate::text::{
    copy_pairs, decimal, decimal_text, pair_views, text_equal, to_uppercase, uppercase,
};
use vstd::prelude::*;
use vstd::string::*;

verus! {

/// The request methods a webhook can use.
#[derive(Debug, Clone, Copy, PartialEq, Eq, Structural)]
pub enum HttpMethod {
    Get,
    Post,
    Put,
    Delete,
    Patch,
}

/// The method of a name in upper case.
pub open spec fn method_by_name(upper: Seq<char>) -> Option<HttpMethod> {
    if upper == "GET"@ {
        Some(HttpMethod::Get)
    } else if upper == "POST"@ {
        Some(HttpMethod::Post)
    } else if upper == "PUT"@ {
        Some(HttpMethod::Put)
    } else if upper == "DELETE"@ {
        Some(HttpMethod::Delete)
    } else if upper == "PATCH"@ {
        Some(HttpMethod::Patch)
    } else {
        None
    }
}

/// The method that a text names, whatever its case.
pub open spec fn method_of(text: Seq<char>) -> Option<HttpMethod> {
    method_by_name(uppercase(text))
}

/// The method of a name in upper case.
pub fn method_named(upper: &str) -> (r: Option<HttpMethod>)
    ensures
        r == method_by_name(upper@),
{
    if text_equal(upper, "GET") {
        Some(HttpMethod::Get)
    } else if text_equal(upper, "POST") {
        Some(HttpMethod::Post)
    } else if text_equal(upper, "PUT") {
        Some(HttpMethod::Put)
    } else if text_equal(upper, "DELETE") {
        Some(HttpMethod::Delete)
    } else if text_equal(upper, "PATCH") {
        Some(HttpMethod::Patch)
    } else {
        None
    }
}

/// The method that a text names, whatever its case.
pub fn parse_method(text: &str) -> (r: Option<HttpMethod>)
    ensures
        r == method_of(text@),
{
    method_named(to_uppercase(text).as_str())
}

impl HttpMethod {
    /// Whether a request with this method carries a body.
    pub open spec fn sends_body(self) -> bool {
        self == HttpMethod::Post || self == HttpMethod::Put || self == HttpMethod::Patch
    }

    /// Whether a request with this method carries a body.
    pub fn has_body(&self) -> (r: bool)
        ensures
            r == self.sends_body(),
    {
        match self {
            HttpMethod::Post | HttpMethod::Put | HttpMethod::Patch => true,
            _ => false,
        }
    }

    /// The method's name in upper case.
    pub fn as_str(&self) -> (r: &'static str)
        ensures
            r@ == match self {
                HttpMethod::Get => "GET"@,
                HttpMethod::Post => "POST"@,
                HttpMethod::Put => "PUT"@,
                HttpMethod::Delete => "DELETE"@,
                HttpMethod::Patch => "PATCH"@,
            },
    {
        match self {
            HttpMethod::Get => "GET",
            HttpMethod::Post => "POST",
            HttpMethod::Put => "PUT",
            HttpMethod::Delete => "DELETE",
            HttpMethod::Patch => "PATCH",
        }
    }
}

/// A request for the caller to send.
#[derive(Debug, Clone)]
pub struct HttpRequest {
    pub method: HttpMethod,
    pub url: String,
    pub headers: Vec<(String, String)>,
    pub body: Option<Json>,
    pub timeout_ms: u64,
}

/// The mathematical value of an [`HttpRequest`].
pub struct HttpRequestView {
    pub method: HttpMethod,
    pub url: Seq<char>,
    pub headers: Seq<(Seq<char>, Seq<char>)>,
    pub body: Option<JsonView>,
    pub timeout_ms: u64,
}

impl View for HttpRequest {
    type V = HttpRequestView;

    open spec fn view(&self) -> HttpRequestView {
        HttpRequestView {
            method: self.method,
            url: self.url@,
            headers: pair_views(self.headers@),
            body: match self.body {
                Some(b) => Some(b@),
                None => None,
            },
            timeout_ms: self.timeout_ms,
        }
    }
}

/// What came back for a request: a response with its status and body (and
/// the body as JSON, where it is JSON), or a failure to get one.
#[derive(Debug, Clone)]
pub enum HttpReply {
    Response { status: u16, body: String, json: Option<Json> },
    Failed { message: String },
}

/// What the caller must do before the run can go on.
#[derive(Debug, Clone)]
pub enum Effect {
    Http(HttpRequest),
    Sleep { duration_ms: u64 },
}

/// The mathematical value of an [`Effect`].
pub enum EffectView {
    Http(HttpRequestView),
    Sleep { duration_ms: u64 },
}

impl View for Effect {
    type V = EffectView;

    open spec fn view(&self) -> EffectView {
        match self {
            Effect::Http(request) => EffectView::Http(request@),
            Effect::Sleep { duration_ms } => EffectView::Sleep { duration_ms: *duration_ms },
        }
    }
}

/// What an effect brought, and the instant at which it was there: the reply
/// to a request, or the end of a sleep.
#[derive(Debug, Clone)]
pub enum Outcome {
    Http { reply: HttpReply, at: i64 },
    Slept { at: i64 },
}

/// Why an action or a step failed.
#[derive(Debug)]
pub enum ActionError {
    /// A webhook asked for the response of an identifier that has none.
    ResponseNotFound { id: String },
    /// The method is none of GET, POST, PUT, DELETE, PATCH.
    UnsupportedMethod { method: String },
    /// No response came back.
    Transport { message: String },
    /// The response's status was not a success.
    HttpStatus { status: u16, body: String },
    /// A field path named a member that the data do not hold.
    FieldNotFound { field: String },
    /// A field path began with something that no case has.
    UnsupportedFieldPath { field: String },
    /// An ordering operator was given something that is no number.
    NonNumericComparison { operator: String },
    /// `contains` was asked of a field that is no string.
    ContainsActualNotString,
    /// `contains` was asked for something that is no string.
    ContainsExpectedNotString,
    /// The operator is not one of the known ones.
    UnsupportedOperator { operator: String },
    /// The action at `index` of its list failed and stopped the list.
    ActionFailed { name: Option<String>, index: usize, cause: Box<ActionError> },
    /// The log holds an outcome of another kind than the effect asked for.
    UnexpectedOutcome,
}

impl Clone for ActionError {
    fn clone(&self) -> (r: ActionError)
        ensures
            r == *self,
        decreases self,
    {
        match self {
            ActionError::ResponseNotFound { id } => ActionError::ResponseNotFound {
                id: id.clone(),
            },
            ActionError::UnsupportedMethod { method } => ActionError::UnsupportedMethod {
                method: method.clone(),
            },
            ActionError::Transport { message } => ActionError::Transport {
                message: message.clone(),
            },
            ActionError::HttpStatus { status, body } => ActionError::HttpStatus {
                status: *status,
                body: body.clone(),
            },
            ActionError::FieldNotFound { field } => ActionError::FieldNotFound {
                field: field.clone(),
            },
            ActionError::UnsupportedFieldPath { field } => ActionError::UnsupportedFieldPath {
                field: field.clone(),
            },
            ActionError::NonNumericComparison { operator } => ActionError::NonNumericComparison {
                operator: operator.clone(),
            },
            ActionError::ContainsActualNotString => ActionError::ContainsActualNotString,
            ActionError::ContainsExpectedNotString => ActionError::ContainsExpectedNotString,
            ActionError::UnsupportedOperator { operator } => ActionError::UnsupportedOperator {
                operator: operator.clone(),
            },
            ActionError::ActionFailed { name, index, cause } => {
                let name_copy = match name {
                    Some(n) => Some(n.clone()),
                    None => None,
                };
                ActionError::ActionFailed {
                    name: name_copy,
                    index: *index,
                    cause: Box::new((**cause).clone()),
                }
            },
            ActionError::UnexpectedOutcome => ActionError::UnexpectedOutcome,
        }
    }
}

/// The text of a name that may be absent: the name, or `action_` and the
/// index where there is none.
pub open spec fn action_label(name: Option<String>, index: usize) -> Seq<char> {
    match name {
        Some(n) => n@,
        None => "action_"@ + decimal_text(index as nat),
    }
}

/// The message of an error.
pub open spec fn error_text(e: ActionError) -> Seq<char>
    decreases e,
{
    match e {
        ActionError::ResponseNotFound { id } => "Response from '"@ + id@ + "' not found"@,
        ActionError::UnsupportedMethod { method } => "Unsupported HTTP method: "@ + method@,
        ActionError::Transport { message } => message@,
        ActionError::HttpStatus { status, body } => "HTTP "@ + decimal_text(status as nat) + " - "@
            + body@,
        ActionError::FieldNotFound { field } => "Field '"@ + field@ + "' not found"@,
        ActionError::UnsupportedFieldPath { field } => "Unsupported field path: "@ + field@,
        ActionError::NonNumericComparison { operator } => "Cannot compare non-numeric values with "@
            + operator@,
        ActionError::ContainsActualNotString => "contains operator requires string actual value"@,
        ActionError::ContainsExpectedNotString => "contains operator requires string expected value"@,
        ActionError::UnsupportedOperator { operator } => "Unsupported operator: "@ + operator@,
        ActionError::ActionFailed { name, index, cause } => "Action '"@ + action_label(name, index)
            + "' failed: "@ + error_text(*cause),
        ActionError::UnexpectedOutcome => "Unexpected outcome in the log"@,
    }
}

impl ActionError {
    /// The message of the error.
    pub fn message(&self) -> (r: String)
        ensures
            r@ == error_text(*self),
        decreases self,
    {
        match self {
            ActionError::ResponseNotFound { id } => String::from_str("Response from '").concat(
                id.as_str(),
            ).concat("' not found"),
            ActionError::UnsupportedMethod { method } => String::from_str(
                "Unsupported HTTP method: ",
            ).concat(method.as_str()),
            ActionError::Transport { message } => message.clone(),
            ActionError::HttpStatus { status, body } => String::from_str("HTTP ").concat(
                decimal(*status as u64).as_str(),
            ).concat(" - ").concat(body.as_str()),
            ActionError::FieldNotFound { field } => String::from_str("Field '").concat(
                field.as_str(),
            ).concat("' not found"),
            ActionError::UnsupportedFieldPath { field } => String::from_str(
                "Unsupported field path: ",
            ).concat(field.as_str()),
            ActionError::NonNumericComparison { operator } => String::from_str(
                "Cannot compare non-numeric values with ",
            ).concat(operator.as_str()),
            ActionError::ContainsActualNotString => String::from_str(
                "contains operator requires string actual value",
            ),
            ActionError::ContainsExpectedNotString => String::from_str(
                "contains operator requires string expected value",
            ),
            ActionError::UnsupportedOperator { operator } => String::from_str(
                "Unsupported operator: ",
            ).concat(operator.as_str()),
            ActionError::ActionFailed { name, index, cause } => {
                let label = match name {
                    Some(n) => n.clone(),
                    None => String::from_str("action_").concat(decimal(*index as u64).as_str()),
                };
                String::from_str("Action '").concat(label.as_str()).concat("' failed: ").concat(
                    cause.message().as_str(),
                )
            },
            ActionError::UnexpectedOutcome => String::from_str("Unexpected outcome in the log"),
        }
    }
}

/// The instant that a run knows at `pos` of the log: that of the outcome
/// just before, or `start` where there is none.
pub open spec fn clock(log: Seq<Outcome>, pos: int, start: i64) -> i64 {
    if 0 < pos <= log.len() {
        match log[pos - 1] {
            Outcome::Http { at, .. } => at,
            Outcome::Slept { at } => at,
        }
    } else {
        start
    }
}

/// The instant that a run knows at `pos` of the log.
pub fn read_clock(log: &[Outcome], pos: usize, start: i64) -> (r: i64)
    ensures
        r == clock(log@, pos as int, start),
{
    if 0 < pos && pos <= log.len() {
        match &log[pos - 1] {
            Outcome::Http { at, .. } => *at,
            Outcome::Slept { at } => *at,
        }
    } else {
        start
    }
}

/// Where a run stands: blocked on an effect, or finished with a value after
/// reading the log up to `pos`.
#[derive(Debug)]
pub enum Run<T> {
    Blocked(Effect),
    Finished { value: T, pos: usize },
}

/// Where a run stands, mathematically.
pub enum RunView<T> {
    Blocked(EffectView),
    Finished { value: T, pos: int },
}

/// The value that stands for a successful response whose body is no JSON:
/// an object of the body and the status.
pub open spec fn fallback_response(status: u16, body: Seq<char>) -> JsonView {
    JsonView::Object(
        seq![
            ("body"@, JsonView::String(body)),
            ("status"@, JsonView::Number(decimal_text(status as nat))),
        ],
    )
}

/// What a reply is worth: an error where no response came or its status is
/// outside 200..=299; else the body as JSON, or the fallback where the body
/// is no JSON.
pub open spec fn reply_value(reply: HttpReply) -> Result<JsonView, ActionError> {
    match reply {
        HttpReply::Failed { message } => Err(ActionError::Transport { message }),
        HttpReply::Response { status, body, json } => if 200 <= status < 300 {
            match json {
                Some(j) => Ok(j@),
                None => Ok(fallback_response(status, body@)),
            }
        } else {
            Err(ActionError::HttpStatus { status, body })
        },
    }
}

/// What a reply is worth.
pub fn interpret_reply(reply: &HttpReply) -> (r: Result<Json, ActionError>)
    ensures
        match r {
            Ok(j) => reply_value(*reply) == Ok::<JsonView, ActionError>(j@),
            Err(e) => reply_value(*reply) == Err::<JsonView, ActionError>(e),
        },
{
    match reply {
        HttpReply::Failed { message } => Err(ActionError::Transport { message: message.clone() }),
        HttpReply::Response { status, body, json } => {
            if 200 <= *status && *status < 300 {
                match json {
                    Some(j) => Ok(j.clone()),
                    None => {
                        let mut members: Vec<(String, Json)> = Vec::new();
                        members.push((String::from_str("body"), Json::String(body.clone())));
                        members.push(
                            (String::from_str("status"), Json::Number(decimal(*status as u64))),
                        );
                        let value = Json::Object(members);
                        proof {
                            value.lemma_object_view();
                            assert(value@->Object_0 =~= fallback_response(
                                *status,
                                body@,
                            )->Object_0);
                        }
                        Ok(value)
                    },
                }
            } else {
                Err(ActionError::HttpStatus { status: *status, body: body.clone() })
            }
        },
    }
}

/// A webhook call that is ready to be made: the method (or why there is
/// none), where to send what, and the retry budget.
#[derive(Debug)]
pub struct WebhookCall {
    pub method: Result<HttpMethod, ActionError>,
    pub url: String,
    pub headers: Vec<(String, String)>,
    pub body: Json,
    pub timeout_ms: u64,
    pub retry: Option<RetryConfig>,
}

/// The mathematical value of a [`WebhookCall`].
pub struct WebhookCallView {
    pub method: Result<HttpMethod, ActionError>,
    pub url: Seq<char>,
    pub headers: Seq<(Seq<char>, Seq<char>)>,
    pub body: JsonView,
    pub timeout_ms: u64,
    pub retry: Option<RetryConfig>,
}

impl View for WebhookCall {
    type V = WebhookCallView;

    open spec fn view(&self) -> WebhookCallView {
        WebhookCallView {
            method: self.method,
            url: self.url@,
            headers: pair_views(self.headers@),
            body: self.body@,
            timeout_ms: self.timeout_ms,
            retry: self.retry,
        }
    }
}

impl WebhookCallView {
    /// The request of the call; the body goes with POST, PUT and PATCH only.
    pub open spec fn request(self, method: HttpMethod) -> HttpRequestView {
        HttpRequestView {
            method,
            url: self.url,
            headers: self.headers,
            body: if method.sends_body() {
                Some(self.body)
            } else {
                None
            },
            timeout_ms: self.timeout_ms,
        }
    }
}

/// One attempt of a call, read off the log at `pos`: without a method it
/// fails at once; with the log used up it is blocked on its request; else
/// the next outcome is its reply.
pub open spec fn attempt_run(call: WebhookCallView, log: Seq<Outcome>, pos: int) -> RunView<
    Result<JsonView, ActionError>,
> {
    match call.method {
        Err(e) => RunView::Finished { value: Err(e), pos },
        Ok(method) => if pos >= log.len() {
            RunView::Blocked(EffectView::Http(call.request(method)))
        } else {
            match log[pos] {
                Outcome::Http { reply, .. } => RunView::Finished { value: reply_value(reply), pos: pos + 1 },
                Outcome::Slept { .. } => RunView::Finished {
                    value: Err(ActionError::UnexpectedOutcome),
                    pos: pos + 1,
                },
            }
        },
    }
}

/// A call from its attempt number `attempt` on, read off the log at `pos`.
/// A success ends it. After a failure it sleeps and tries again where the
/// retry budget names a delay, and ends with the failure where it names
/// none or there is no budget.
pub open spec fn call_run(call: WebhookCallView, log: Seq<Outcome>, pos: int, attempt: nat) -> RunView<
    Result<JsonView, ActionError>,
>
    decreases
            (match call.retry {
                Some(c) => c.max_attempts - attempt,
                None => 0,
            }),
{
    match attempt_run(call, log, pos) {
        RunView::Blocked(e) => RunView::Blocked(e),
        RunView::Finished { value: Ok(v), pos: p } => RunView::Finished { value: Ok(v), pos: p },
        RunView::Finished { value: Err(e), pos: p } => match call.retry {
            None => RunView::Finished { value: Err(e), pos: p },
            Some(c) => match retry_delay(c, attempt) {
                None => RunView::Finished { value: Err(e), pos: p },
                Some(delay) => if p >= log.len() {
                    RunView::Blocked(EffectView::Sleep { duration_ms: delay as u64 })
                } else {
                    match log[p] {
                        Outcome::Slept { .. } => call_run(call, log, p + 1, attempt + 1),
                        Outcome::Http { .. } => RunView::Finished {
                            value: Err(ActionError::UnexpectedOutcome),
                            pos: p + 1,
                        },
                    }
                },
            },
        },
    }
}

/// An executed run of a call stands where the mathematical run stands.
pub open spec fn call_agrees(
    r: Run<Result<Json, ActionError>>,
    v: RunView<Result<JsonView, ActionError>>,
) -> bool {
    match r {
        Run::Blocked(effect) => v == RunView::<Result<JsonView, ActionError>>::Blocked(effect@),
        Run::Finished { value: Ok(j), pos } => v == (RunView::Finished {
            value: Ok::<JsonView, ActionError>(j@),
            pos: pos as int,
        }),
        Run::Finished { value: Err(e), pos } => v == (RunView::Finished {
            value: Err::<JsonView, ActionError>(e),
            pos: pos as int,
        }),
    }
}

impl WebhookCall {
    /// The request of the call for a method.
    pub fn request(&self, method: HttpMethod) -> (r: HttpRequest)
        ensures
            r@ == self@.request(method),
    {
        HttpRequest {
            method,
            url: self.url.clone(),
            headers: copy_pairs(&self.headers),
            body: if method.has_body() {
                Some(self.body.clone())
            } else {
                None
            },
            timeout_ms: self.timeout_ms,
        }
    }

    /// One attempt of the call, read off the log at `pos`.
    pub fn attempt(&self, log: &[Outcome], pos: usize) -> (r: Run<Result<Json, ActionError>>)
        requires
            pos <= log@.len(),
        ensures
            call_agrees(r, attempt_run(self@, log@, pos as int)),
            r matches Run::Finished { pos: p, .. } ==> pos <= p <= log@.len(),
    {
        match &self.method {
            Err(e) => Run::Finished { value: Err(e.clone()), pos },
            Ok(method) => {
                if pos >= log.len() {
                    Run::Blocked(Effect::Http(self.request(*method)))
                } else {
                    match &log[pos] {
                        Outcome::Http { reply, .. } => Run::Finished {
                            value: interpret_reply(reply),
                            pos: pos + 1,
                        },
                        Outcome::Slept { .. } => Run::Finished {
                            value: Err(ActionError::UnexpectedOutcome),
                            pos: pos + 1,
                        },
                    }
                }
            },
        }
    }

    /// The call with its retries, read off the log from `pos` on.
    pub fn perform(&self, log: &[Outcome], pos: usize) -> (r: Run<Result<Json, ActionError>>)
        requires
            pos <= log@.len(),
        ensures
            call_agrees(r, call_run(self@, log@, pos as int, 1)),
            r matches Run::Finished { pos: p, .. } ==> pos <= p <= log@.len(),
    {
        let mut at: usize = pos;
        let mut attempt: u32 = 1;
        loop
            invariant
                pos <= at <= log@.len(),
                attempt >= 1,
                call_run(self@, log@, at as int, attempt as nat) == call_run(
                    self@,
                    log@,
                    pos as int,
                    1,
                ),
            decreases
                    (match self.retry {
                        Some(c) => c.max_attempts - attempt,
                        None => 0,
                    }),
        {
            match self.attempt(log, at) {
                Run::Blocked(effect) => {
                    return Run::Blocked(effect);
                },
                Run::Finished { value: Ok(v), pos: p } => {
                    return Run::Finished { value: Ok(v), pos: p };
                },
                Run::Finished { value: Err(e), pos: p } => {
                    let delay = match &self.retry {
                        None => None,
                        Some(c) => RetryExecutor::new(*c).after_failure(attempt),
                    };
                    match delay {
                        None => {
                            return Run::Finished { value: Err(e), pos: p };
                        },
                        Some(duration_ms) => {
                            if p >= log.len() {
                                return Run::Blocked(Effect::Sleep { duration_ms });
                            }
                            match &log[p] {
                                Outcome::Slept { .. } => {
                                    at = p + 1;
                                    attempt = attempt + 1;
                                },
                                Outcome::Http { .. } => {
                                    return Run::Finished {
                                        value: Err(ActionError::UnexpectedOutcome),
                                        pos: p + 1,
                                    };
                                },
                            }
                        },
                    }
                },
            }
        }
    }
}

/// The log holds, from `pos` on, the replies to `n` attempts that all
/// failed, with the end of a sleep between each two.
pub open spec fn attempts_failed(log: Seq<Outcome>, pos: int, n: nat) -> bool
    decreases n,
{
    n == 0 || {
        &&& 0 <= pos < log.len()
        &&& log[pos] matches Outcome::Http { reply, .. } && reply_value(reply) is Err
        &&& n > 1 ==> (pos + 1 < log.len() && log[pos + 1] is Slept && attempts_failed(
            log,
            pos + 2,
            (n - 1) as nat,
        ))
    }
}

/// A call whose attempts all fail is made exactly as often as its budget
/// allows, and then ends with the failure of the last attempt.
pub proof fn lemma_call_exhausts_its_budget(
    call: WebhookCallView,
    log: Seq<Outcome>,
    pos: int,
    attempt: nat,
)
    requires
        call.method is Ok,
        call.retry is Some,
        1 <= attempt <= call.retry->0.max_attempts,
        attempts_failed(log, pos, (call.retry->0.max_attempts - attempt + 1) as nat),
    ensures
        call_run(call, log, pos, attempt) matches RunView::Finished { value: Err(_), pos: end }
            && end == pos + 2 * (call.retry->0.max_attempts - attempt) + 1,
    decreases call.retry->0.max_attempts - attempt,
{
    if attempt < call.retry->0.max_attempts {
        lemma_call_exhausts_its_budget(call, log, pos + 2, attempt + 1);
    }
}

/// A call ends with the first attempt that succeeds: after `k` failed
/// attempts within its budget and one success it has been made `k + 1`
/// times and gives the value of the successful reply.
pub proof fn lemma_call_ends_at_first_success(
    call: WebhookCallView,
    log: Seq<Outcome>,
    pos: int,
    attempt: nat,
    k: nat,
)
    requires
        call.method is Ok,
        call.retry is Some,
        1 <= attempt,
        attempt + k <= call.retry->0.max_attempts,
        attempts_failed(log, pos, k),
        k > 0 ==> (pos + 2 * k - 1 < log.len() && log[pos + 2 * k - 1] is Slept),
        0 <= pos + 2 * k < log.len(),
        log[pos + 2 * k] matches Outcome::Http { reply, .. } && reply_value(reply) is Ok,
    ensures
        call_run(call, log, pos, attempt) == (RunView::Finished {
            value: reply_value(log[pos + 2 * k]->Http_reply),
            pos: pos + 2 * k + 1,
        }),
    decreases k,
{
    if k > 0 {
        if k > 1 {
            assert(attempts_failed(log, pos + 2, (k - 1) as nat));
        }
        lemma_call_ends_at_first_success(call, log, pos + 2, attempt + 1, (k - 1) as nat);
    }
}

/// A finished run reads no outcome beyond the log, and a longer log does
/// not change it: what was decided stays decided.
pub open spec fn settled<T>(short: RunView<T>, long: RunView<T>, pos: int, len: int) -> bool {
    short matches RunView::Finished { pos: end, .. } ==> pos <= end <= len && long == short
}

/// An attempt that is finished stays as it is when the log grows.
pub proof fn lemma_attempt_is_settled(
    call: WebhookCallView,
    log: Seq<Outcome>,
    more: Seq<Outcome>,
    pos: int,
)
    requires
        0 <= pos <= log.len(),
    ensures
        settled(attempt_run(call, log, pos), attempt_run(call, log + more, pos), pos, log.len() as int),
{
    if pos < log.len() {
        assert((log + more)[pos] == log[pos]);
    }
}

/// A call that is finished stays as it is when the log grows.
pub proof fn lemma_call_is_settled(
    call: WebhookCallView,
    log: Seq<Outcome>,
    more: Seq<Outcome>,
    pos: int,
    attempt: nat,
)
    requires
        0 <= pos <= log.len(),
    ensures
        settled(
            call_run(call, log, pos, attempt),
            call_run(call, log + more, pos, attempt),
            pos,
            log.len() as int,
        ),
    decreases
            (match call.retry {
                Some(c) => c.max_attempts - attempt,
                None => 0,
            }),
{
    lemma_attempt_is_settled(call, log, more, pos);
    match attempt_run(call, log, pos) {
        RunView::Finished { value: Err(e), pos: p } => {
            match call.retry {
                Some(c) => {
                    if retry_delay(c, attempt) is Some && p < log.len() {
                        assert((log + more)[p] == log[p]);
                        if log[p] is Slept {
                            lemma_call_is_settled(call, log, more, p + 1, attempt + 1);
                        }
                    }
                },
                None => {},
            }
        },
        _ => {},
    }
}

} // verus!
