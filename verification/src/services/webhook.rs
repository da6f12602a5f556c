//! The case webhook: telling a workflow's endpoint that a case has moved.

use crate::engine::http::{
    call_run, ActionError, Effect, HttpMethod, Outcome, Run, RunView, WebhookCall, WebhookCallView,
};
use crate::ident::{render_uuid, uuid_text};
use crate::json::{Json, JsonView};
use crate::models::case::Case;
use crate::models::step::{BackoffStrategy, RetryConfig};
use crate::text::{pair_views, text_equal};
use vstd::prelude::*;
use vstd::string::*;

verus! {

/// A case webhook gets this many milliseconds.
pub const CASE_WEBHOOK_TIMEOUT_MS: u64 = 10000;

/// The first retry of a case webhook comes after this many milliseconds;
/// each later one after twice as long as the one before.
pub const CASE_WEBHOOK_FIRST_DELAY_MS: u64 = 1000;

/// What a case webhook tells of: the case, its workflow, the phase it came
/// from and the phase it is in, its data and its metadata.
#[derive(Debug, Clone)]
pub struct CaseWebhookData {
    pub case_id: u128,
    pub workflow_id: u128,
    pub from_phase: Option<String>,
    pub to_phase: String,
    pub case_data: Json,
    pub metadata: Option<Json>,
}

/// The envelope of a case webhook.
#[derive(Debug, Clone)]
pub struct CaseWebhookPayload {
    pub action: String,
    pub data: CaseWebhookData,
}

/// A value that may be absent, as JSON.
pub open spec fn json_or_null(value: Option<Json>) -> JsonView {
    match value {
        Some(v) => v@,
        None => JsonView::Null,
    }
}

/// A text that may be absent, as JSON.
pub open spec fn text_or_null(value: Option<String>) -> JsonView {
    match value {
        Some(v) => JsonView::String(v@),
        None => JsonView::Null,
    }
}

impl CaseWebhookPayload {
    /// The payload as JSON.
    pub open spec fn json(self) -> JsonView {
        JsonView::Object(
            seq![
                ("action"@, JsonView::String(self.action@)),
                (
                    "data"@,
                    JsonView::Object(
                        seq![
                            ("case_id"@, JsonView::String(uuid_text(self.data.case_id))),
                            ("workflow_id"@, JsonView::String(uuid_text(self.data.workflow_id))),
                            ("from_phase"@, text_or_null(self.data.from_phase)),
                            ("to_phase"@, JsonView::String(self.data.to_phase@)),
                            ("case_data"@, self.data.case_data@),
                            ("metadata"@, json_or_null(self.data.metadata)),
                        ],
                    ),
                ),
            ],
        )
    }

    /// The payload as JSON.
    pub fn to_json(&self) -> (r: Json)
        ensures
            r@ == self.json(),
    {
        let mut data: Vec<(String, Json)> = Vec::new();
        data.push((String::from_str("case_id"), Json::String(render_uuid(self.data.case_id))));
        data.push(
            (String::from_str("workflow_id"), Json::String(render_uuid(self.data.workflow_id))),
        );
        data.push(
            (
                String::from_str("from_phase"),
                match &self.data.from_phase {
                    Some(p) => Json::text(p.as_str()),
                    None => Json::Null,
                },
            ),
        );
        data.push((String::from_str("to_phase"), Json::text(self.data.to_phase.as_str())));
        data.push((String::from_str("case_data"), self.data.case_data.clone()));
        data.push(
            (
                String::from_str("metadata"),
                match &self.data.metadata {
                    Some(m) => m.clone(),
                    None => Json::Null,
                },
            ),
        );
        let inner = Json::Object(data);
        proof {
            inner.lemma_object_view();
            assert(inner@->Object_0 =~= self.json()->Object_0[1].1->Object_0);
        }
        let mut members: Vec<(String, Json)> = Vec::new();
        members.push((String::from_str("action"), Json::text(self.action.as_str())));
        members.push((String::from_str("data"), inner));
        let r = Json::Object(members);
        proof {
            r.lemma_object_view();
            assert(r@->Object_0 =~= self.json()->Object_0);
        }
        r
    }
}

/// Whether a setting switches a case webhook on: every setting but `false`
/// does, and so does the lack of one.
pub open spec fn setting_enables(setting: Option<Seq<char>>) -> bool {
    setting != Some("false"@)
}

/// Whether a setting switches a case webhook on.
pub fn webhook_enabled(setting: Option<&str>) -> (r: bool)
    ensures
        r == setting_enables(
            match setting {
                Some(s) => Some(s@),
                None => None,
            },
        ),
{
    match setting {
        Some(s) => !text_equal(s, "false"),
        None => true,
    }
}

/// The payload that tells of a case that came from `from_phase`.
pub open spec fn moved_payload(case: Case, from_phase: Option<String>) -> JsonView {
    JsonView::Object(
        seq![
            ("action"@, JsonView::String("case.moved"@)),
            (
                "data"@,
                JsonView::Object(
                    seq![
                        ("case_id"@, JsonView::String(uuid_text(case.id))),
                        ("workflow_id"@, JsonView::String(uuid_text(case.workflow_id))),
                        ("from_phase"@, text_or_null(from_phase)),
                        ("to_phase"@, JsonView::String(case.current_phase@)),
                        ("case_data"@, case.data@),
                        ("metadata"@, json_or_null(case.metadata)),
                    ],
                ),
            ),
        ],
    )
}

/// The call that sends a case webhook: a POST of the payload to the URL,
/// with as many attempts as given and a delay that doubles between them.
pub open spec fn case_webhook_call(
    webhook_url: Seq<char>,
    case: Case,
    from_phase: Option<String>,
    max_retries: u32,
) -> WebhookCallView {
    WebhookCallView {
        method: Ok(HttpMethod::Post),
        url: webhook_url,
        headers: Seq::empty(),
        body: moved_payload(case, from_phase),
        timeout_ms: CASE_WEBHOOK_TIMEOUT_MS,
        retry: Some(
            RetryConfig {
                max_attempts: max_retries,
                backoff: BackoffStrategy::Exponential,
                initial_delay_ms: CASE_WEBHOOK_FIRST_DELAY_MS,
            },
        ),
    }
}

/// Where the sending of a case webhook stands: waiting for the caller to
/// perform an effect, sent, or failed for good.
#[derive(Debug)]
pub enum SendProgress {
    Pending(Effect),
    Sent,
    Failed(ActionError),
}

/// An executed sending stands where the mathematical run of its call
/// stands.
pub open spec fn send_agrees(r: SendProgress, v: RunView<Result<JsonView, ActionError>>) -> bool {
    match v {
        RunView::Blocked(e) => r matches SendProgress::Pending(effect) && effect@ == e,
        RunView::Finished { value: Ok(_), .. } => r is Sent,
        RunView::Finished { value: Err(e), .. } => r matches SendProgress::Failed(error) && error
            == e,
    }
}

/// Sends case webhooks.
#[derive(Debug, Clone, Copy)]
pub struct WebhookSender {}

impl Default for WebhookSender {
    fn default() -> WebhookSender {
        WebhookSender::new()
    }
}

impl WebhookSender {
    /// A sender.
    pub fn new() -> WebhookSender {
        WebhookSender {  }
    }

    /// The payload that tells of a case that came from `from_phase`.
    pub fn payload(case: &Case, from_phase: Option<String>) -> (r: CaseWebhookPayload)
        ensures
            r.json() == moved_payload(*case, from_phase),
    {
        CaseWebhookPayload {
            action: String::from_str("case.moved"),
            data: CaseWebhookData {
                case_id: case.id,
                workflow_id: case.workflow_id,
                from_phase,
                to_phase: case.current_phase.clone(),
                case_data: case.data.clone(),
                metadata: match &case.metadata {
                    Some(m) => Some(m.clone()),
                    None => None,
                },
            },
        }
    }

    /// Sends the webhook for a case with up to `max_retries` attempts,
    /// reading the outcomes of its effects from the log. A response with a
    /// status of success ends the sending; after a failure the next attempt
    /// follows a delay of one second, doubled with each attempt.
    pub fn send_case_moved_with_retry(
        &self,
        webhook_url: &str,
        case: &Case,
        from_phase: Option<String>,
        max_retries: u32,
        log: &[Outcome],
    ) -> (r: SendProgress)
        ensures
            send_agrees(
                r,
                call_run(case_webhook_call(webhook_url@, *case, from_phase, max_retries), log@, 0, 1),
            ),
    {
        let payload = WebhookSender::payload(case, from_phase);
        let headers: Vec<(String, String)> = Vec::new();
        assert(pair_views(headers@) =~= Seq::empty());
        let call = WebhookCall {
            method: Ok(HttpMethod::Post),
            url: webhook_url.to_owned(),
            headers,
            body: payload.to_json(),
            timeout_ms: CASE_WEBHOOK_TIMEOUT_MS,
            retry: Some(
                RetryConfig {
                    max_attempts: max_retries,
                    backoff: BackoffStrategy::Exponential,
                    initial_delay_ms: CASE_WEBHOOK_FIRST_DELAY_MS,
                },
            ),
        };
        match call.perform(log, 0) {
            Run::Blocked(effect) => SendProgress::Pending(effect),
            Run::Finished { value: Ok(_), .. } => SendProgress::Sent,
            Run::Finished { value: Err(e), .. } => SendProgress::Failed(e),
        }
    }

    /// Sends the webhook for a case once.
    pub fn send_case_moved(
        &self,
        webhook_url: &str,
        case: &Case,
        from_phase: Option<String>,
        log: &[Outcome],
    ) -> (r: SendProgress)
        ensures
            send_agrees(r, call_run(case_webhook_call(webhook_url@, *case, from_phase, 1), log@, 0, 1)),
    {
        self.send_case_moved_with_retry(webhook_url, case, from_phase, 1, log)
    }
}

} // verus!
