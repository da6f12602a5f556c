//! The flow executor: runs the steps of a flow for an event and records
//! what became of each.
//!
//! Like the automation interpreter it performs no I/O: it reads the
//! outcomes of the effects it asked for from a log, and names the next
//! effect where the log ends before the run does.

use crate::engine::http::{
    call_run, clock, error_text, lemma_call_is_settled, method_of, parse_method, read_clock,
    settled, ActionError, Effect, EffectView, HttpMethod, Outcome, Run, RunView, WebhookCall,
    WebhookCallView,
};
use crate::ident::fresh_id;
use crate::json::{Json, JsonView};
use crate::models::event::Event;
use crate::models::execution::{Execution, ExecutionStatus, StepExecutionStatus, StepStatus};
use crate::models::flow::Flow;
use crate::models::step::{FailureAction, StepType};
use crate::number::{
    compare_number_tokens, float_literal, float_literal_token, number_token_order, Relation,
};
use crate::text::{
    decimal, decimal_text, find, find_from, lemma_find_from, pair_views, position, position_from,
    slice, strip_prefix, strip_suffix, text_equal, trim, trimmed, without_prefix, without_suffix,
};
use vstd::prelude::*;
use vstd::string::*;

verus! {

/// A flow webhook gets this many milliseconds where its step names none.
pub const DEFAULT_TIMEOUT_MS: u64 = 30000;

/// The text that stands for a placeholder: where the placeholder names
/// `event.data.<field>`, the field's string, its number token, or `true` or
/// `false`; nothing for any other value and any other placeholder.
pub open spec fn placeholder_value(var: Seq<char>, data: JsonView) -> Seq<char> {
    match without_prefix(var, "event.data."@) {
        Some(field) => match data.get(field) {
            Some(JsonView::String(s)) => s,
            Some(JsonView::Number(n)) => n,
            Some(JsonView::Bool(b)) => if b {
                "true"@
            } else {
                "false"@
            },
            _ => Seq::empty(),
        },
        None => Seq::empty(),
    }
}

/// The template from index `pos` on with each `${...}` replaced by what it
/// stands for, read once from left to right. A `${` without a closing `}`
/// stays as it is, with all that follows it.
pub open spec fn interpolate_from(template: Seq<char>, pos: int, data: JsonView) -> Seq<char>
    decreases template.len() - pos,
{
    match find_from(template, pos, "${"@) {
        Some(start) if pos <= start => match find_from(template, start, "}"@) {
            Some(end) if start + 2 <= end < template.len() => template.subrange(pos, start)
                + placeholder_value(template.subrange(start + 2, end), data) + interpolate_from(
                template,
                end + 1,
                data,
            ),
            _ => template.subrange(pos, template.len() as int),
        },
        _ => template.subrange(pos, template.len() as int),
    }
}

/// The template with each `${...}` replaced by what it stands for.
pub open spec fn interpolate(template: Seq<char>, data: JsonView) -> Seq<char> {
    interpolate_from(template, 0, data)
}

/// A JSON template with every string in it interpolated: the strings
/// themselves, the items of arrays and the values of objects, at any depth.
/// Other scalars and the names of members stay as they are.
pub open spec fn interpolate_json(template: JsonView, data: JsonView) -> JsonView
    decreases template,
{
    match template {
        JsonView::String(s) => JsonView::String(interpolate(s, data)),
        JsonView::Array(items) => JsonView::Array(
            Seq::new(
                items.len(),
                |i: int|
                    if 0 <= i < items.len() {
                        interpolate_json(items[i], data)
                    } else {
                        JsonView::Null
                    },
            ),
        ),
        JsonView::Object(members) => JsonView::Object(
            Seq::new(
                members.len(),
                |i: int|
                    (
                        members[i].0,
                        if 0 <= i < members.len() {
                            interpolate_json(members[i].1, data)
                        } else {
                            JsonView::Null
                        },
                    ),
            ),
        ),
        other => other,
    }
}

/// Header values interpolated, names as they are.
pub open spec fn interpolate_headers(
    headers: Seq<(Seq<char>, Seq<char>)>,
    data: JsonView,
) -> Seq<(Seq<char>, Seq<char>)> {
    Seq::new(headers.len(), |i: int| (headers[i].0, interpolate(headers[i].1, data)))
}

/// The field that an operand of the form `${event.data.<field>}` names.
pub open spec fn placeholder_field(expr: Seq<char>) -> Option<Seq<char>> {
    match without_prefix(expr, "${"@) {
        Some(rest) => match without_suffix(rest, "}"@) {
            Some(path) => without_prefix(path, "event.data."@),
            None => None,
        },
        None => None,
    }
}

/// The number that an operand denotes, as a token: the event's field where
/// the operand names one and the field is a number, the operand itself
/// where it is a decimal literal; `None` otherwise.
pub open spec fn operand_number(expr: Seq<char>, data: JsonView) -> Option<Seq<char>> {
    match placeholder_field(expr) {
        Some(field) => match data.get(field) {
            Some(JsonView::Number(n)) => Some(n),
            _ => None,
        },
        None => float_literal_token(expr),
    }
}

/// Whether a step condition holds: it has the form `left > right`, both
/// sides trimmed denote numbers, and the left one is the greater. Every
/// other condition does not hold.
pub open spec fn condition_holds(condition: Seq<char>, data: JsonView) -> bool {
    match find_from(condition, 0, ">"@) {
        Some(i) if 0 <= i < condition.len() => {
            let left = trimmed(condition.subrange(0, i));
            let right = trimmed(condition.subrange(i + 1, condition.len() as int));
            match (operand_number(left, data), operand_number(right, data)) {
                (Some(a), Some(b)) => Relation::Greater.holds_for(number_token_order(a, b)),
                _ => false,
            }
        },
        _ => false,
    }
}

/// The response of a delay step.
pub open spec fn delayed_response(duration_ms: u64) -> JsonView {
    JsonView::Object(seq![("delayed_ms"@, JsonView::Number(decimal_text(duration_ms as nat)))])
}

/// The method of a webhook step.
pub open spec fn step_method(method: String) -> Result<HttpMethod, ActionError> {
    match method_of(method@) {
        Some(h) => Ok(h),
        None => Err(ActionError::UnsupportedMethod { method }),
    }
}

/// A step, read off the log at `pos`. A webhook interpolates its URL, its
/// header values and its body, and makes its call. A condition runs one of
/// its two steps. A delay sleeps.
pub open spec fn step_run(step_type: StepType, event: Event, log: Seq<Outcome>, pos: int) -> RunView<
    Result<JsonView, ActionError>,
>
    decreases step_type,
{
    match step_type {
        StepType::Webhook { url, method, headers, body_template, timeout_ms, retry } => call_run(
            WebhookCallView {
                method: step_method(method),
                url: interpolate(url@, event.data@),
                headers: interpolate_headers(pair_views(headers@), event.data@),
                body: interpolate_json(body_template@, event.data@),
                timeout_ms: match timeout_ms {
                    Some(t) => t,
                    None => DEFAULT_TIMEOUT_MS,
                },
                retry,
            },
            log,
            pos,
            1,
        ),
        StepType::Condition { condition, if_true, if_false } => if condition_holds(
            condition@,
            event.data@,
        ) {
            step_run(if_true.step_type, event, log, pos)
        } else {
            step_run(if_false.step_type, event, log, pos)
        },
        StepType::Delay { duration_ms } => if pos >= log.len() {
            RunView::Blocked(EffectView::Sleep { duration_ms })
        } else {
            match log[pos] {
                Outcome::Slept { .. } => RunView::Finished {
                    value: Ok(delayed_response(duration_ms)),
                    pos: pos + 1,
                },
                Outcome::Http { .. } => RunView::Finished {
                    value: Err(ActionError::UnexpectedOutcome),
                    pos: pos + 1,
                },
            }
        },
    }
}

/// The mathematical value of a [`StepStatus`].
pub struct StepStatusView {
    pub status: StepExecutionStatus,
    pub started_at: i64,
    pub completed_at: Option<i64>,
    pub attempts: u32,
    pub response: Option<JsonView>,
    pub error: Option<Seq<char>>,
}

impl View for StepStatus {
    type V = StepStatusView;

    open spec fn view(&self) -> StepStatusView {
        StepStatusView {
            status: self.status,
            started_at: self.started_at,
            completed_at: self.completed_at,
            attempts: self.attempts,
            response: match self.response {
                Some(j) => Some(j@),
                None => None,
            },
            error: match self.error {
                Some(e) => Some(e@),
                None => None,
            },
        }
    }
}

/// The views of the recorded steps.
pub open spec fn status_views(entries: Seq<(String, StepStatus)>) -> Seq<
    (Seq<char>, StepStatusView),
> {
    Seq::new(entries.len(), |i: int| (entries[i].0@, entries[i].1@))
}

/// The names of the recorded steps.
pub open spec fn recorded_names(entries: Seq<(Seq<char>, StepStatusView)>) -> Seq<Seq<char>> {
    Seq::new(entries.len(), |i: int| entries[i].0)
}

/// The record with a step's status set: in place of the status recorded
/// under that name, or at the end where the name is new.
pub open spec fn recorded(
    entries: Seq<(Seq<char>, StepStatusView)>,
    name: Seq<char>,
    status: StepStatusView,
) -> Seq<(Seq<char>, StepStatusView)> {
    match position(recorded_names(entries), name) {
        Some(i) => entries.update(i, (name, status)),
        None => entries.push((name, status)),
    }
}

/// What is recorded of a step that ended at `at`: completed with its
/// response, or failed with the message of its error. A step counts as one
/// attempt, however often its call was retried.
pub open spec fn step_record(result: Result<JsonView, ActionError>, at: i64) -> StepStatusView {
    match result {
        Ok(response) => StepStatusView {
            status: StepExecutionStatus::Completed,
            started_at: at,
            completed_at: Some(at),
            attempts: 1,
            response: Some(response),
            error: None,
        },
        Err(e) => StepStatusView {
            status: StepExecutionStatus::Failed,
            started_at: at,
            completed_at: Some(at),
            attempts: 1,
            response: None,
            error: Some(error_text(e)),
        },
    }
}

/// All of an execution but its identifier, mathematically.
pub struct ExecutionView {
    pub flow_id: u128,
    pub event_id: u128,
    pub status: ExecutionStatus,
    pub current_step: Option<Seq<char>>,
    pub steps_status: Seq<(Seq<char>, StepStatusView)>,
    pub started_at: i64,
    pub completed_at: Option<i64>,
    pub error: Option<Seq<char>>,
}

impl View for Execution {
    type V = ExecutionView;

    open spec fn view(&self) -> ExecutionView {
        ExecutionView {
            flow_id: self.flow_id,
            event_id: self.event_id,
            status: self.status,
            current_step: match self.current_step {
                Some(s) => Some(s@),
                None => None,
            },
            steps_status: status_views(self.steps_status@),
            started_at: self.started_at,
            completed_at: self.completed_at,
            error: match self.error {
                Some(e) => Some(e@),
                None => None,
            },
        }
    }
}

/// The steps of a flow from step `i` on, read off the log at `pos`, with
/// what was recorded so far.
///
/// Each step is recorded under its name when it ends. A failed step whose
/// `on_failure` is `Stop` ends the run as failed, with its error; any other
/// step is followed by the next. A run that reaches the end of the steps is
/// completed.
pub open spec fn flow_run(
    flow: Flow,
    event: Event,
    started_at: i64,
    i: int,
    current_step: Option<Seq<char>>,
    statuses: Seq<(Seq<char>, StepStatusView)>,
    log: Seq<Outcome>,
    pos: int,
) -> RunView<ExecutionView>
    decreases flow.steps@.len() - i,
{
    if i < 0 || i >= flow.steps@.len() {
        RunView::Finished {
            value: ExecutionView {
                flow_id: flow.id,
                event_id: event.id,
                status: ExecutionStatus::Completed,
                current_step,
                steps_status: statuses,
                started_at,
                completed_at: Some(clock(log, pos, started_at)),
                error: None,
            },
            pos,
        }
    } else {
        let step = flow.steps@[i];
        match step_run(step.step_type, event, log, pos) {
            RunView::Blocked(e) => RunView::Blocked(e),
            RunView::Finished { value, pos: p } => {
                let at = clock(log, p, started_at);
                let after = recorded(statuses, step.name@, step_record(value, at));
                if value is Err && step.on_failure == FailureAction::Stop {
                    RunView::Finished {
                        value: ExecutionView {
                            flow_id: flow.id,
                            event_id: event.id,
                            status: ExecutionStatus::Failed,
                            current_step: Some(step.name@),
                            steps_status: after,
                            started_at,
                            completed_at: Some(at),
                            error: Some(error_text(value->Err_0)),
                        },
                        pos: p,
                    }
                } else {
                    flow_run(flow, event, started_at, i + 1, Some(step.name@), after, log, p)
                }
            },
        }
    }
}

/// Where a run of a flow stands: waiting for the caller to perform an
/// effect, or finished with the execution to persist.
#[derive(Debug)]
pub enum FlowProgress {
    Pending(Effect),
    Finished(Execution),
}

/// An executed run of a flow stands where the mathematical run stands.
pub open spec fn flow_agrees(r: FlowProgress, v: RunView<ExecutionView>) -> bool {
    match v {
        RunView::Blocked(e) => r matches FlowProgress::Pending(effect) && effect@ == e,
        RunView::Finished { value, .. } => r matches FlowProgress::Finished(execution)
            && execution@ == value,
    }
}

/// The text that stands for a placeholder.
fn placeholder_text(var: &str, data: &Json) -> (r: String)
    ensures
        r@ == placeholder_value(var@, data@),
{
    match strip_prefix(var, "event.data.") {
        Some(field) => match data.get(field.as_str()) {
            Some(Json::String(s)) => s.clone(),
            Some(Json::Number(n)) => n.clone(),
            Some(Json::Bool(b)) => if *b {
                String::from_str("true")
            } else {
                String::from_str("false")
            },
            _ => String::new(),
        },
        None => String::new(),
    }
}

/// The template with each `${...}` replaced by what it stands for in the
/// data of the event.
pub fn interpolate_string(template: &str, data: &Json) -> (r: String)
    ensures
        r@ == interpolate(template@, data@),
{
    let n = template.unicode_len();
    let mut out = String::new();
    let mut pos: usize = 0;
    let ghost t = template@;
    assert(out@ + interpolate_from(t, 0, data@) =~= interpolate_from(t, 0, data@));
    loop
        invariant
            t == template@,
            n == t.len(),
            pos <= n,
            out@ + interpolate_from(t, pos as int, data@) == interpolate(t, data@),
        decreases n - pos,
    {
        proof {
            reveal_strlit("${");
            reveal_strlit("}");
            lemma_find_from(t, pos as int, "${"@);
        }
        match find(template, pos, "${") {
            None => {
                let ghost before = out@;
                out.append(slice(template, pos, n).as_str());
                return out;
            },
            Some(start) => {
                proof {
                    lemma_find_from(t, start as int, "}"@);
                }
                match find(template, start, "}") {
                    Some(end) if end >= start + 2 && end < n => {
                        let ghost before = out@;
                        out.append(slice(template, pos, start).as_str());
                        let var = slice(template, start + 2, end);
                        out.append(placeholder_text(var.as_str(), data).as_str());
                        assert(out@ =~= before + (t.subrange(pos as int, start as int)
                            + placeholder_value(t.subrange(start + 2, end as int), data@)));
                        assert(before + interpolate_from(t, pos as int, data@) =~= out@
                            + interpolate_from(t, end + 1, data@));
                        pos = end + 1;
                    },
                    _ => {
                        out.append(slice(template, pos, n).as_str());
                        return out;
                    },
                }
            },
        }
    }
}

/// A JSON template with every string in it interpolated.
pub fn interpolate_template(template: &Json, data: &Json) -> (r: Json)
    ensures
        r@ == interpolate_json(template@, data@),
    decreases template,
{
    match template {
        Json::String(s) => Json::String(interpolate_string(s.as_str(), data)),
        Json::Array(items) => {
            proof {
                template.lemma_array_view();
            }
            let mut done: Vec<Json> = Vec::new();
            let mut i: usize = 0;
            while i < items.len()
                invariant
                    template is Array && template->Array_0 == *items,
                    i <= items.len(),
                    done@.len() == i,
                    forall|j: int|
                        0 <= j < i ==> done@[j]@ == interpolate_json(items@[j]@, data@),
                decreases items.len() - i,
            {
                assert(decreases_to!(template->Array_0 => items[i as int]));
                done.push(interpolate_template(&items[i], data));
                i += 1;
            }
            let r = Json::Array(done);
            proof {
                r.lemma_array_view();
                assert(r@->Array_0 =~= interpolate_json(template@, data@)->Array_0);
            }
            r
        },
        Json::Object(members) => {
            proof {
                template.lemma_object_view();
            }
            let mut done: Vec<(String, Json)> = Vec::new();
            let mut i: usize = 0;
            while i < members.len()
                invariant
                    template is Object && template->Object_0 == *members,
                    i <= members.len(),
                    done@.len() == i,
                    forall|j: int|
                        0 <= j < i ==> done@[j].0@ == members@[j].0@ && done@[j].1@
                            == interpolate_json(members@[j].1@, data@),
                decreases members.len() - i,
            {
                assert(decreases_to!(template->Object_0 => members[i as int]));
                done.push((members[i].0.clone(), interpolate_template(&members[i].1, data)));
                i += 1;
            }
            let r = Json::Object(done);
            proof {
                r.lemma_object_view();
                assert(r@->Object_0 =~= interpolate_json(template@, data@)->Object_0);
            }
            r
        },
        other => other.clone(),
    }
}

/// Header values interpolated, names as they are.
fn interpolate_header_list(headers: &Vec<(String, String)>, data: &Json) -> (r: Vec<
    (String, String),
>)
    ensures
        pair_views(r@) == interpolate_headers(pair_views(headers@), data@),
{
    let mut done: Vec<(String, String)> = Vec::new();
    let mut i: usize = 0;
    while i < headers.len()
        invariant
            i <= headers.len(),
            done@.len() == i,
            forall|j: int|
                0 <= j < i ==> done@[j].0@ == headers@[j].0@ && done@[j].1@ == interpolate(
                    headers@[j].1@,
                    data@,
                ),
        decreases headers.len() - i,
    {
        done.push(
            (headers[i].0.clone(), interpolate_string(headers[i].1.as_str(), data)),
        );
        i += 1;
    }
    assert(pair_views(done@) =~= interpolate_headers(pair_views(headers@), data@));
    done
}

/// The number that an operand denotes, as a token.
fn operand(expr: &str, data: &Json) -> (r: Option<String>)
    ensures
        match r {
            Some(token) => operand_number(expr@, data@) == Some(token@),
            None => operand_number(expr@, data@) is None,
        },
{
    let field = match strip_prefix(expr, "${") {
        Some(rest) => match strip_suffix(rest.as_str(), "}") {
            Some(path) => strip_prefix(path.as_str(), "event.data."),
            None => None,
        },
        None => None,
    };
    match field {
        Some(name) => match data.get(name.as_str()) {
            Some(Json::Number(n)) => Some(n.clone()),
            _ => None,
        },
        None => float_literal(expr),
    }
}

/// Whether a step condition holds for the data of an event.
pub fn evaluate_condition(condition: &str, data: &Json) -> (r: bool)
    ensures
        r == condition_holds(condition@, data@),
{
    let n = condition.unicode_len();
    match find(condition, 0, ">") {
        Some(i) if i < n => {
            let left = trim(slice(condition, 0, i).as_str());
            let right = trim(slice(condition, i + 1, n).as_str());
            match (operand(left.as_str(), data), operand(right.as_str(), data)) {
                (Some(a), Some(b)) => Relation::Greater.holds(
                    compare_number_tokens(a.as_str(), b.as_str()),
                ),
                _ => false,
            }
        },
        _ => false,
    }
}

/// A step, read off the log at `pos`.
pub fn execute_step(step_type: &StepType, event: &Event, log: &[Outcome], pos: usize) -> (r: Run<
    Result<Json, ActionError>,
>)
    requires
        pos <= log@.len(),
    ensures
        crate::engine::http::call_agrees(r, step_run(*step_type, *event, log@, pos as int)),
        r matches Run::Finished { pos: p, .. } ==> pos <= p <= log@.len(),
    decreases step_type,
{
    match step_type {
        StepType::Webhook { url, method, headers, body_template, timeout_ms, retry } => {
            let call = WebhookCall {
                method: match parse_method(method.as_str()) {
                    Some(h) => Ok(h),
                    None => Err(ActionError::UnsupportedMethod { method: method.clone() }),
                },
                url: interpolate_string(url.as_str(), &event.data),
                headers: interpolate_header_list(headers, &event.data),
                body: interpolate_template(body_template, &event.data),
                timeout_ms: match timeout_ms {
                    Some(t) => *t,
                    None => DEFAULT_TIMEOUT_MS,
                },
                retry: *retry,
            };
            call.perform(log, pos)
        },
        StepType::Condition { condition, if_true, if_false } => {
            if evaluate_condition(condition.as_str(), &event.data) {
                execute_step(&if_true.step_type, event, log, pos)
            } else {
                execute_step(&if_false.step_type, event, log, pos)
            }
        },
        StepType::Delay { duration_ms } => {
            if pos >= log.len() {
                Run::Blocked(Effect::Sleep { duration_ms: *duration_ms })
            } else {
                match &log[pos] {
                    Outcome::Slept { .. } => {
                        let mut members: Vec<(String, Json)> = Vec::new();
                        members.push(
                            (String::from_str("delayed_ms"), Json::Number(decimal(*duration_ms))),
                        );
                        let value = Json::Object(members);
                        proof {
                            value.lemma_object_view();
                            assert(value@->Object_0 =~= delayed_response(*duration_ms)->Object_0);
                        }
                        Run::Finished { value: Ok(value), pos: pos + 1 }
                    },
                    Outcome::Http { .. } => Run::Finished {
                        value: Err(ActionError::UnexpectedOutcome),
                        pos: pos + 1,
                    },
                }
            }
        },
    }
}

/// The place of the status recorded under a name.
fn find_recorded(entries: &Vec<(String, StepStatus)>, name: &str) -> (r: Option<usize>)
    ensures
        match r {
            Some(i) => position(recorded_names(status_views(entries@)), name@) == Some(i as int)
                && i < entries@.len(),
            None => position(recorded_names(status_views(entries@)), name@) is None,
        },
{
    let ghost names = recorded_names(status_views(entries@));
    let mut i: usize = 0;
    while i < entries.len()
        invariant
            i <= entries.len(),
            names == recorded_names(status_views(entries@)),
            position(names, name@) == position_from(names, name@, i as int),
        decreases entries.len() - i,
    {
        if text_equal(entries[i].0.as_str(), name) {
            return Some(i);
        }
        i += 1;
    }
    None
}

/// Sets a step's status in the record: in place of the status recorded
/// under that name, or at the end where the name is new.
pub fn record_step(entries: &mut Vec<(String, StepStatus)>, name: String, status: StepStatus)
    ensures
        status_views(final(entries)@) == recorded(status_views(old(entries)@), name@, status@),
{
    let ghost views = status_views(entries@);
    match find_recorded(entries, name.as_str()) {
        Some(k) => {
            entries.set(k, (name, status));
            assert(status_views(entries@) =~= recorded(views, name@, status@));
        },
        None => {
            entries.push((name, status));
            assert(status_views(entries@) =~= recorded(views, name@, status@));
        },
    }
}

/// What is recorded of a step that ended at `at`.
fn status_of(result: &Result<Json, ActionError>, at: i64) -> (r: StepStatus)
    ensures
        r@ == step_record(
            match *result {
                Ok(j) => Ok(j@),
                Err(e) => Err(e),
            },
            at,
        ),
{
    match result {
        Ok(response) => StepStatus {
            status: StepExecutionStatus::Completed,
            started_at: at,
            completed_at: Some(at),
            attempts: 1,
            response: Some(response.clone()),
            error: None,
        },
        Err(e) => StepStatus {
            status: StepExecutionStatus::Failed,
            started_at: at,
            completed_at: Some(at),
            attempts: 1,
            response: None,
            error: Some(e.message()),
        },
    }
}

/// Runs the steps of a flow.
#[derive(Debug, Clone, Copy)]
pub struct Executor {}

impl Default for Executor {
    fn default() -> Executor {
        Executor::new()
    }
}

impl Executor {
    /// An executor.
    pub fn new() -> Executor {
        Executor {  }
    }

    /// Runs the steps of the flow in order for the event, for an execution
    /// that started at `started_at`, reading the outcomes of the effects
    /// they ask for from the log.
    ///
    /// The result is `Pending` with the next effect where the log ends
    /// before the run does. Else it is `Finished` with the execution under
    /// a fresh identifier: failed where a step failed and stopped the flow,
    /// completed otherwise, with the status of every step that ran.
    pub fn execute(&self, flow: &Flow, event: &Event, started_at: i64, log: &[Outcome]) -> (r:
        FlowProgress)
        ensures
            flow_agrees(
                r,
                flow_run(*flow, *event, started_at, 0, None, Seq::empty(), log@, 0),
            ),
    {
        let mut statuses: Vec<(String, StepStatus)> = Vec::new();
        let mut current_step: Option<String> = None;
        let mut at: usize = 0;
        let mut i: usize = 0;
        assert(status_views(statuses@) =~= Seq::empty());
        while i < flow.steps.len()
            invariant
                i <= flow.steps.len(),
                at <= log@.len(),
                flow_run(
                    *flow,
                    *event,
                    started_at,
                    i as int,
                    match current_step {
                        Some(s) => Some(s@),
                        None => None,
                    },
                    status_views(statuses@),
                    log@,
                    at as int,
                ) == flow_run(*flow, *event, started_at, 0, None, Seq::empty(), log@, 0),
            decreases flow.steps.len() - i,
        {
            let step = &flow.steps[i];
            match execute_step(&step.step_type, event, log, at) {
                Run::Blocked(effect) => {
                    return FlowProgress::Pending(effect);
                },
                Run::Finished { value, pos: p } => {
                    let now = read_clock(log, p, started_at);
                    let status = status_of(&value, now);
                    record_step(&mut statuses, step.name.clone(), status);
                    current_step = Some(step.name.clone());
                    match value {
                        Err(e) => {
                            match step.on_failure {
                                FailureAction::Stop => {
                                    let id = fresh_id();
                                    return FlowProgress::Finished(
                                        Execution {
                                            id,
                                            flow_id: flow.id,
                                            event_id: event.id,
                                            status: ExecutionStatus::Failed,
                                            current_step,
                                            steps_status: statuses,
                                            started_at,
                                            completed_at: Some(now),
                                            error: Some(e.message()),
                                        },
                                    );
                                },
                                FailureAction::Continue => {},
                            }
                        },
                        Ok(_) => {},
                    }
                    at = p;
                },
            }
            i += 1;
        }
        let id = fresh_id();
        FlowProgress::Finished(
            Execution {
                id,
                flow_id: flow.id,
                event_id: event.id,
                status: ExecutionStatus::Completed,
                current_step,
                steps_status: statuses,
                started_at,
                completed_at: Some(read_clock(log, at, started_at)),
                error: None,
            },
        )
    }
}

/// A step that is finished stays as it is when the log grows.
pub proof fn lemma_step_is_settled(
    step_type: StepType,
    event: Event,
    log: Seq<Outcome>,
    more: Seq<Outcome>,
    pos: int,
)
    requires
        0 <= pos <= log.len(),
    ensures
        settled(
            step_run(step_type, event, log, pos),
            step_run(step_type, event, log + more, pos),
            pos,
            log.len() as int,
        ),
    decreases step_type,
{
    match step_type {
        StepType::Webhook { url, method, headers, body_template, timeout_ms, retry } => {
            lemma_call_is_settled(
                WebhookCallView {
                    method: step_method(method),
                    url: interpolate(url@, event.data@),
                    headers: interpolate_headers(pair_views(headers@), event.data@),
                    body: interpolate_json(body_template@, event.data@),
                    timeout_ms: match timeout_ms {
                        Some(t) => t,
                        None => DEFAULT_TIMEOUT_MS,
                    },
                    retry,
                },
                log,
                more,
                pos,
                1,
            );
        },
        StepType::Condition { condition, if_true, if_false } => {
            if condition_holds(condition@, event.data@) {
                lemma_step_is_settled(if_true.step_type, event, log, more, pos);
            } else {
                lemma_step_is_settled(if_false.step_type, event, log, more, pos);
            }
        },
        StepType::Delay { .. } => {
            if pos < log.len() {
                assert((log + more)[pos] == log[pos]);
            }
        },
    }
}

/// A run of a flow that is finished stays as it is when the log grows:
/// outcomes that come later change nothing of the execution.
pub proof fn lemma_flow_is_settled(
    flow: Flow,
    event: Event,
    started_at: i64,
    i: int,
    current_step: Option<Seq<char>>,
    statuses: Seq<(Seq<char>, StepStatusView)>,
    log: Seq<Outcome>,
    more: Seq<Outcome>,
    pos: int,
)
    requires
        0 <= pos <= log.len(),
    ensures
        settled(
            flow_run(flow, event, started_at, i, current_step, statuses, log, pos),
            flow_run(flow, event, started_at, i, current_step, statuses, log + more, pos),
            pos,
            log.len() as int,
        ),
    decreases flow.steps@.len() - i,
{
    if pos > 0 {
        assert((log + more)[pos - 1] == log[pos - 1]);
    }
    if 0 <= i < flow.steps@.len() {
        let step = flow.steps@[i];
        lemma_step_is_settled(step.step_type, event, log, more, pos);
        match step_run(step.step_type, event, log, pos) {
            RunView::Blocked(_) => {},
            RunView::Finished { value, pos: p } => {
                if p > 0 {
                    assert((log + more)[p - 1] == log[p - 1]);
                }
                let at = clock(log, p, started_at);
                let after = recorded(statuses, step.name@, step_record(value, at));
                if !(value is Err && step.on_failure == FailureAction::Stop) {
                    lemma_flow_is_settled(
                        flow,
                        event,
                        started_at,
                        i + 1,
                        Some(step.name@),
                        after,
                        log,
                        more,
                        p,
                    );
                }
            },
        }
    }
}

} // verus!
