//! The automation interpreter: runs the action trees of phase automations
//! against a case and collects the case modifications they ask for.
//!
//! The interpreter performs no I/O. It reads the outcomes of the effects it
//! asked for from a log; where the log ends before the run does, it names
//! the next effect. A caller performs that effect, appends its outcome, and
//! runs again with the longer log.

use crate::engine::conditions::{condition_value, evaluate_condition, optional_text};
use crate::engine::http::{
    attempts_failed, call_run, lemma_call_exhausts_its_budget, lemma_call_is_settled, method_of,
    parse_method, settled, ActionError, Effect, EffectView, HttpMethod, Outcome, Run, RunView,
    WebhookCall, WebhookCallView,
};
use crate::ident::{instant_text, render_instant, render_uuid, uuid_text};
use crate::json::{
    find_member, insert_member, lookup, members_view, with_member, Json, JsonView,
};
use crate::models::automation::{
    modification_views, referents, AutomationAction, AutomationResult, CaseModification,
    ModificationView, OnError, PhaseAutomation, RetryConfig,
};
use crate::models::case::Case;
use crate::models::step::BackoffStrategy;
use crate::text::{copy_pairs, pair_views, text_equal, text_views};
use vstd::prelude::*;
use vstd::string::*;

verus! {

/// Every automation webhook gets this many milliseconds.
pub const WEBHOOK_TIMEOUT_MS: u64 = 30000;

/// An instant as JSON: its RFC 3339 text, or `null` where it has none.
pub open spec fn instant_json(micros: i64) -> JsonView {
    match instant_text(micros) {
        Some(text) => JsonView::String(text),
        None => JsonView::Null,
    }
}

/// A JSON value that may be absent: the value, or `null`.
pub open spec fn optional_json(value: Option<Json>) -> JsonView {
    match value {
        Some(v) => v@,
        None => JsonView::Null,
    }
}

/// The view of a borrowed string that may be absent.
pub open spec fn optional_str_view(s: Option<&str>) -> Option<Seq<char>> {
    match s {
        Some(x) => Some(x@),
        None => None,
    }
}

/// The member of a webhook body that a field name asks for, if the name is
/// one of the known ones. `id` is another name for `case_id`;
/// `previous_phase` is the phase the case came from.
pub open spec fn projection(case: Case, from_phase: Option<Seq<char>>, name: Seq<char>) -> Option<
    (Seq<char>, JsonView),
> {
    if name == "case_id"@ || name == "id"@ {
        Some(("case_id"@, JsonView::String(uuid_text(case.id))))
    } else if name == "workflow_id"@ {
        Some(("workflow_id"@, JsonView::String(uuid_text(case.workflow_id))))
    } else if name == "current_phase"@ {
        Some(("current_phase"@, JsonView::String(case.current_phase@)))
    } else if name == "previous_phase"@ {
        Some(("previous_phase"@, optional_text(from_phase)))
    } else if name == "data"@ {
        Some(("data"@, case.data@))
    } else if name == "metadata"@ {
        Some(("metadata"@, optional_json(case.metadata)))
    } else if name == "status"@ {
        Some(("status"@, JsonView::String(case.status.text())))
    } else if name == "created_at"@ {
        Some(("created_at"@, instant_json(case.created_at)))
    } else if name == "updated_at"@ {
        Some(("updated_at"@, instant_json(case.updated_at)))
    } else {
        None
    }
}

/// The members that the first `n` field names ask for, each set among those
/// before it; unknown names add nothing.
pub open spec fn selected_members(
    case: Case,
    from_phase: Option<Seq<char>>,
    fields: Seq<Seq<char>>,
    n: int,
) -> Seq<(Seq<char>, JsonView)>
    decreases n,
{
    if n <= 0 || n > fields.len() {
        Seq::empty()
    } else {
        let earlier = selected_members(case, from_phase, fields, n - 1);
        match projection(case, from_phase, fields[n - 1]) {
            Some((key, value)) => with_member(earlier, key, value),
            None => earlier,
        }
    }
}

/// The field names of the full payload.
pub open spec fn default_fields() -> Seq<Seq<char>> {
    seq![
        "case_id"@,
        "workflow_id"@,
        "current_phase"@,
        "previous_phase"@,
        "data"@,
        "metadata"@,
        "status"@,
        "created_at"@,
        "updated_at"@,
    ]
}

/// The body of an automation webhook: the members that the field names ask
/// for, or the full payload where no names are given.
pub open spec fn webhook_body(
    case: Case,
    from_phase: Option<Seq<char>>,
    fields: Option<Seq<Seq<char>>>,
) -> JsonView {
    let names = match fields {
        Some(f) => f,
        None => default_fields(),
    };
    JsonView::Object(selected_members(case, from_phase, names, names.len() as int))
}

/// The retry budget of a webhook action: its attempts with a fixed delay
/// where retrying is enabled, none where it is not.
pub open spec fn retry_budget(retry: RetryConfig) -> Option<crate::models::step::RetryConfig> {
    if retry.enabled {
        Some(
            crate::models::step::RetryConfig {
                max_attempts: retry.max_attempts,
                backoff: BackoffStrategy::Fixed,
                initial_delay_ms: retry.delay_ms,
            },
        )
    } else {
        None
    }
}

/// The method of a webhook action: POST where none is given.
pub open spec fn action_method(method: Option<String>) -> Result<HttpMethod, ActionError> {
    match method {
        None => Ok(HttpMethod::Post),
        Some(m) => match method_of(m@) {
            Some(h) => Ok(h),
            None => Err(ActionError::UnsupportedMethod { method: m }),
        },
    }
}

/// The body of a webhook action: the response kept under the identifier it
/// names, which must be there, or else the payload built from the case.
pub open spec fn action_body(
    fields: Option<Vec<String>>,
    use_response_from: Option<String>,
    case: Case,
    from_phase: Option<Seq<char>>,
    responses: Seq<(Seq<char>, JsonView)>,
) -> Result<JsonView, ActionError> {
    match use_response_from {
        Some(id) => match lookup(responses, id@) {
            Some(v) => Ok(v),
            None => Err(ActionError::ResponseNotFound { id }),
        },
        None => Ok(
            webhook_body(
                case,
                from_phase,
                match fields {
                    Some(f) => Some(text_views(f@)),
                    None => None,
                },
            ),
        ),
    }
}

/// What an action yields: the response to keep, if it is a webhook, and the
/// modifications it asks for.
pub struct ActionYield {
    pub response: Option<JsonView>,
    pub modifications: Seq<ModificationView>,
}

/// A sleep, read off the log at `pos`.
pub open spec fn delay_run(duration_ms: u64, log: Seq<Outcome>, pos: int) -> RunView<
    Result<ActionYield, ActionError>,
> {
    if pos >= log.len() {
        RunView::Blocked(EffectView::Sleep { duration_ms })
    } else {
        match log[pos] {
            Outcome::Slept { .. } => RunView::Finished {
                value: Ok(ActionYield { response: None, modifications: Seq::empty() }),
                pos: pos + 1,
            },
            Outcome::Http { .. } => RunView::Finished {
                value: Err(ActionError::UnexpectedOutcome),
                pos: pos + 1,
            },
        }
    }
}

/// The responses after an action: its response kept under its identifier,
/// where it has both.
pub open spec fn kept_responses(
    responses: Seq<(Seq<char>, JsonView)>,
    action: AutomationAction,
    response: Option<JsonView>,
) -> Seq<(Seq<char>, JsonView)> {
    match (action.spec_id(), response) {
        (Some(id), Some(value)) => with_member(responses, id@, value),
        _ => responses,
    }
}

/// One action, read off the log at `pos`.
///
/// A webhook makes its call. A delay sleeps. A conditional evaluates its
/// condition and runs the branch it selects as a list of its own, which
/// starts without kept responses. The two remaining actions ask for a
/// modification and touch nothing.
pub open spec fn action_run(
    action: AutomationAction,
    case: Case,
    from_phase: Option<Seq<char>>,
    responses: Seq<(Seq<char>, JsonView)>,
    log: Seq<Outcome>,
    pos: int,
) -> RunView<Result<ActionYield, ActionError>>
    decreases action, 0nat,
{
    match action {
        AutomationAction::Webhook { url, method, headers, fields, use_response_from, retry, .. } => {
            match action_body(fields, use_response_from, case, from_phase, responses) {
                Err(e) => RunView::Finished { value: Err(e), pos },
                Ok(body) => {
                    let call = WebhookCallView {
                        method: action_method(method),
                        url: url@,
                        headers: match headers {
                            Some(h) => pair_views(h@),
                            None => Seq::empty(),
                        },
                        body,
                        timeout_ms: WEBHOOK_TIMEOUT_MS,
                        retry: retry_budget(retry),
                    };
                    match call_run(call, log, pos, 1) {
                        RunView::Blocked(e) => RunView::Blocked(e),
                        RunView::Finished { value: Ok(v), pos: p } => RunView::Finished {
                            value: Ok(
                                ActionYield { response: Some(v), modifications: Seq::empty() },
                            ),
                            pos: p,
                        },
                        RunView::Finished { value: Err(e), pos: p } => RunView::Finished {
                            value: Err(e),
                            pos: p,
                        },
                    }
                },
            }
        },
        AutomationAction::Delay { duration_ms, .. } => delay_run(duration_ms, log, pos),
        AutomationAction::Conditional { condition, then, otherwise, .. } => {
            match condition_value(condition, case) {
                Err(e) => RunView::Finished { value: Err(e), pos },
                Ok(true) => branch_yield(
                    list_run(then@, 0, case, from_phase, Seq::empty(), Seq::empty(), log, pos),
                ),
                Ok(false) => match otherwise {
                    Some(actions) => branch_yield(
                        list_run(
                            actions@,
                            0,
                            case,
                            from_phase,
                            Seq::empty(),
                            Seq::empty(),
                            log,
                            pos,
                        ),
                    ),
                    None => RunView::Finished {
                        value: Ok(ActionYield { response: None, modifications: Seq::empty() }),
                        pos,
                    },
                },
            }
        },
        AutomationAction::MoveToPhase { phase, .. } => RunView::Finished {
            value: Ok(
                ActionYield {
                    response: None,
                    modifications: seq![ModificationView::MoveToPhase { phase: phase@ }],
                },
            ),
            pos,
        },
        AutomationAction::SetField { field, value, .. } => RunView::Finished {
            value: Ok(
                ActionYield {
                    response: None,
                    modifications: seq![
                        ModificationView::SetField { field: field@, value: value@ },
                    ],
                },
            ),
            pos,
        },
    }
}

/// What a conditional yields from the run of its branch.
pub open spec fn branch_yield(run: RunView<Result<Seq<ModificationView>, ActionError>>) -> RunView<
    Result<ActionYield, ActionError>,
> {
    match run {
        RunView::Blocked(e) => RunView::Blocked(e),
        RunView::Finished { value: Ok(mods), pos } => RunView::Finished {
            value: Ok(ActionYield { response: None, modifications: mods }),
            pos,
        },
        RunView::Finished { value: Err(e), pos } => RunView::Finished { value: Err(e), pos },
    }
}

/// A list of actions from its action `i` on, read off the log at `pos`,
/// with the responses kept and the modifications collected so far.
///
/// Each action sees the responses of the webhooks before it. Where an action
/// fails, the list stops with an error if the action says so, and goes on
/// with the next action, keeping nothing of the failed one, if not.
pub open spec fn list_run(
    actions: Seq<AutomationAction>,
    i: int,
    case: Case,
    from_phase: Option<Seq<char>>,
    responses: Seq<(Seq<char>, JsonView)>,
    mods: Seq<ModificationView>,
    log: Seq<Outcome>,
    pos: int,
) -> RunView<Result<Seq<ModificationView>, ActionError>>
    decreases actions, actions.len() - i,
{
    if i < 0 || i >= actions.len() {
        RunView::Finished { value: Ok(mods), pos }
    } else {
        match action_run(actions[i], case, from_phase, responses, log, pos) {
            RunView::Blocked(e) => RunView::Blocked(e),
            RunView::Finished { value: Ok(y), pos: p } => list_run(
                actions,
                i + 1,
                case,
                from_phase,
                kept_responses(responses, actions[i], y.response),
                mods + y.modifications,
                log,
                p,
            ),
            RunView::Finished { value: Err(e), pos: p } => match actions[i].spec_on_error() {
                OnError::Stop => RunView::Finished {
                    value: Err(
                        ActionError::ActionFailed {
                            name: actions[i].spec_name(),
                            index: i as usize,
                            cause: Box::new(e),
                        },
                    ),
                    pos: p,
                },
                OnError::Continue => list_run(
                    actions,
                    i + 1,
                    case,
                    from_phase,
                    responses,
                    mods,
                    log,
                    p,
                ),
            },
        }
    }
}

/// The automations from number `k` on, read off the log at `pos`, with the
/// modifications collected so far. Each automation's actions run as a list
/// of their own; the first list that fails ends the run with its error.
pub open spec fn automations_run(
    automations: Seq<PhaseAutomation>,
    k: int,
    case: Case,
    from_phase: Option<Seq<char>>,
    mods: Seq<ModificationView>,
    log: Seq<Outcome>,
    pos: int,
) -> RunView<Result<Seq<ModificationView>, ActionError>>
    decreases automations.len() - k,
{
    if k < 0 || k >= automations.len() {
        RunView::Finished { value: Ok(mods), pos }
    } else {
        match list_run(
            automations[k].actions@,
            0,
            case,
            from_phase,
            Seq::empty(),
            Seq::empty(),
            log,
            pos,
        ) {
            RunView::Blocked(e) => RunView::Blocked(e),
            RunView::Finished { value: Ok(m), pos: p } => automations_run(
                automations,
                k + 1,
                case,
                from_phase,
                mods + m,
                log,
                p,
            ),
            RunView::Finished { value: Err(e), pos: p } => RunView::Finished {
                value: Err(e),
                pos: p,
            },
        }
    }
}

/// An executed run of an action stands where the mathematical run stands.
pub open spec fn yield_agrees(
    r: Run<Result<(Option<Json>, Vec<CaseModification>), ActionError>>,
    v: RunView<Result<ActionYield, ActionError>>,
) -> bool {
    match r {
        Run::Blocked(effect) => v == RunView::<Result<ActionYield, ActionError>>::Blocked(effect@),
        Run::Finished { value: Ok((response, mods)), pos } => v == (RunView::Finished {
            value: Ok::<ActionYield, ActionError>(
                ActionYield {
                    response: match response {
                        Some(j) => Some(j@),
                        None => None,
                    },
                    modifications: modification_views(mods@),
                },
            ),
            pos: pos as int,
        }),
        Run::Finished { value: Err(e), pos } => v == (RunView::Finished {
            value: Err::<ActionYield, ActionError>(e),
            pos: pos as int,
        }),
    }
}

/// An executed run of a list stands where the mathematical run stands.
pub open spec fn list_agrees(
    r: Run<Result<Vec<CaseModification>, ActionError>>,
    v: RunView<Result<Seq<ModificationView>, ActionError>>,
) -> bool {
    match r {
        Run::Blocked(effect) => v == RunView::<
            Result<Seq<ModificationView>, ActionError>,
        >::Blocked(effect@),
        Run::Finished { value: Ok(mods), pos } => v == (RunView::Finished {
            value: Ok::<Seq<ModificationView>, ActionError>(modification_views(mods@)),
            pos: pos as int,
        }),
        Run::Finished { value: Err(e), pos } => v == (RunView::Finished {
            value: Err::<Seq<ModificationView>, ActionError>(e),
            pos: pos as int,
        }),
    }
}

/// Where a run of automations stands: waiting for the caller to perform an
/// effect, or finished with the modifications or with an error.
#[derive(Debug)]
pub enum AutomationProgress {
    Pending(Effect),
    Finished(Result<AutomationResult, ActionError>),
}

/// An executed run of automations stands where the mathematical run stands.
pub open spec fn progress_agrees(
    r: AutomationProgress,
    v: RunView<Result<Seq<ModificationView>, ActionError>>,
) -> bool {
    match v {
        RunView::Blocked(e) => r matches AutomationProgress::Pending(effect) && effect@ == e,
        RunView::Finished { value: Ok(mods), .. } => r matches AutomationProgress::Finished(
            Ok(result),
        ) && modification_views(result.modifications@) == mods,
        RunView::Finished { value: Err(e), .. } => r matches AutomationProgress::Finished(
            Err(error),
        ) && error == e,
    }
}

/// The names of the full payload.
fn default_field_names() -> (r: Vec<String>)
    ensures
        text_views(r@) == default_fields(),
{
    let mut names: Vec<String> = Vec::new();
    names.push(String::from_str("case_id"));
    names.push(String::from_str("workflow_id"));
    names.push(String::from_str("current_phase"));
    names.push(String::from_str("previous_phase"));
    names.push(String::from_str("data"));
    names.push(String::from_str("metadata"));
    names.push(String::from_str("status"));
    names.push(String::from_str("created_at"));
    names.push(String::from_str("updated_at"));
    assert(text_views(names@) =~= default_fields());
    names
}

/// An instant as JSON.
fn instant_value(micros: i64) -> (r: Json)
    ensures
        r@ == instant_json(micros),
{
    match render_instant(micros) {
        Some(text) => Json::String(text),
        None => Json::Null,
    }
}

/// The member of a webhook body that a field name asks for.
pub fn project(case: &Case, from_phase: Option<&str>, name: &str) -> (r: Option<(String, Json)>)
    ensures
        match r {
            Some((key, value)) => projection(*case, optional_str_view(from_phase), name@) == Some(
                (key@, value@),
            ),
            None => projection(*case, optional_str_view(from_phase), name@) is None,
        },
{
    if text_equal(name, "case_id") || text_equal(name, "id") {
        Some((String::from_str("case_id"), Json::String(render_uuid(case.id))))
    } else if text_equal(name, "workflow_id") {
        Some((String::from_str("workflow_id"), Json::String(render_uuid(case.workflow_id))))
    } else if text_equal(name, "current_phase") {
        Some((String::from_str("current_phase"), Json::text(case.current_phase.as_str())))
    } else if text_equal(name, "previous_phase") {
        let value = match from_phase {
            Some(p) => Json::text(p),
            None => Json::Null,
        };
        Some((String::from_str("previous_phase"), value))
    } else if text_equal(name, "data") {
        Some((String::from_str("data"), case.data.clone()))
    } else if text_equal(name, "metadata") {
        let value = match &case.metadata {
            Some(m) => m.clone(),
            None => Json::Null,
        };
        Some((String::from_str("metadata"), value))
    } else if text_equal(name, "status") {
        Some((String::from_str("status"), Json::text(case.status.as_str())))
    } else if text_equal(name, "created_at") {
        Some((String::from_str("created_at"), instant_value(case.created_at)))
    } else if text_equal(name, "updated_at") {
        Some((String::from_str("updated_at"), instant_value(case.updated_at)))
    } else {
        None
    }
}

/// The members that the field names ask for.
fn select_members(case: &Case, from_phase: Option<&str>, names: &Vec<String>) -> (r: Json)
    ensures
        r@ == JsonView::Object(
            selected_members(
                *case,
                optional_str_view(from_phase),
                text_views(names@),
                names@.len() as int,
            ),
        ),
{
    let mut members: Vec<(String, Json)> = Vec::new();
    let mut i: usize = 0;
    assert(members_view(members@) =~= Seq::empty());
    while i < names.len()
        invariant
            i <= names.len(),
            members_view(members@) == selected_members(
                *case,
                optional_str_view(from_phase),
                text_views(names@),
                i as int,
            ),
        decreases names.len() - i,
    {
        assert(text_views(names@)[i as int] == names@[i as int]@);
        match project(case, from_phase, names[i].as_str()) {
            Some((key, value)) => {
                insert_member(&mut members, key, value);
            },
            None => {},
        }
        i += 1;
    }
    let body = Json::Object(members);
    proof {
        body.lemma_object_view();
    }
    body
}

/// The body of an automation webhook: the members that the field names ask
/// for, or the full payload where no names are given.
pub fn build_webhook_body(case: &Case, from_phase: Option<&str>, fields: Option<&Vec<String>>) -> (r:
    Json)
    ensures
        r@ == webhook_body(
            *case,
            optional_str_view(from_phase),
            match fields {
                Some(f) => Some(text_views(f@)),
                None => None,
            },
        ),
{
    match fields {
        Some(names) => select_members(case, from_phase, names),
        None => {
            let names = default_field_names();
            select_members(case, from_phase, &names)
        },
    }
}

/// Appends the modifications of `more` to `mods`.
fn collect(mods: &mut Vec<CaseModification>, more: Vec<CaseModification>)
    ensures
        modification_views(final(mods)@) == modification_views(old(mods)@) + modification_views(
            more@,
        ),
{
    let mut more = more;
    let ghost added = more@;
    mods.append(&mut more);
    assert(modification_views(mods@) =~= modification_views(old(mods)@) + modification_views(
        added,
    ));
}

/// The call of a webhook action, or why it cannot be made.
fn prepare_call(
    url: &String,
    method: &Option<String>,
    headers: &Option<Vec<(String, String)>>,
    fields: &Option<Vec<String>>,
    use_response_from: &Option<String>,
    retry: &RetryConfig,
    case: &Case,
    from_phase: Option<&str>,
    responses: &Vec<(String, Json)>,
) -> (r: Result<WebhookCall, ActionError>)
    ensures
        match r {
            Ok(call) => action_body(
                *fields,
                *use_response_from,
                *case,
                optional_str_view(from_phase),
                members_view(responses@),
            ) is Ok && call@ == (WebhookCallView {
                method: action_method(*method),
                url: url@,
                headers: match *headers {
                    Some(h) => pair_views(h@),
                    None => Seq::empty(),
                },
                body: action_body(
                    *fields,
                    *use_response_from,
                    *case,
                    optional_str_view(from_phase),
                    members_view(responses@),
                )->Ok_0,
                timeout_ms: WEBHOOK_TIMEOUT_MS,
                retry: retry_budget(*retry),
            }),
            Err(e) => action_body(
                *fields,
                *use_response_from,
                *case,
                optional_str_view(from_phase),
                members_view(responses@),
            ) == Err::<JsonView, ActionError>(e),
        },
{
    let body = match use_response_from {
        Some(id) => match find_member(responses, id.as_str()) {
            Some(k) => responses[k].1.clone(),
            None => {
                return Err(ActionError::ResponseNotFound { id: id.clone() });
            },
        },
        None => build_webhook_body(
            case,
            from_phase,
            match fields {
                Some(f) => Some(f),
                None => None,
            },
        ),
    };
    let resolved = match method {
        None => Ok(HttpMethod::Post),
        Some(m) => match parse_method(m.as_str()) {
            Some(h) => Ok(h),
            None => Err(ActionError::UnsupportedMethod { method: m.clone() }),
        },
    };
    let copied = match headers {
        Some(h) => copy_pairs(h),
        None => {
            let none: Vec<(String, String)> = Vec::new();
            assert(pair_views(none@) =~= Seq::empty());
            none
        },
    };
    let budget = if retry.enabled {
        Some(
            crate::models::step::RetryConfig {
                max_attempts: retry.max_attempts,
                backoff: BackoffStrategy::Fixed,
                initial_delay_ms: retry.delay_ms,
            },
        )
    } else {
        None
    };
    Ok(
        WebhookCall {
            method: resolved,
            url: url.clone(),
            headers: copied,
            body,
            timeout_ms: WEBHOOK_TIMEOUT_MS,
            retry: budget,
        },
    )
}

/// One action, read off the log at `pos`.
pub fn execute_action(
    action: &AutomationAction,
    case: &Case,
    from_phase: Option<&str>,
    responses: &Vec<(String, Json)>,
    log: &[Outcome],
    pos: usize,
) -> (r: Run<Result<(Option<Json>, Vec<CaseModification>), ActionError>>)
    requires
        pos <= log@.len(),
    ensures
        yield_agrees(
            r,
            action_run(
                *action,
                *case,
                optional_str_view(from_phase),
                members_view(responses@),
                log@,
                pos as int,
            ),
        ),
        r matches Run::Finished { pos: p, .. } ==> pos <= p <= log@.len(),
    decreases action,
{
    let ghost none = Seq::<ModificationView>::empty();
    match action {
        AutomationAction::Webhook {
            url,
            method,
            headers,
            fields,
            use_response_from,
            retry,
            ..
        } => {
            match prepare_call(
                url,
                method,
                headers,
                fields,
                use_response_from,
                retry,
                case,
                from_phase,
                responses,
            ) {
                Err(e) => Run::Finished { value: Err(e), pos },
                Ok(call) => match call.perform(log, pos) {
                    Run::Blocked(effect) => Run::Blocked(effect),
                    Run::Finished { value: Ok(v), pos: p } => {
                        let mods: Vec<CaseModification> = Vec::new();
                        assert(modification_views(mods@) =~= none);
                        Run::Finished { value: Ok((Some(v), mods)), pos: p }
                    },
                    Run::Finished { value: Err(e), pos: p } => Run::Finished {
                        value: Err(e),
                        pos: p,
                    },
                },
            }
        },
        AutomationAction::Delay { duration_ms, .. } => {
            if pos >= log.len() {
                Run::Blocked(Effect::Sleep { duration_ms: *duration_ms })
            } else {
                match &log[pos] {
                    Outcome::Slept { .. } => {
                        let mods: Vec<CaseModification> = Vec::new();
                        assert(modification_views(mods@) =~= none);
                        Run::Finished { value: Ok((None, mods)), pos: pos + 1 }
                    },
                    Outcome::Http { .. } => Run::Finished {
                        value: Err(ActionError::UnexpectedOutcome),
                        pos: pos + 1,
                    },
                }
            }
        },
        AutomationAction::Conditional { condition, then, otherwise, .. } => {
            match evaluate_condition(condition, case) {
                Err(e) => Run::Finished { value: Err(e), pos },
                Ok(true) => branch_result(execute_actions(then, case, from_phase, log, pos)),
                Ok(false) => match otherwise {
                    Some(actions) => branch_result(
                        execute_actions(actions, case, from_phase, log, pos),
                    ),
                    None => {
                        let mods: Vec<CaseModification> = Vec::new();
                        assert(modification_views(mods@) =~= none);
                        Run::Finished { value: Ok((None, mods)), pos }
                    },
                },
            }
        },
        AutomationAction::MoveToPhase { phase, .. } => {
            let mut mods: Vec<CaseModification> = Vec::new();
            mods.push(CaseModification::MoveToPhase { phase: phase.clone() });
            assert(modification_views(mods@) =~= seq![
                ModificationView::MoveToPhase { phase: phase@ },
            ]);
            Run::Finished { value: Ok((None, mods)), pos }
        },
        AutomationAction::SetField { field, value, .. } => {
            let mut mods: Vec<CaseModification> = Vec::new();
            mods.push(CaseModification::SetField { field: field.clone(), value: value.clone() });
            assert(modification_views(mods@) =~= seq![
                ModificationView::SetField { field: field@, value: value@ },
            ]);
            Run::Finished { value: Ok((None, mods)), pos }
        },
    }
}

/// What a conditional yields from the run of its branch.
fn branch_result(run: Run<Result<Vec<CaseModification>, ActionError>>) -> (r: Run<
    Result<(Option<Json>, Vec<CaseModification>), ActionError>,
>)
    ensures
        forall|v: RunView<Result<Seq<ModificationView>, ActionError>>|
            list_agrees(run, v) ==> yield_agrees(r, branch_yield(v)),
        r matches Run::Finished { pos: p, .. } ==> run matches Run::Finished { pos: q, .. } && p == q,
{
    match run {
        Run::Blocked(effect) => Run::Blocked(effect),
        Run::Finished { value: Ok(mods), pos } => Run::Finished { value: Ok((None, mods)), pos },
        Run::Finished { value: Err(e), pos } => Run::Finished { value: Err(e), pos },
    }
}

/// A list of actions, read off the log from `pos` on.
pub fn execute_actions(
    actions: &Vec<AutomationAction>,
    case: &Case,
    from_phase: Option<&str>,
    log: &[Outcome],
    pos: usize,
) -> (r: Run<Result<Vec<CaseModification>, ActionError>>)
    requires
        pos <= log@.len(),
    ensures
        list_agrees(
            r,
            list_run(
                actions@,
                0,
                *case,
                optional_str_view(from_phase),
                Seq::empty(),
                Seq::empty(),
                log@,
                pos as int,
            ),
        ),
        r matches Run::Finished { pos: p, .. } ==> pos <= p <= log@.len(),
    decreases actions,
{
    let ghost from = optional_str_view(from_phase);
    let mut responses: Vec<(String, Json)> = Vec::new();
    let mut mods: Vec<CaseModification> = Vec::new();
    let mut at: usize = pos;
    let mut i: usize = 0;
    assert(members_view(responses@) =~= Seq::empty());
    assert(modification_views(mods@) =~= Seq::empty());
    while i < actions.len()
        invariant
            i <= actions.len(),
            pos <= at <= log@.len(),
            from == optional_str_view(from_phase),
            list_run(
                actions@,
                i as int,
                *case,
                from,
                members_view(responses@),
                modification_views(mods@),
                log@,
                at as int,
            ) == list_run(
                actions@,
                0,
                *case,
                from,
                Seq::empty(),
                Seq::empty(),
                log@,
                pos as int,
            ),
        decreases actions.len() - i,
    {
        let action = &actions[i];
        assert(decreases_to!(actions => actions[i as int]));
        match execute_action(action, case, from_phase, &responses, log, at) {
            Run::Blocked(effect) => {
                return Run::Blocked(effect);
            },
            Run::Finished { value: Ok((response, more)), pos: p } => {
                match (action.id(), response) {
                    (Some(id), Some(value)) => {
                        insert_member(&mut responses, id.to_owned(), value);
                    },
                    _ => {},
                }
                collect(&mut mods, more);
                at = p;
            },
            Run::Finished { value: Err(e), pos: p } => {
                match action.on_error() {
                    OnError::Stop => {
                        let name = match action.name_owned() {
                            Some(n) => Some(n),
                            None => None,
                        };
                        return Run::Finished {
                            value: Err(
                                ActionError::ActionFailed { name, index: i, cause: Box::new(e) },
                            ),
                            pos: p,
                        };
                    },
                    OnError::Continue => {
                        at = p;
                    },
                }
            },
        }
        i += 1;
    }
    Run::Finished { value: Ok(mods), pos: at }
}

/// Runs the automations of a phase.
#[derive(Debug, Clone, Copy)]
pub struct AutomationExecutor {}

impl Default for AutomationExecutor {
    fn default() -> AutomationExecutor {
        AutomationExecutor::new()
    }
}

impl AutomationExecutor {
    /// An executor.
    pub fn new() -> AutomationExecutor {
        AutomationExecutor {  }
    }

    /// Runs the automations in order against the case, reading the outcomes
    /// of the effects they ask for from the log.
    ///
    /// The result is `Pending` with the next effect where the log ends
    /// before the run does. Else it is `Finished`: with the modifications
    /// of all automations in order, or with the error of the first
    /// automation whose action list stopped.
    pub fn execute_automations(
        &self,
        automations: &[&PhaseAutomation],
        case: &Case,
        from_phase: Option<&str>,
        log: &[Outcome],
    ) -> (r: AutomationProgress)
        ensures
            progress_agrees(
                r,
                automations_run(
                    referents(automations@),
                    0,
                    *case,
                    optional_str_view(from_phase),
                    Seq::empty(),
                    log@,
                    0,
                ),
            ),
    {
        let ghost from = optional_str_view(from_phase);
        let ghost all = referents(automations@);
        let mut mods: Vec<CaseModification> = Vec::new();
        let mut at: usize = 0;
        let mut k: usize = 0;
        assert(modification_views(mods@) =~= Seq::empty());
        while k < automations.len()
            invariant
                k <= automations.len(),
                at <= log@.len(),
                from == optional_str_view(from_phase),
                all == referents(automations@),
                automations_run(all, k as int, *case, from, modification_views(mods@), log@, at as int)
                    == automations_run(all, 0, *case, from, Seq::empty(), log@, 0),
            decreases automations.len() - k,
        {
            let automation = automations[k];
            assert(all[k as int] == *automation);
            match execute_actions(&automation.actions, case, from_phase, log, at) {
                Run::Blocked(effect) => {
                    return AutomationProgress::Pending(effect);
                },
                Run::Finished { value: Ok(more), pos: p } => {
                    collect(&mut mods, more);
                    at = p;
                },
                Run::Finished { value: Err(e), pos: _ } => {
                    return AutomationProgress::Finished(Err(e));
                },
            }
            k += 1;
        }
        AutomationProgress::Finished(Ok(AutomationResult { modifications: mods }))
    }
}

/// An action that is finished stays as it is when the log grows.
pub proof fn lemma_action_is_settled(
    action: AutomationAction,
    case: Case,
    from_phase: Option<Seq<char>>,
    responses: Seq<(Seq<char>, JsonView)>,
    log: Seq<Outcome>,
    more: Seq<Outcome>,
    pos: int,
)
    requires
        0 <= pos <= log.len(),
    ensures
        settled(
            action_run(action, case, from_phase, responses, log, pos),
            action_run(action, case, from_phase, responses, log + more, pos),
            pos,
            log.len() as int,
        ),
    decreases action, 0nat,
{
    match action {
        AutomationAction::Webhook { url, method, headers, fields, use_response_from, retry, .. } => {
            match action_body(fields, use_response_from, case, from_phase, responses) {
                Ok(body) => {
                    let call = WebhookCallView {
                        method: action_method(method),
                        url: url@,
                        headers: match headers {
                            Some(h) => pair_views(h@),
                            None => Seq::empty(),
                        },
                        body,
                        timeout_ms: WEBHOOK_TIMEOUT_MS,
                        retry: retry_budget(retry),
                    };
                    lemma_call_is_settled(call, log, more, pos, 1);
                },
                Err(_) => {},
            }
        },
        AutomationAction::Delay { .. } => {
            if pos < log.len() {
                assert((log + more)[pos] == log[pos]);
            }
        },
        AutomationAction::Conditional { condition, then, otherwise, .. } => {
            match condition_value(condition, case) {
                Ok(true) => {
                    lemma_list_is_settled(
                        then@,
                        0,
                        case,
                        from_phase,
                        Seq::empty(),
                        Seq::empty(),
                        log,
                        more,
                        pos,
                    );
                },
                Ok(false) => match otherwise {
                    Some(actions) => {
                        lemma_list_is_settled(
                            actions@,
                            0,
                            case,
                            from_phase,
                            Seq::empty(),
                            Seq::empty(),
                            log,
                            more,
                            pos,
                        );
                    },
                    None => {},
                },
                Err(_) => {},
            }
        },
        _ => {},
    }
}

/// A list of actions that is finished stays as it is when the log grows.
pub proof fn lemma_list_is_settled(
    actions: Seq<AutomationAction>,
    i: int,
    case: Case,
    from_phase: Option<Seq<char>>,
    responses: Seq<(Seq<char>, JsonView)>,
    mods: Seq<ModificationView>,
    log: Seq<Outcome>,
    more: Seq<Outcome>,
    pos: int,
)
    requires
        0 <= pos <= log.len(),
    ensures
        settled(
            list_run(actions, i, case, from_phase, responses, mods, log, pos),
            list_run(actions, i, case, from_phase, responses, mods, log + more, pos),
            pos,
            log.len() as int,
        ),
    decreases actions, actions.len() - i,
{
    if 0 <= i < actions.len() {
        lemma_action_is_settled(actions[i], case, from_phase, responses, log, more, pos);
        match action_run(actions[i], case, from_phase, responses, log, pos) {
            RunView::Blocked(_) => {},
            RunView::Finished { value: Ok(y), pos: p } => {
                lemma_list_is_settled(
                    actions,
                    i + 1,
                    case,
                    from_phase,
                    kept_responses(responses, actions[i], y.response),
                    mods + y.modifications,
                    log,
                    more,
                    p,
                );
            },
            RunView::Finished { value: Err(_), pos: p } => {
                if actions[i].spec_on_error() == OnError::Continue {
                    lemma_list_is_settled(
                        actions,
                        i + 1,
                        case,
                        from_phase,
                        responses,
                        mods,
                        log,
                        more,
                        p,
                    );
                }
            },
        }
    }
}

/// A run of automations that is finished stays as it is when the log
/// grows: outcomes that come later change neither the modifications nor
/// the error.
pub proof fn lemma_automations_are_settled(
    automations: Seq<PhaseAutomation>,
    k: int,
    case: Case,
    from_phase: Option<Seq<char>>,
    mods: Seq<ModificationView>,
    log: Seq<Outcome>,
    more: Seq<Outcome>,
    pos: int,
)
    requires
        0 <= pos <= log.len(),
    ensures
        settled(
            automations_run(automations, k, case, from_phase, mods, log, pos),
            automations_run(automations, k, case, from_phase, mods, log + more, pos),
            pos,
            log.len() as int,
        ),
    decreases automations.len() - k,
{
    if 0 <= k < automations.len() {
        lemma_list_is_settled(
            automations[k].actions@,
            0,
            case,
            from_phase,
            Seq::empty(),
            Seq::empty(),
            log,
            more,
            pos,
        );
        match list_run(
            automations[k].actions@,
            0,
            case,
            from_phase,
            Seq::empty(),
            Seq::empty(),
            log,
            pos,
        ) {
            RunView::Finished { value: Ok(m), pos: p } => {
                lemma_automations_are_settled(
                    automations,
                    k + 1,
                    case,
                    from_phase,
                    mods + m,
                    log,
                    more,
                    p,
                );
            },
            _ => {},
        }
    }
}

/// Actions that only ask for modifications need no effect: a list of moves
/// and field settings is finished on an empty log.
pub proof fn lemma_modifications_need_no_effects(
    actions: Seq<AutomationAction>,
    i: int,
    case: Case,
    from_phase: Option<Seq<char>>,
    responses: Seq<(Seq<char>, JsonView)>,
    mods: Seq<ModificationView>,
)
    requires
        forall|k: int|
            0 <= k < actions.len() ==> (#[trigger] actions[k] is MoveToPhase || actions[k]
                is SetField),
    ensures
        list_run(actions, i, case, from_phase, responses, mods, Seq::empty(), 0)
            matches RunView::Finished { value: Ok(all), pos } && pos == 0 && all.len() == mods.len()
            + if 0 <= i <= actions.len() {
            actions.len() - i
        } else {
            0
        },
    decreases actions.len() - i,
{
    if 0 <= i < actions.len() {
        let action = actions[i];
        assert(action is MoveToPhase || action is SetField);
        let y = action_run(action, case, from_phase, responses, Seq::empty(), 0);
        assert(y matches RunView::Finished { value: Ok(yielded), pos } && pos == 0
            && yielded.modifications.len() == 1);
        lemma_modifications_need_no_effects(
            actions,
            i + 1,
            case,
            from_phase,
            kept_responses(responses, action, y->Finished_value->Ok_0.response),
            mods + y->Finished_value->Ok_0.modifications,
        );
    }
}

/// A webhook that retries and stops its list on failure is called exactly
/// as often as it has attempts when every attempt fails, and then ends the
/// list with an error: no later action runs and no modification is kept.
pub proof fn lemma_exhausted_webhook_stops_the_list(
    actions: Seq<AutomationAction>,
    i: int,
    case: Case,
    from_phase: Option<Seq<char>>,
    responses: Seq<(Seq<char>, JsonView)>,
    mods: Seq<ModificationView>,
    log: Seq<Outcome>,
    pos: int,
)
    requires
        0 <= i < actions.len(),
        actions[i] matches AutomationAction::Webhook {
            method,
            fields,
            use_response_from,
            retry,
            on_error,
            ..
        } && action_method(method) is Ok && action_body(
            fields,
            use_response_from,
            case,
            from_phase,
            responses,
        ) is Ok && retry.enabled && retry.max_attempts >= 1 && on_error == OnError::Stop,
        attempts_failed(log, pos, actions[i]->Webhook_retry.max_attempts as nat),
    ensures
        list_run(actions, i, case, from_phase, responses, mods, log, pos)
            matches RunView::Finished {
            value: Err(ActionError::ActionFailed { index, .. }),
            pos: end,
        } && index == i as usize && end == pos + 2 * (actions[i]->Webhook_retry.max_attempts - 1)
            + 1,
{
    match actions[i] {
        AutomationAction::Webhook { url, method, headers, fields, use_response_from, retry, .. } => {
            let call = WebhookCallView {
                method: action_method(method),
                url: url@,
                headers: match headers {
                    Some(h) => pair_views(h@),
                    None => Seq::empty(),
                },
                body: action_body(fields, use_response_from, case, from_phase, responses)->Ok_0,
                timeout_ms: WEBHOOK_TIMEOUT_MS,
                retry: retry_budget(retry),
            };
            assert(call.retry->0.max_attempts == retry.max_attempts);
            lemma_call_exhausts_its_budget(call, log, pos, 1);
            assert(action_run(actions[i], case, from_phase, responses, log, pos)
                matches RunView::Finished { value: Err(_), pos: end } && end == pos + 2 * (
            retry.max_attempts - 1) + 1);
        },
        _ => {},
    }
}

} // verus!
