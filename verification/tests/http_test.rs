use orchepy::engine::automation_executor::{
    build_webhook_body, execute_action, project, AutomationProgress,
};
use orchepy::engine::http::{
    interpret_reply, method_named, parse_method, read_clock, ActionError, Effect, HttpMethod,
    HttpReply, HttpRequest, Outcome, Run, WebhookCall,
};
use orchepy::engine::AutomationExecutor;
use orchepy::json::Json;
use orchepy::models::automation::{
    AutomationAction, AutomationTrigger, OnError, PhaseAutomation, RetryConfig,
};
use orchepy::models::case::Case;
use orchepy::models::step::BackoffStrategy;

fn object(members: Vec<(&str, Json)>) -> Json {
    Json::Object(members.into_iter().map(|(k, v)| (k.to_string(), v)).collect())
}

fn sample_case() -> Case {
    Case::assemble(
        0x0123_4567_89ab_cdef_0123_4567_89ab_cdef,
        1_704_067_200_000_000,
        0xffff_ffff_ffff_ffff_ffff_ffff_ffff_ffff,
        "Review".to_string(),
        object(vec![("amount", Json::number("500"))]),
        Some(object(vec![("source", Json::text("test"))])),
    )
}

fn ok(body: Json) -> Outcome {
    Outcome::Http { reply: HttpReply::Response { status: 200, body: "".to_string(), json: Some(body) }, at: 0 }
}

fn status(code: u16, body: &str) -> Outcome {
    Outcome::Http { reply: HttpReply::Response { status: code, body: body.to_string(), json: None }, at: 0 }
}

fn webhook(id: Option<&str>, url: &str) -> AutomationAction {
    AutomationAction::Webhook {
        id: id.map(|s| s.to_string()),
        name: None,
        url: url.to_string(),
        method: None,
        headers: None,
        fields: None,
        use_response_from: None,
        retry: RetryConfig::default(),
        on_error: OnError::Stop,
    }
}

fn requests_of(actions: Vec<AutomationAction>, replies: Vec<Outcome>) -> (Vec<HttpRequest>, AutomationProgress) {
    let automation = PhaseAutomation {
        trigger: AutomationTrigger::OnEnter,
        phase: "Review".to_string(),
        actions,
    };
    let executor = AutomationExecutor::new();
    let case = sample_case();
    let mut log: Vec<Outcome> = Vec::new();
    let mut requests = Vec::new();
    let mut replies = replies.into_iter();
    loop {
        match executor.execute_automations(&[&automation], &case, Some("Intake"), &log) {
            AutomationProgress::Pending(Effect::Http(request)) => {
                requests.push(request);
                match replies.next() {
                    Some(reply) => log.push(reply),
                    None => {
                        return (
                            requests,
                            executor.execute_automations(&[&automation], &case, Some("Intake"), &log),
                        )
                    }
                }
            }
            AutomationProgress::Pending(Effect::Sleep { .. }) => log.push(Outcome::Slept { at: 0 }),
            finished => return (requests, finished),
        }
    }
}

#[test]
fn methods_are_read_in_any_case() {
    assert_eq!(parse_method("GET"), Some(HttpMethod::Get));
    assert_eq!(parse_method("post"), Some(HttpMethod::Post));
    assert_eq!(parse_method("Put"), Some(HttpMethod::Put));
    assert_eq!(parse_method("delete"), Some(HttpMethod::Delete));
    assert_eq!(parse_method("pAtCh"), Some(HttpMethod::Patch));
    assert_eq!(parse_method("HEAD"), None);
    assert_eq!(parse_method(""), None);
    assert_eq!(parse_method(" GET"), None);
    assert_eq!(method_named("GET"), Some(HttpMethod::Get));
    assert_eq!(method_named("get"), None);
    assert_eq!(method_named("PATCH"), Some(HttpMethod::Patch));
    assert_eq!(HttpMethod::Patch.as_str(), "PATCH");
    assert!(HttpMethod::Post.has_body());
    assert!(HttpMethod::Put.has_body());
    assert!(HttpMethod::Patch.has_body());
    assert!(!HttpMethod::Get.has_body());
    assert!(!HttpMethod::Delete.has_body());
}

#[test]
fn replies_are_worth_their_json_or_an_error() {
    let parsed = object(vec![("ok", Json::Bool(true))]);
    let reply = HttpReply::Response { status: 201, body: "{\"ok\":true}".to_string(), json: Some(parsed.clone()) };
    assert_eq!(interpret_reply(&reply).unwrap(), parsed);

    let plain = HttpReply::Response { status: 200, body: "done".to_string(), json: None };
    assert_eq!(
        interpret_reply(&plain).unwrap(),
        object(vec![("status", Json::number("200")), ("body", Json::text("done"))])
    );

    for code in [100u16, 199, 300, 404, 500] {
        let reply = HttpReply::Response { status: code, body: "x".to_string(), json: Some(Json::Null) };
        match interpret_reply(&reply) {
            Err(ActionError::HttpStatus { status, body }) => {
                assert_eq!(status, code);
                assert_eq!(body, "x");
            }
            other => panic!("unexpected {:?}", other),
        }
    }
    for code in [200u16, 204, 299] {
        let reply = HttpReply::Response { status: code, body: "".to_string(), json: Some(Json::Null) };
        assert_eq!(interpret_reply(&reply).unwrap(), Json::Null);
    }
    match interpret_reply(&HttpReply::Failed { message: "connection refused".to_string() }) {
        Err(ActionError::Transport { message }) => assert_eq!(message, "connection refused"),
        other => panic!("unexpected {:?}", other),
    }
}

#[test]
fn default_body_holds_the_whole_case() {
    let case = sample_case();
    let body = build_webhook_body(&case, Some("Intake"), None);
    assert_eq!(
        body,
        object(vec![
            ("case_id", Json::text("01234567-89ab-cdef-0123-456789abcdef")),
            ("workflow_id", Json::text("ffffffff-ffff-ffff-ffff-ffffffffffff")),
            ("current_phase", Json::text("Review")),
            ("previous_phase", Json::text("Intake")),
            ("data", object(vec![("amount", Json::number("500"))])),
            ("metadata", object(vec![("source", Json::text("test"))])),
            ("status", Json::text("active")),
            ("created_at", Json::text("2024-01-01T00:00:00Z")),
            ("updated_at", Json::text("2024-01-01T00:00:00Z")),
        ])
    );
}

#[test]
fn identifiers_and_instants_are_rendered_as_their_types_render_them() {
    let case = sample_case();
    let id = uuid::Uuid::from_u128(case.id).to_string();
    assert_eq!(project(&case, None, "id"), Some(("case_id".to_string(), Json::text(&id))));
    let early = Case::assemble(0, 1_500_000, 0, "A".to_string(), Json::Null, None);
    assert_eq!(
        project(&early, None, "created_at"),
        Some(("created_at".to_string(), Json::text("1970-01-01T00:00:01.500Z")))
    );
    assert_eq!(
        project(&early, None, "case_id"),
        Some(("case_id".to_string(), Json::text("00000000-0000-0000-0000-000000000000")))
    );
    let unrepresentable = Case::assemble(0, i64::MAX, 0, "A".to_string(), Json::Null, None);
    assert_eq!(
        project(&unrepresentable, None, "updated_at"),
        Some(("updated_at".to_string(), Json::Null))
    );
}

#[test]
fn selected_fields_only_and_unknown_names_are_skipped() {
    let case = sample_case();
    let fields = vec![
        "status".to_string(),
        "nonsense".to_string(),
        "id".to_string(),
        "previous_phase".to_string(),
        "case_id".to_string(),
    ];
    let body = build_webhook_body(&case, None, Some(&fields));
    assert_eq!(
        body,
        object(vec![
            ("status", Json::text("active")),
            ("case_id", Json::text("01234567-89ab-cdef-0123-456789abcdef")),
            ("previous_phase", Json::Null),
        ])
    );
    assert_eq!(build_webhook_body(&case, None, Some(&vec![])), Json::Object(vec![]));
    assert_eq!(project(&case, None, "nonsense"), None);
    let bare = Case::assemble(1, 0, 2, "A".to_string(), Json::Null, None);
    assert_eq!(project(&bare, None, "metadata"), Some(("metadata".to_string(), Json::Null)));
}

#[test]
fn webhook_requests_default_to_post_with_thirty_seconds() {
    let (requests, progress) = requests_of(vec![webhook(None, "https://x/hook")], vec![ok(Json::Null)]);
    assert_eq!(requests.len(), 1);
    assert_eq!(requests[0].method, HttpMethod::Post);
    assert_eq!(requests[0].url, "https://x/hook");
    assert_eq!(requests[0].timeout_ms, 30_000);
    assert!(requests[0].headers.is_empty());
    assert_eq!(requests[0].body, Some(build_webhook_body(&sample_case(), Some("Intake"), None)));
    match progress {
        AutomationProgress::Finished(Ok(result)) => assert!(result.modifications.is_empty()),
        other => panic!("unexpected {:?}", other),
    }
}

#[test]
fn get_and_delete_send_no_body_and_headers_go_verbatim() {
    for (method, expected) in [("get", HttpMethod::Get), ("DELETE", HttpMethod::Delete)] {
        let action = AutomationAction::Webhook {
            id: None,
            name: None,
            url: "https://x/hook".to_string(),
            method: Some(method.to_string()),
            headers: Some(vec![("Authorization".to_string(), "Bearer xxx".to_string())]),
            fields: Some(vec!["data".to_string()]),
            use_response_from: None,
            retry: RetryConfig::default(),
            on_error: OnError::Stop,
        };
        let (requests, _) = requests_of(vec![action], vec![ok(Json::Null)]);
        assert_eq!(requests[0].method, expected);
        assert_eq!(requests[0].body, None);
        assert_eq!(requests[0].headers, vec![("Authorization".to_string(), "Bearer xxx".to_string())]);
    }
}

#[test]
fn a_later_webhook_can_send_an_earlier_response() {
    let first = webhook(Some("ocr_result"), "https://ocr/process");
    let mut second = webhook(None, "https://sap/post");
    if let AutomationAction::Webhook { use_response_from, .. } = &mut second {
        *use_response_from = Some("ocr_result".to_string());
    }
    let response = object(vec![("text", Json::text("invoice 42"))]);
    let (requests, progress) =
        requests_of(vec![first, second], vec![ok(response.clone()), ok(Json::Null)]);
    assert_eq!(requests.len(), 2);
    assert_eq!(requests[1].url, "https://sap/post");
    assert_eq!(requests[1].body, Some(response));
    assert!(matches!(progress, AutomationProgress::Finished(Ok(_))));
}

#[test]
fn a_missing_response_is_an_error_of_the_action() {
    let mut action = webhook(None, "https://sap/post");
    if let AutomationAction::Webhook { use_response_from, .. } = &mut action {
        *use_response_from = Some("never".to_string());
    }
    let (requests, progress) = requests_of(vec![action], vec![]);
    assert!(requests.is_empty());
    match progress {
        AutomationProgress::Finished(Err(ActionError::ActionFailed { cause, index, .. })) => {
            assert_eq!(index, 0);
            assert!(matches!(*cause, ActionError::ResponseNotFound { .. }));
        }
        other => panic!("unexpected {:?}", other),
    }
}

#[test]
fn responses_are_not_seen_inside_a_conditional_branch() {
    let first = webhook(Some("ocr_result"), "https://ocr/process");
    let mut inner = webhook(None, "https://sap/post");
    if let AutomationAction::Webhook { use_response_from, on_error, .. } = &mut inner {
        *use_response_from = Some("ocr_result".to_string());
        *on_error = OnError::Stop;
    }
    let conditional = AutomationAction::Conditional {
        name: None,
        condition: orchepy::models::automation::Condition::Simple {
            field: "status".to_string(),
            operator: "==".to_string(),
            value: Json::text("active"),
        },
        then: vec![
            AutomationAction::MoveToPhase { name: None, phase: "Lost".to_string() },
            inner,
        ],
        otherwise: None,
    };
    let after = AutomationAction::MoveToPhase { name: None, phase: "Kept".to_string() };
    let (requests, progress) = requests_of(vec![first, conditional, after], vec![ok(Json::Null)]);
    assert_eq!(requests.len(), 1);
    match progress {
        AutomationProgress::Finished(Ok(result)) => {
            assert_eq!(result.modifications.len(), 1);
            match &result.modifications[0] {
                orchepy::models::automation::CaseModification::MoveToPhase { phase } => {
                    assert_eq!(phase, "Kept")
                }
                other => panic!("unexpected {:?}", other),
            }
        }
        other => panic!("unexpected {:?}", other),
    }
}

#[test]
fn a_failed_webhook_that_continues_lets_the_list_go_on() {
    let mut failing = webhook(Some("a"), "https://x/fail");
    if let AutomationAction::Webhook { on_error, .. } = &mut failing {
        *on_error = OnError::Continue;
    }
    let after = AutomationAction::SetField {
        name: None,
        field: "data.done".to_string(),
        value: Json::Bool(true),
    };
    let (requests, progress) = requests_of(vec![failing, after], vec![status(502, "bad gateway")]);
    assert_eq!(requests.len(), 1);
    match progress {
        AutomationProgress::Finished(Ok(result)) => assert_eq!(result.modifications.len(), 1),
        other => panic!("unexpected {:?}", other),
    }
}

#[test]
fn an_unsupported_method_fails_without_a_request() {
    let mut action = webhook(None, "https://x/hook");
    if let AutomationAction::Webhook { method, .. } = &mut action {
        *method = Some("FETCH".to_string());
    }
    let (requests, progress) = requests_of(vec![action], vec![]);
    assert!(requests.is_empty());
    match progress {
        AutomationProgress::Finished(Err(error)) => {
            assert_eq!(error.message(), "Action 'action_0' failed: Unsupported HTTP method: FETCH")
        }
        other => panic!("unexpected {:?}", other),
    }
}

#[test]
fn a_call_retries_with_the_delays_of_its_budget() {
    let call = WebhookCall {
        method: Ok(HttpMethod::Post),
        url: "https://x/hook".to_string(),
        headers: vec![],
        body: Json::Null,
        timeout_ms: 1_000,
        retry: Some(orchepy::models::step::RetryConfig {
            max_attempts: 3,
            backoff: BackoffStrategy::Exponential,
            initial_delay_ms: 100,
        }),
    };
    let mut log: Vec<Outcome> = Vec::new();
    let mut effects = Vec::new();
    let finished = loop {
        match call.perform(&log, 0) {
            Run::Blocked(Effect::Http(request)) => {
                effects.push(format!("{} {}", request.method.as_str(), request.url));
                log.push(status(500, "no"));
            }
            Run::Blocked(Effect::Sleep { duration_ms }) => {
                effects.push(format!("sleep {}", duration_ms));
                log.push(Outcome::Slept { at: 0 });
            }
            Run::Finished { value, pos } => break (value, pos),
        }
    };
    assert_eq!(
        effects,
        vec![
            "POST https://x/hook",
            "sleep 100",
            "POST https://x/hook",
            "sleep 200",
            "POST https://x/hook",
        ]
    );
    assert!(matches!(finished.0, Err(ActionError::HttpStatus { status: 500, .. })));
    assert_eq!(finished.1, 5);
}

#[test]
fn a_call_without_a_budget_is_made_once_and_success_ends_it() {
    let call = WebhookCall {
        method: Ok(HttpMethod::Get),
        url: "https://x/hook".to_string(),
        headers: vec![],
        body: Json::text("ignored"),
        timeout_ms: 1_000,
        retry: None,
    };
    let log = vec![status(500, "no")];
    assert!(matches!(call.perform(&log, 0), Run::Finished { value: Err(_), pos: 1 }));
    let log = vec![ok(Json::Bool(true))];
    match call.perform(&log, 0) {
        Run::Finished { value: Ok(value), pos } => {
            assert_eq!(value, Json::Bool(true));
            assert_eq!(pos, 1);
        }
        other => panic!("unexpected {:?}", other),
    }
    match call.perform(&[], 0) {
        Run::Blocked(Effect::Http(request)) => assert_eq!(request.body, None),
        other => panic!("unexpected {:?}", other),
    }
}

#[test]
fn an_outcome_of_the_wrong_kind_is_an_error() {
    let call = WebhookCall {
        method: Ok(HttpMethod::Get),
        url: "https://x/hook".to_string(),
        headers: vec![],
        body: Json::Null,
        timeout_ms: 1_000,
        retry: None,
    };
    let log = vec![Outcome::Slept { at: 0 }];
    assert!(matches!(
        call.perform(&log, 0),
        Run::Finished { value: Err(ActionError::UnexpectedOutcome), pos: 1 }
    ));
    let delay = AutomationAction::Delay { name: None, duration_ms: 5 };
    let log = vec![ok(Json::Null)];
    assert!(matches!(
        execute_action(&delay, &sample_case(), None, &vec![], &log, 0),
        Run::Finished { value: Err(ActionError::UnexpectedOutcome), pos: 1 }
    ));
}

#[test]
fn the_clock_is_the_instant_of_the_latest_outcome() {
    let log = vec![
        Outcome::Slept { at: 11 },
        Outcome::Http { reply: HttpReply::Failed { message: "x".to_string() }, at: 22 },
    ];
    assert_eq!(read_clock(&log, 0, 5), 5);
    assert_eq!(read_clock(&log, 1, 5), 11);
    assert_eq!(read_clock(&log, 2, 5), 22);
    assert_eq!(read_clock(&log, 3, 5), 5);
}
