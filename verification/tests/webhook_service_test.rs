use orchepy::engine::http::{Effect, HttpMethod, HttpReply, Outcome};
use orchepy::json::Json;
use orchepy::models::case::Case;
use orchepy::services::webhook::{
    webhook_enabled, CaseWebhookData, CaseWebhookPayload, SendProgress,
};
use orchepy::services::WebhookSender;
use uuid::Uuid;

fn object(members: Vec<(&str, Json)>) -> Json {
    Json::Object(members.into_iter().map(|(k, v)| (k.to_string(), v)).collect())
}

fn strings_of(value: &Json, found: &mut Vec<String>) {
    match value {
        Json::String(s) => found.push(s.clone()),
        Json::Array(items) => items.iter().for_each(|item| strings_of(item, found)),
        Json::Object(members) => members.iter().for_each(|(key, item)| {
            found.push(key.clone());
            strings_of(item, found)
        }),
        _ => {}
    }
}

#[test]
fn test_webhook_payload_serialization() {
    let payload = CaseWebhookPayload {
        action: "case.moved".to_string(),
        data: CaseWebhookData {
            case_id: Uuid::new_v4().as_u128(),
            workflow_id: Uuid::new_v4().as_u128(),
            from_phase: Some("OCR".to_string()),
            to_phase: "Validation".to_string(),
            case_data: object(vec![("invoice_number", Json::text("123"))]),
            metadata: None,
        },
    };

    let json = payload.to_json();
    let mut strings = Vec::new();
    strings_of(&json, &mut strings);
    assert!(strings.contains(&"case.moved".to_string()));
    assert!(strings.contains(&"Validation".to_string()));
}

#[test]
fn the_payload_is_an_envelope_of_action_and_data() {
    let case_id = Uuid::new_v4();
    let workflow_id = Uuid::new_v4();
    let payload = CaseWebhookPayload {
        action: "case.moved".to_string(),
        data: CaseWebhookData {
            case_id: case_id.as_u128(),
            workflow_id: workflow_id.as_u128(),
            from_phase: None,
            to_phase: "Validation".to_string(),
            case_data: object(vec![("invoice_number", Json::text("123"))]),
            metadata: Some(Json::Bool(true)),
        },
    };
    assert_eq!(
        payload.to_json(),
        object(vec![
            ("action", Json::text("case.moved")),
            (
                "data",
                object(vec![
                    ("case_id", Json::text(&case_id.to_string())),
                    ("workflow_id", Json::text(&workflow_id.to_string())),
                    ("from_phase", Json::Null),
                    ("to_phase", Json::text("Validation")),
                    ("case_data", object(vec![("invoice_number", Json::text("123"))])),
                    ("metadata", Json::Bool(true)),
                ])
            ),
        ])
    );
}

fn failing(status: u16) -> Outcome {
    Outcome::Http {
        reply: HttpReply::Response { status, body: "".to_string(), json: None },
        at: 0,
    }
}

fn send(max_retries: u32, replies: Vec<Outcome>) -> (SendProgress, Vec<String>) {
    let sender = WebhookSender::new();
    let case = Case::assemble(1, 0, 2, "Validation".to_string(), Json::Object(vec![]), None);
    let mut log: Vec<Outcome> = Vec::new();
    let mut effects = Vec::new();
    let mut replies = replies.into_iter();
    loop {
        let progress = sender.send_case_moved_with_retry(
            "https://backend.com/webhook",
            &case,
            Some("OCR".to_string()),
            max_retries,
            &log,
        );
        match progress {
            SendProgress::Pending(Effect::Http(request)) => {
                assert_eq!(request.method, HttpMethod::Post);
                assert_eq!(request.timeout_ms, 10_000);
                assert_eq!(
                    request.body.as_ref().unwrap().get("action"),
                    Some(&Json::text("case.moved"))
                );
                assert_eq!(
                    request.body.as_ref().unwrap().get("data").unwrap().get("from_phase"),
                    Some(&Json::text("OCR"))
                );
                effects.push(request.url.clone());
                log.push(replies.next().unwrap());
            }
            SendProgress::Pending(Effect::Sleep { duration_ms }) => {
                effects.push(format!("sleep {}", duration_ms));
                log.push(Outcome::Slept { at: 0 });
            }
            finished => return (finished, effects),
        }
    }
}

#[test]
fn a_case_webhook_is_sent_up_to_three_times_one_and_two_seconds_apart() {
    let (progress, effects) = send(3, vec![failing(500), failing(502), failing(503)]);
    assert_eq!(
        effects,
        vec![
            "https://backend.com/webhook",
            "sleep 1000",
            "https://backend.com/webhook",
            "sleep 2000",
            "https://backend.com/webhook",
        ]
    );
    assert!(matches!(progress, SendProgress::Failed(_)));
}

#[test]
fn a_case_webhook_ends_at_the_first_success() {
    let (progress, effects) = send(3, vec![failing(500), failing(204)]);
    assert_eq!(effects.len(), 3);
    assert!(matches!(progress, SendProgress::Sent));

    let (progress, effects) = send(3, vec![failing(200)]);
    assert_eq!(effects, vec!["https://backend.com/webhook"]);
    assert!(matches!(progress, SendProgress::Sent));
}

#[test]
fn a_single_send_is_not_retried() {
    let sender = WebhookSender::default();
    let case = Case::assemble(1, 0, 2, "Validation".to_string(), Json::Object(vec![]), None);
    let log = vec![failing(500)];
    let progress = sender.send_case_moved("https://backend.com/webhook", &case, None, &log);
    assert!(matches!(progress, SendProgress::Failed(_)));
}

#[test]
fn webhook_settings() {
    assert!(webhook_enabled(None));
    assert!(webhook_enabled(Some("true")));
    assert!(!webhook_enabled(Some("false")));
    assert!(webhook_enabled(Some("FALSE")));
    assert!(webhook_enabled(Some("0")));
    assert!(webhook_enabled(Some("")));
}
