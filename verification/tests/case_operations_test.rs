use orchepy::api::cases::automation_handler::Statement;
use orchepy::api::cases::create::{create_case, created_event, follow_ups};
use orchepy::api::cases::move_case::{move_case, move_case_at, moved_event, CaseMove};
use orchepy::api::cases::query::{list_cases, Page};
use orchepy::json::Json;
use orchepy::models::case::{
    Case, CaseHistory, CaseStatus, CreateCase, ListCasesQuery, MoveCase,
};
use orchepy::models::workflow::Workflow;
use uuid::Uuid;

fn object(members: Vec<(&str, Json)>) -> Json {
    Json::Object(members.into_iter().map(|(k, v)| (k.to_string(), v)).collect())
}

fn setup_test_workflow() -> Workflow {
    let phases = vec![
        "New".to_string(),
        "In Progress".to_string(),
        "Review".to_string(),
        "Done".to_string(),
    ];

    Workflow {
        id: Uuid::new_v4().as_u128(),
        name: "Test Workflow".to_string(),
        phases: phases.clone(),
        initial_phase: "New".to_string(),
        webhook_url: None,
        active: true,
        description: None,
        automations: None,
        sla_config: None,
        created_at: chrono::Utc::now().timestamp_micros(),
        updated_at: chrono::Utc::now().timestamp_micros(),
    }
}

fn create_test_case(workflow_id: u128) -> Case {
    Case::new(
        workflow_id,
        "New".to_string(),
        object(vec![("amount", Json::number("1000"))]),
        Some(object(vec![("source", Json::text("test"))])),
    )
}

fn move_request(to_phase: &str) -> MoveCase {
    MoveCase {
        to_phase: to_phase.to_string(),
        reason: Some("User action".to_string()),
        triggered_by: Some("user@test.com".to_string()),
    }
}

#[test]
fn test_case_creation() {
    let workflow = setup_test_workflow();
    let case = create_test_case(workflow.id);

    assert_eq!(case.workflow_id, workflow.id);
    assert_eq!(case.current_phase, "New");
    assert_eq!(case.previous_phase, None);
    assert_eq!(case.status, CaseStatus::Active);
    assert_eq!(case.completed_at, None);
    assert_eq!(case.created_at, case.updated_at);
    assert_eq!(case.created_at, case.phase_entered_at);
    assert_ne!(create_test_case(workflow.id).id, case.id);
}

#[test]
fn test_case_phase_transition() {
    let workflow = setup_test_workflow();
    let mut case = create_test_case(workflow.id);
    let mut history = Vec::new();

    Statement::UpdatePhase {
        case_id: case.id,
        phase: "In Progress".to_string(),
        previous_phase: "New".to_string(),
    }
    .apply_to(&mut case, &mut history, 5);

    assert_eq!(case.current_phase, "In Progress");
    assert_eq!(case.previous_phase, Some("New".to_string()));
}

#[test]
fn test_case_data_update() {
    let workflow = setup_test_workflow();
    let mut case = create_test_case(workflow.id);

    let new_data = object(vec![("amount", Json::number("2000")), ("updated", Json::Bool(true))]);
    case.update_data(new_data.clone());

    assert_eq!(case.data, new_data);
    assert_eq!(case.data.get("amount"), Some(&Json::number("2000")));
    assert_eq!(case.data.get("updated"), Some(&Json::Bool(true)));
}

#[test]
fn test_jsonb_set_field() {
    let workflow = setup_test_workflow();
    let mut case = create_test_case(workflow.id);
    let mut history = Vec::new();

    Statement::SetDataField {
        case_id: case.id,
        path: vec!["processed".to_string()],
        value: Json::Bool(true),
    }
    .apply_to(&mut case, &mut history, 5);

    assert_eq!(case.data.get("processed"), Some(&Json::Bool(true)));
    assert_eq!(case.data.get("amount"), Some(&Json::number("1000")));
}

#[test]
fn test_case_history_creation() {
    let workflow = setup_test_workflow();
    let mut case = create_test_case(workflow.id);

    let history = CaseHistory::new(
        case.id,
        Some("New".to_string()),
        "In Progress".to_string(),
        Some("User action".to_string()),
        Some("user@test.com".to_string()),
    );

    let mut histories = Vec::new();
    Statement::InsertHistory { history }.apply_to(&mut case, &mut histories, 5);

    assert_eq!(histories.len(), 1);
    assert_eq!(histories[0].to_phase, "In Progress");
    assert_eq!(histories[0].from_phase, Some("New".to_string()));
    assert_eq!(histories[0].reason, Some("User action".to_string()));
    assert_eq!(histories[0].triggered_by, Some("user@test.com".to_string()));
}

#[test]
fn test_phase_entered_at_tracking() {
    let workflow = setup_test_workflow();
    let mut case = create_test_case(workflow.id);
    let initial_entered_at = case.phase_entered_at;

    case.move_to_phase_at("In Progress".to_string(), initial_entered_at + 100);

    assert!(case.phase_entered_at > initial_entered_at);
    assert_eq!(case.current_phase, "In Progress");
    assert_eq!(case.previous_phase, Some("New".to_string()));
}

#[test]
fn test_case_status_transitions() {
    let workflow = setup_test_workflow();
    let mut case = create_test_case(workflow.id);
    assert_eq!(case.status, CaseStatus::Active);

    case.complete();
    assert_eq!(case.status, CaseStatus::Completed);
    assert_eq!(case.completed_at, Some(case.updated_at));

    let mut failed = create_test_case(workflow.id);
    failed.fail();
    assert_eq!(failed.status, CaseStatus::Failed);
    assert!(failed.completed_at.is_some());
    assert_eq!(CaseStatus::Paused.as_str(), "paused");
}

#[test]
fn test_metadata_handling() {
    let workflow = setup_test_workflow();
    let case = create_test_case(workflow.id);

    assert!(case.metadata.is_some());
    let metadata = case.metadata.unwrap();
    assert_eq!(metadata.get("source"), Some(&Json::text("test")));
}

#[test]
fn update_data_merges_top_level_members() {
    let mut case = create_test_case(1);
    case.update_data_at(object(vec![("note", Json::text("hi"))]), 99);
    assert_eq!(
        case.data,
        object(vec![("amount", Json::number("1000")), ("note", Json::text("hi"))])
    );
    assert_eq!(case.updated_at, 99);

    case.update_data_at(Json::text("not an object"), 100);
    assert_eq!(case.data.get("note"), Some(&Json::text("hi")));
    assert_eq!(case.updated_at, 100);

    let mut odd = Case::assemble(1, 0, 1, "New".to_string(), Json::Null, None);
    odd.update_data_at(object(vec![("a", Json::Null)]), 5);
    assert_eq!(odd.data, Json::Null);
}

#[test]
fn creating_a_case_in_an_active_workflow() {
    let workflow = setup_test_workflow();
    let creation = create_case(
        Some(&workflow),
        CreateCase {
            workflow_id: workflow.id,
            data: object(vec![("amount", Json::number("1"))]),
            metadata: Some(Json::text("m")),
            initial_phase: None,
        },
    )
    .unwrap();
    assert_eq!(creation.case.current_phase, "New");
    assert_eq!(creation.case.workflow_id, workflow.id);
    assert_eq!(creation.case.status, CaseStatus::Active);
    assert_eq!(creation.case.metadata, Some(Json::text("m")));
    assert_eq!(creation.history.case_id, creation.case.id);
    assert_eq!(creation.history.from_phase, None);
    assert_eq!(creation.history.to_phase, "New");
    assert_eq!(creation.history.reason, Some("Case created".to_string()));
    assert_eq!(creation.history.triggered_by, Some("system".to_string()));

    let event = created_event(&creation.case);
    assert_eq!(event.event_type, "case.created");
    assert_eq!(event.metadata, Some(Json::text("m")));
    assert_eq!(
        event.data,
        object(vec![
            ("case_id", Json::text(&Uuid::from_u128(creation.case.id).to_string())),
            ("workflow_id", Json::text(&Uuid::from_u128(workflow.id).to_string())),
            ("to_phase", Json::text("New")),
            ("from_phase", Json::Null),
            ("case_data", object(vec![("amount", Json::number("1"))])),
        ])
    );
}

#[test]
fn creating_a_case_in_a_named_phase() {
    let workflow = setup_test_workflow();
    let payload = |phase: &str| CreateCase {
        workflow_id: workflow.id,
        data: Json::Object(vec![]),
        metadata: None,
        initial_phase: Some(phase.to_string()),
    };
    let creation = create_case(Some(&workflow), payload("Review")).unwrap();
    assert_eq!(creation.case.current_phase, "Review");
    assert_eq!(creation.history.to_phase, "Review");

    let error = create_case(Some(&workflow), payload("Nowhere")).unwrap_err();
    assert_eq!(error.status, 400);
    assert_eq!(error.message, "Phase 'Nowhere' not found in workflow");
}

#[test]
fn creating_a_case_without_an_active_workflow_is_not_found() {
    let payload = || CreateCase {
        workflow_id: 1,
        data: Json::Object(vec![]),
        metadata: None,
        initial_phase: None,
    };
    let error = create_case(None, payload()).unwrap_err();
    assert_eq!(error.status, 404);
    assert_eq!(error.message, "Workflow not found or inactive");

    let mut inactive = setup_test_workflow();
    inactive.active = false;
    let error = create_case(Some(&inactive), payload()).unwrap_err();
    assert_eq!(error.status, 404);
}

#[test]
fn moving_a_case() {
    let workflow = setup_test_workflow();
    let case = create_test_case(workflow.id);
    let id = case.id;
    let entered = case.phase_entered_at;
    match move_case_at(Some(case), Some(&workflow), move_request("Review"), entered + 7).unwrap() {
        CaseMove::Moved { case, history, from_phase } => {
            assert_eq!(from_phase, "New");
            assert_eq!(case.id, id);
            assert_eq!(case.current_phase, "Review");
            assert_eq!(case.previous_phase, Some("New".to_string()));
            assert_eq!(case.phase_entered_at, entered + 7);
            assert_eq!(case.updated_at, entered + 7);
            assert_eq!(history.case_id, id);
            assert_eq!(history.from_phase, Some("New".to_string()));
            assert_eq!(history.to_phase, "Review");
            assert_eq!(history.reason, Some("User action".to_string()));
            assert_eq!(history.triggered_by, Some("user@test.com".to_string()));

            let event = moved_event(&case, &from_phase);
            assert_eq!(event.event_type, "case.moved");
            assert_eq!(event.data.get("from_phase"), Some(&Json::text("New")));
            assert_eq!(event.data.get("to_phase"), Some(&Json::text("Review")));
        }
        other => panic!("unexpected {:?}", other),
    }
}

#[test]
fn moving_a_case_to_its_own_phase_changes_nothing() {
    let workflow = setup_test_workflow();
    let case = create_test_case(workflow.id);
    let before = case.clone();
    match move_case(Some(case), Some(&workflow), move_request("New")).unwrap() {
        CaseMove::AlreadyThere { case } => {
            assert_eq!(case.updated_at, before.updated_at);
            assert_eq!(case.previous_phase, before.previous_phase);
            assert_eq!(case.phase_entered_at, before.phase_entered_at);
            assert_eq!(case.current_phase, "New");
            assert_eq!(case.data, before.data);
        }
        other => panic!("unexpected {:?}", other),
    }
}

#[test]
fn moves_that_are_refused() {
    let workflow = setup_test_workflow();
    let error = move_case(None, Some(&workflow), move_request("Review")).unwrap_err();
    assert_eq!((error.status, error.message.as_str()), (404, "Case not found"));

    let error = move_case(Some(create_test_case(1)), None, move_request("Review")).unwrap_err();
    assert_eq!((error.status, error.message.as_str()), (404, "Workflow not found"));

    let error =
        move_case(Some(create_test_case(1)), Some(&workflow), move_request("Nowhere")).unwrap_err();
    assert_eq!(
        (error.status, error.message.as_str()),
        (400, "Phase 'Nowhere' not found in workflow")
    );
}

#[test]
fn what_follows_a_change_to_a_case() {
    let mut workflow = setup_test_workflow();
    let case = create_test_case(workflow.id);

    let after = follow_ups("case.moved", &workflow, &case, Some("Draft"), None);
    assert_eq!(after.event.event_type, "case.moved");
    assert_eq!(after.event.data.get("from_phase"), Some(&Json::text("Draft")));
    assert_eq!(after.event.data.get("to_phase"), Some(&Json::text("New")));
    assert!(after.webhook.is_none());

    workflow.webhook_url = Some("https://backend.com/webhook".to_string());
    let after = follow_ups("case.created", &workflow, &case, None, None);
    let webhook = after.webhook.unwrap();
    assert_eq!(webhook.url, "https://backend.com/webhook");
    assert_eq!(webhook.max_attempts, 3);
    assert_eq!(after.event.data.get("from_phase"), Some(&Json::Null));

    assert!(follow_ups("case.created", &workflow, &case, None, Some("true")).webhook.is_some());
    assert!(follow_ups("case.created", &workflow, &case, None, Some("false")).webhook.is_none());
}

#[test]
fn pages_of_listings() {
    let query = |limit: Option<i64>, offset: Option<i64>| ListCasesQuery {
        workflow_id: None,
        current_phase: None,
        status: None,
        limit,
        offset,
    };
    assert_eq!(list_cases(&query(None, None)), Page { limit: 50, offset: 0 });
    assert_eq!(list_cases(&query(Some(10), Some(30))), Page { limit: 10, offset: 30 });
    assert_eq!(list_cases(&query(Some(100), None)), Page { limit: 100, offset: 0 });
    assert_eq!(list_cases(&query(Some(101), None)), Page { limit: 100, offset: 0 });
    assert_eq!(list_cases(&query(Some(-5), Some(-1))), Page { limit: -5, offset: -1 });
}
