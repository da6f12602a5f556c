use orchepy::engine::automation_executor::AutomationProgress;
use orchepy::engine::http::{ActionError, Effect, Outcome};
use orchepy::engine::AutomationExecutor;
use orchepy::json::Json;
use orchepy::models::automation::{
    AutomationAction, AutomationResult, AutomationTrigger, CaseModification, Condition,
    LogicalOperator, PhaseAutomation, SimpleCondition,
};
use orchepy::models::case::Case;
use uuid::Uuid;

/// Runs the automations to their end, performing every sleep they ask for
/// by logging it; the total of the sleeps asked for is returned as well.
fn run_automations_timed(
    executor: &AutomationExecutor,
    automations: &[&PhaseAutomation],
    case: &Case,
    from_phase: Option<&str>,
) -> (Result<AutomationResult, ActionError>, u64) {
    let mut log: Vec<Outcome> = Vec::new();
    let mut slept_ms: u64 = 0;
    loop {
        match executor.execute_automations(automations, case, from_phase, &log) {
            AutomationProgress::Finished(result) => return (result, slept_ms),
            AutomationProgress::Pending(Effect::Sleep { duration_ms }) => {
                slept_ms += duration_ms;
                log.push(Outcome::Slept { at: 0 });
            }
            AutomationProgress::Pending(Effect::Http(request)) => {
                panic!("unexpected request to {}", request.url)
            }
        }
    }
}

fn run_automations_result(
    executor: &AutomationExecutor,
    automations: &[&PhaseAutomation],
    case: &Case,
    from_phase: Option<&str>,
) -> Result<AutomationResult, ActionError> {
    run_automations_timed(executor, automations, case, from_phase).0
}

fn run_automations(
    executor: &AutomationExecutor,
    automations: &[&PhaseAutomation],
    case: &Case,
    from_phase: Option<&str>,
) -> AutomationResult {
    run_automations_result(executor, automations, case, from_phase).unwrap()
}

#[test]
fn automation_executor_test_test_move_to_phase_action() {
    let executor = AutomationExecutor::new();

    let automation = PhaseAutomation {
        trigger: AutomationTrigger::OnEnter,
        phase: "Review".to_string(),
        actions: vec![AutomationAction::MoveToPhase {
            name: Some("Auto approve".to_string()),
            phase: "Approved".to_string(),
        }],
    };

    let case = Case::new(
        Uuid::new_v4().as_u128(),
        "Review".to_string(),
        Json::Object(vec![("amount".to_string(), Json::number("5000"))]),
        None,
    );

    let result = run_automations(&executor, &[&automation], &case, None);

    assert_eq!(result.modifications.len(), 1);
    match &result.modifications[0] {
        CaseModification::MoveToPhase { phase } => {
            assert_eq!(phase, "Approved");
        }
        _ => panic!("Expected MoveToPhase modification"),
    }
}

#[test]
fn automation_executor_test_test_set_field_action() {
    let executor = AutomationExecutor::new();

    let automation = PhaseAutomation {
        trigger: AutomationTrigger::OnEnter,
        phase: "Processing".to_string(),
        actions: vec![AutomationAction::SetField {
            name: Some("Set processed flag".to_string()),
            field: "data.processed".to_string(),
            value: Json::Bool(true),
        }],
    };

    let case = Case::new(
        Uuid::new_v4().as_u128(),
        "Processing".to_string(),
        Json::Object(vec![("amount".to_string(), Json::number("1000"))]),
        None,
    );

    let result = run_automations(&executor, &[&automation], &case, None);

    assert_eq!(result.modifications.len(), 1);
    match &result.modifications[0] {
        CaseModification::SetField { field, value } => {
            assert_eq!(field, "data.processed");
            assert_eq!(value, &Json::Bool(true));
        }
        _ => panic!("Expected SetField modification"),
    }
}

#[test]
fn test_conditional_simple_true() {
    let executor = AutomationExecutor::new();

    let automation = PhaseAutomation {
        trigger: AutomationTrigger::OnEnter,
        phase: "Review".to_string(),
        actions: vec![AutomationAction::Conditional {
            name: Some("Check amount".to_string()),
            condition: Condition::Simple {
                field: "data.amount".to_string(),
                operator: ">".to_string(),
                value: Json::number("1000"),
            },
            then: vec![AutomationAction::MoveToPhase {
                name: None,
                phase: "Manager Review".to_string(),
            }],
            otherwise: None,
        }],
    };

    let case = Case::new(
        Uuid::new_v4().as_u128(),
        "Review".to_string(),
        Json::Object(vec![("amount".to_string(), Json::number("5000"))]),
        None,
    );

    let result = run_automations(&executor, &[&automation], &case, None);

    assert_eq!(result.modifications.len(), 1);
    match &result.modifications[0] {
        CaseModification::MoveToPhase { phase } => {
            assert_eq!(phase, "Manager Review");
        }
        _ => panic!("Expected MoveToPhase modification"),
    }
}

#[test]
fn test_conditional_simple_false() {
    let executor = AutomationExecutor::new();

    let automation = PhaseAutomation {
        trigger: AutomationTrigger::OnEnter,
        phase: "Review".to_string(),
        actions: vec![AutomationAction::Conditional {
            name: Some("Check amount".to_string()),
            condition: Condition::Simple {
                field: "data.amount".to_string(),
                operator: ">".to_string(),
                value: Json::number("10000"),
            },
            then: vec![AutomationAction::MoveToPhase {
                name: None,
                phase: "Manager Review".to_string(),
            }],
            otherwise: Some(vec![AutomationAction::MoveToPhase {
                name: None,
                phase: "Auto Approved".to_string(),
            }]),
        }],
    };

    let case = Case::new(
        Uuid::new_v4().as_u128(),
        "Review".to_string(),
        Json::Object(vec![("amount".to_string(), Json::number("500"))]),
        None,
    );

    let result = run_automations(&executor, &[&automation], &case, None);

    assert_eq!(result.modifications.len(), 1);
    match &result.modifications[0] {
        CaseModification::MoveToPhase { phase } => {
            assert_eq!(phase, "Auto Approved");
        }
        _ => panic!("Expected MoveToPhase modification"),
    }
}

#[test]
fn test_conditional_complex_and_true() {
    let executor = AutomationExecutor::new();

    let automation = PhaseAutomation {
        trigger: AutomationTrigger::OnEnter,
        phase: "Review".to_string(),
        actions: vec![AutomationAction::Conditional {
            name: Some("Complex check".to_string()),
            condition: Condition::Complex {
                operator: LogicalOperator::And,
                conditions: vec![
                    SimpleCondition {
                        field: "data.amount".to_string(),
                        operator: ">".to_string(),
                        value: Json::number("1000"),
                    },
                    SimpleCondition {
                        field: "status".to_string(),
                        operator: "==".to_string(),
                        value: Json::text("active"),
                    },
                ],
            },
            then: vec![AutomationAction::SetField {
                name: None,
                field: "data.priority".to_string(),
                value: Json::text("high"),
            }],
            otherwise: None,
        }],
    };

    let case = Case::new(
        Uuid::new_v4().as_u128(),
        "Review".to_string(),
        Json::Object(vec![("amount".to_string(), Json::number("5000"))]),
        None,
    );

    let result = run_automations(&executor, &[&automation], &case, None);

    assert_eq!(result.modifications.len(), 1);
    match &result.modifications[0] {
        CaseModification::SetField { field, value } => {
            assert_eq!(field, "data.priority");
            assert_eq!(value, &Json::text("high"));
        }
        _ => panic!("Expected SetField modification"),
    }
}

#[test]
fn test_conditional_complex_and_false() {
    let executor = AutomationExecutor::new();

    let automation = PhaseAutomation {
        trigger: AutomationTrigger::OnEnter,
        phase: "Review".to_string(),
        actions: vec![AutomationAction::Conditional {
            name: Some("Complex check".to_string()),
            condition: Condition::Complex {
                operator: LogicalOperator::And,
                conditions: vec![
                    SimpleCondition {
                        field: "data.amount".to_string(),
                        operator: ">".to_string(),
                        value: Json::number("1000"),
                    },
                    SimpleCondition {
                        field: "status".to_string(),
                        operator: "==".to_string(),
                        value: Json::text("completed"),
                    },
                ],
            },
            then: vec![AutomationAction::SetField {
                name: None,
                field: "data.priority".to_string(),
                value: Json::text("high"),
            }],
            otherwise: None,
        }],
    };

    let case = Case::new(
        Uuid::new_v4().as_u128(),
        "Review".to_string(),
        Json::Object(vec![("amount".to_string(), Json::number("5000"))]),
        None,
    );

    let result = run_automations(&executor, &[&automation], &case, None);

    assert_eq!(result.modifications.len(), 0);
}

#[test]
fn test_conditional_complex_or_true() {
    let executor = AutomationExecutor::new();

    let automation = PhaseAutomation {
        trigger: AutomationTrigger::OnEnter,
        phase: "Review".to_string(),
        actions: vec![AutomationAction::Conditional {
            name: Some("OR check".to_string()),
            condition: Condition::Complex {
                operator: LogicalOperator::Or,
                conditions: vec![
                    SimpleCondition {
                        field: "data.amount".to_string(),
                        operator: ">".to_string(),
                        value: Json::number("50000"),
                    },
                    SimpleCondition {
                        field: "data.vip".to_string(),
                        operator: "==".to_string(),
                        value: Json::Bool(true),
                    },
                ],
            },
            then: vec![AutomationAction::MoveToPhase {
                name: None,
                phase: "VIP Review".to_string(),
            }],
            otherwise: None,
        }],
    };

    let case = Case::new(
        Uuid::new_v4().as_u128(),
        "Review".to_string(),
        Json::Object(vec![("amount".to_string(), Json::number("100")), ("vip".to_string(), Json::Bool(true))]),
        None,
    );

    let result = run_automations(&executor, &[&automation], &case, None);

    assert_eq!(result.modifications.len(), 1);
    match &result.modifications[0] {
        CaseModification::MoveToPhase { phase } => {
            assert_eq!(phase, "VIP Review");
        }
        _ => panic!("Expected MoveToPhase modification"),
    }
}

#[test]
fn test_delay_action() {
    let executor = AutomationExecutor::new();

    let automation = PhaseAutomation {
        trigger: AutomationTrigger::OnEnter,
        phase: "Processing".to_string(),
        actions: vec![AutomationAction::Delay {
            name: Some("Wait briefly".to_string()),
            duration_ms: 10,
        }],
    };

    let case = Case::new(
        Uuid::new_v4().as_u128(),
        "Processing".to_string(),
        Json::Object(vec![]),
        None,
    );

    let (result, slept_ms) = run_automations_timed(&executor, &[&automation], &case, None);
    let result = result.unwrap();

    assert!(slept_ms >= 10);
    assert_eq!(result.modifications.len(), 0);
}

#[test]
fn test_multiple_actions_sequential() {
    let executor = AutomationExecutor::new();

    let automation = PhaseAutomation {
        trigger: AutomationTrigger::OnEnter,
        phase: "Processing".to_string(),
        actions: vec![
            AutomationAction::SetField {
                name: Some("Set status".to_string()),
                field: "data.status".to_string(),
                value: Json::text("processing"),
            },
            AutomationAction::SetField {
                name: Some("Set timestamp".to_string()),
                field: "data.processed_at".to_string(),
                value: Json::text("2024-01-01"),
            },
            AutomationAction::MoveToPhase {
                name: Some("Move to done".to_string()),
                phase: "Done".to_string(),
            },
        ],
    };

    let case = Case::new(
        Uuid::new_v4().as_u128(),
        "Processing".to_string(),
        Json::Object(vec![]),
        None,
    );

    let result = run_automations(&executor, &[&automation], &case, None);

    assert_eq!(result.modifications.len(), 3);
}

#[test]
fn automation_executor_test_test_contains_operator() {
    let executor = AutomationExecutor::new();

    let automation = PhaseAutomation {
        trigger: AutomationTrigger::OnEnter,
        phase: "Review".to_string(),
        actions: vec![AutomationAction::Conditional {
            name: Some("Check email".to_string()),
            condition: Condition::Simple {
                field: "data.email".to_string(),
                operator: "contains".to_string(),
                value: Json::text("@company.com"),
            },
            then: vec![AutomationAction::SetField {
                name: None,
                field: "data.is_internal".to_string(),
                value: Json::Bool(true),
            }],
            otherwise: None,
        }],
    };

    let case = Case::new(
        Uuid::new_v4().as_u128(),
        "Review".to_string(),
        Json::Object(vec![("email".to_string(), Json::text("user@company.com"))]),
        None,
    );

    let result = run_automations(&executor, &[&automation], &case, None);

    assert_eq!(result.modifications.len(), 1);
}

#[test]
fn test_equals_operator_with_equal_sign() {
    let executor = AutomationExecutor::new();

    let automation = PhaseAutomation {
        trigger: AutomationTrigger::OnEnter,
        phase: "Review".to_string(),
        actions: vec![AutomationAction::Conditional {
            name: Some("Check type".to_string()),
            condition: Condition::Simple {
                field: "data.type".to_string(),
                operator: "=".to_string(),
                value: Json::text("urgent"),
            },
            then: vec![AutomationAction::SetField {
                name: None,
                field: "data.priority".to_string(),
                value: Json::text("high"),
            }],
            otherwise: None,
        }],
    };

    let case = Case::new(
        Uuid::new_v4().as_u128(),
        "Review".to_string(),
        Json::Object(vec![("type".to_string(), Json::text("urgent"))]),
        None,
    );

    let result = run_automations(&executor, &[&automation], &case, None);

    assert_eq!(result.modifications.len(), 1);
}

#[test]
fn test_not_equals_operator() {
    let executor = AutomationExecutor::new();

    let automation = PhaseAutomation {
        trigger: AutomationTrigger::OnEnter,
        phase: "Review".to_string(),
        actions: vec![AutomationAction::Conditional {
            name: Some("Check status".to_string()),
            condition: Condition::Simple {
                field: "status".to_string(),
                operator: "!=".to_string(),
                value: Json::text("active"),
            },
            then: vec![AutomationAction::MoveToPhase {
                name: None,
                phase: "Archived".to_string(),
            }],
            otherwise: None,
        }],
    };

    let case = Case::new(
        Uuid::new_v4().as_u128(),
        "Review".to_string(),
        Json::Object(vec![]),
        None,
    );

    let result = run_automations(&executor, &[&automation], &case, None);

    assert_eq!(result.modifications.len(), 0);
}

#[test]
fn test_comparison_operators() {
    let executor = AutomationExecutor::new();
    let case = Case::new(
        Uuid::new_v4().as_u128(),
        "Review".to_string(),
        Json::Object(vec![("score".to_string(), Json::number("75"))]),
        None,
    );

    let automation_gte = PhaseAutomation {
        trigger: AutomationTrigger::OnEnter,
        phase: "Review".to_string(),
        actions: vec![AutomationAction::Conditional {
            name: None,
            condition: Condition::Simple {
                field: "data.score".to_string(),
                operator: ">=".to_string(),
                value: Json::number("70"),
            },
            then: vec![AutomationAction::SetField {
                name: None,
                field: "data.pass".to_string(),
                value: Json::Bool(true),
            }],
            otherwise: None,
        }],
    };

    let result = run_automations(&executor, &[&automation_gte], &case, None);
    assert_eq!(result.modifications.len(), 1);

    let automation_lte = PhaseAutomation {
        trigger: AutomationTrigger::OnEnter,
        phase: "Review".to_string(),
        actions: vec![AutomationAction::Conditional {
            name: None,
            condition: Condition::Simple {
                field: "data.score".to_string(),
                operator: "<=".to_string(),
                value: Json::number("80"),
            },
            then: vec![AutomationAction::SetField {
                name: None,
                field: "data.in_range".to_string(),
                value: Json::Bool(true),
            }],
            otherwise: None,
        }],
    };

    let result = run_automations(&executor, &[&automation_lte], &case, None);
    assert_eq!(result.modifications.len(), 1);
}
