use orchepy::engine::conditions::{
    evaluate_condition, evaluate_simple_condition, get_field_value, judge_order, test_operator,
};
use orchepy::engine::http::ActionError;
use orchepy::json::Json;
use orchepy::models::automation::{Condition, LogicalOperator, SimpleCondition};
use orchepy::models::case::Case;
use orchepy::number::{Comparison, Relation};

fn object(members: Vec<(&str, Json)>) -> Json {
    Json::Object(members.into_iter().map(|(k, v)| (k.to_string(), v)).collect())
}

fn sample_case() -> Case {
    let mut case = Case::assemble(
        1,
        10,
        2,
        "Review".to_string(),
        object(vec![
            ("amount", Json::number("5000")),
            ("email", Json::text("user@company.com")),
            ("customer", object(vec![("tier", Json::text("gold")), ("age", Json::number("41"))])),
            ("vip", Json::Bool(true)),
        ]),
        None,
    );
    case.move_to_phase_at("Approval".to_string(), 20);
    case
}

fn field(path: &str) -> Result<Json, ActionError> {
    get_field_value(&path.to_string(), &sample_case())
}

fn test(path: &str, operator: &str, expected: Json) -> Result<bool, ActionError> {
    evaluate_simple_condition(&path.to_string(), &operator.to_string(), &expected, &sample_case())
}

fn leaf(path: &str, operator: &str, expected: Json) -> SimpleCondition {
    SimpleCondition { field: path.to_string(), operator: operator.to_string(), value: expected }
}

#[test]
fn field_paths_select_roots_and_members() {
    assert_eq!(field("data.amount").unwrap(), Json::number("5000"));
    assert_eq!(field("data.customer.tier").unwrap(), Json::text("gold"));
    assert_eq!(field("data").unwrap(), sample_case().data);
    assert_eq!(field("status").unwrap(), Json::text("active"));
    assert_eq!(field("current_phase").unwrap(), Json::text("Approval"));
    assert_eq!(field("previous_phase").unwrap(), Json::text("Review"));
    assert_eq!(field("status.anything").unwrap(), Json::text("active"));
}

#[test]
fn previous_phase_of_a_new_case_is_null() {
    let case = Case::assemble(1, 10, 2, "Review".to_string(), Json::Object(vec![]), None);
    assert_eq!(get_field_value(&"previous_phase".to_string(), &case).unwrap(), Json::Null);
}

#[test]
fn missing_members_and_unknown_roots_are_errors() {
    match field("data.missing") {
        Err(ActionError::FieldNotFound { field }) => assert_eq!(field, "data.missing"),
        other => panic!("unexpected {:?}", other),
    }
    match field("data.amount.cents") {
        Err(ActionError::FieldNotFound { field }) => assert_eq!(field, "data.amount.cents"),
        other => panic!("unexpected {:?}", other),
    }
    match field("metadata.source") {
        Err(ActionError::UnsupportedFieldPath { field }) => assert_eq!(field, "metadata.source"),
        other => panic!("unexpected {:?}", other),
    }
    assert!(matches!(field(""), Err(ActionError::UnsupportedFieldPath { .. })));
}

#[test]
fn equality_operators() {
    assert_eq!(test("data.amount", "==", Json::number("5000")).unwrap(), true);
    assert_eq!(test("data.amount", "=", Json::number("5000")).unwrap(), true);
    assert_eq!(test("data.amount", "==", Json::number("5000.0")).unwrap(), false);
    assert_eq!(test("data.amount", "!=", Json::number("1")).unwrap(), true);
    assert_eq!(test("data.amount", "!=", Json::number("5000")).unwrap(), false);
    assert_eq!(test("status", "==", Json::text("active")).unwrap(), true);
    assert_eq!(test("data.vip", "==", Json::Bool(true)).unwrap(), true);
    assert_eq!(
        test("data.customer", "==", object(vec![("age", Json::number("41")), ("tier", Json::text("gold"))]))
            .unwrap(),
        true
    );
}

#[test]
fn ordering_operators() {
    assert_eq!(test("data.amount", ">", Json::number("1000")).unwrap(), true);
    assert_eq!(test("data.amount", ">", Json::number("5000")).unwrap(), false);
    assert_eq!(test("data.amount", ">", Json::number("10000")).unwrap(), false);
    assert_eq!(test("data.amount", "<", Json::number("10000")).unwrap(), true);
    assert_eq!(test("data.amount", "<", Json::number("5000")).unwrap(), false);
    assert_eq!(test("data.amount", ">=", Json::number("5000")).unwrap(), true);
    assert_eq!(test("data.amount", ">=", Json::number("5000.5")).unwrap(), false);
    assert_eq!(test("data.amount", "<=", Json::number("5000")).unwrap(), true);
    assert_eq!(test("data.amount", "<=", Json::number("4999")).unwrap(), false);
}

#[test]
fn ordering_needs_numbers_on_both_sides() {
    for operator in [">", "<", ">=", "<="] {
        match test("data.email", operator, Json::number("1")) {
            Err(ActionError::NonNumericComparison { operator: named }) => {
                assert_eq!(named, operator)
            }
            other => panic!("unexpected {:?}", other),
        }
        assert!(matches!(
            test("data.amount", operator, Json::text("1")),
            Err(ActionError::NonNumericComparison { .. })
        ));
    }
}

#[test]
fn contains_operator() {
    assert_eq!(test("data.email", "contains", Json::text("@company.com")).unwrap(), true);
    assert_eq!(test("data.email", "contains", Json::text("@other.com")).unwrap(), false);
    assert!(matches!(
        test("data.amount", "contains", Json::text("5")),
        Err(ActionError::ContainsActualNotString)
    ));
    assert!(matches!(
        test("data.email", "contains", Json::number("5")),
        Err(ActionError::ContainsExpectedNotString)
    ));
    assert!(matches!(
        test("data.amount", "contains", Json::number("5")),
        Err(ActionError::ContainsActualNotString)
    ));
}

#[test]
fn unknown_operators_are_errors() {
    match test("data.amount", "~=", Json::number("1")) {
        Err(ActionError::UnsupportedOperator { operator }) => assert_eq!(operator, "~="),
        other => panic!("unexpected {:?}", other),
    }
    assert!(matches!(
        test_operator(&Json::Null, &"".to_string(), &Json::Null),
        Err(ActionError::UnsupportedOperator { .. })
    ));
}

#[test]
fn and_stops_at_the_first_false() {
    let case = sample_case();
    let condition = Condition::Complex {
        operator: LogicalOperator::And,
        conditions: vec![
            leaf("data.amount", ">", Json::number("1000")),
            leaf("status", "==", Json::text("completed")),
            leaf("data.missing", "==", Json::Null),
        ],
    };
    assert_eq!(evaluate_condition(&condition, &case).unwrap(), false);

    let all = Condition::Complex {
        operator: LogicalOperator::And,
        conditions: vec![
            leaf("data.amount", ">", Json::number("1000")),
            leaf("status", "==", Json::text("active")),
        ],
    };
    assert_eq!(evaluate_condition(&all, &case).unwrap(), true);
    let none = Condition::Complex { operator: LogicalOperator::And, conditions: vec![] };
    assert_eq!(evaluate_condition(&none, &case).unwrap(), true);
}

#[test]
fn or_stops_at_the_first_true() {
    let case = sample_case();
    let condition = Condition::Complex {
        operator: LogicalOperator::Or,
        conditions: vec![
            leaf("data.amount", ">", Json::number("50000")),
            leaf("data.vip", "==", Json::Bool(true)),
            leaf("data.missing", "==", Json::Null),
        ],
    };
    assert_eq!(evaluate_condition(&condition, &case).unwrap(), true);
    let none = Condition::Complex { operator: LogicalOperator::Or, conditions: vec![] };
    assert_eq!(evaluate_condition(&none, &case).unwrap(), false);
}

#[test]
fn errors_propagate_out_of_the_combinators() {
    let case = sample_case();
    for operator in [LogicalOperator::And, LogicalOperator::Or] {
        let passing = match operator {
            LogicalOperator::And => leaf("status", "==", Json::text("active")),
            LogicalOperator::Or => leaf("status", "==", Json::text("paused")),
        };
        let condition = Condition::Complex {
            operator,
            conditions: vec![
                passing,
                leaf("data.missing", "==", Json::Null),
                leaf("status", "==", Json::text("active")),
            ],
        };
        assert!(matches!(
            evaluate_condition(&condition, &case),
            Err(ActionError::FieldNotFound { .. })
        ));
    }
}

#[test]
fn error_messages() {
    assert_eq!(field("data.missing").unwrap_err().message(), "Field 'data.missing' not found");
    assert_eq!(field("other").unwrap_err().message(), "Unsupported field path: other");
    assert_eq!(
        test("data.email", ">", Json::number("1")).unwrap_err().message(),
        "Cannot compare non-numeric values with >"
    );
    assert_eq!(
        test("data.amount", "like", Json::number("1")).unwrap_err().message(),
        "Unsupported operator: like"
    );
    assert_eq!(
        ActionError::ContainsActualNotString.message(),
        "contains operator requires string actual value"
    );
    assert_eq!(
        ActionError::ContainsExpectedNotString.message(),
        "contains operator requires string expected value"
    );
    assert_eq!(
        ActionError::HttpStatus { status: 503, body: "busy".to_string() }.message(),
        "HTTP 503 - busy"
    );
    assert_eq!(
        ActionError::ResponseNotFound { id: "ocr".to_string() }.message(),
        "Response from 'ocr' not found"
    );
    assert_eq!(
        ActionError::UnsupportedMethod { method: "FETCH".to_string() }.message(),
        "Unsupported HTTP method: FETCH"
    );
    assert_eq!(ActionError::Transport { message: "timed out".to_string() }.message(), "timed out");
    let nested = ActionError::ActionFailed {
        name: None,
        index: 3,
        cause: Box::new(ActionError::Transport { message: "refused".to_string() }),
    };
    assert_eq!(nested.message(), "Action 'action_3' failed: refused");
    assert_eq!(nested.clone().message(), nested.message());
}

#[test]
fn relations_of_orders() {
    let orders = [Comparison::Less, Comparison::Equal, Comparison::Greater];
    let table = [
        (Relation::Greater, [false, false, true]),
        (Relation::Less, [true, false, false]),
        (Relation::AtLeast, [false, true, true]),
        (Relation::AtMost, [true, true, false]),
    ];
    for (relation, expected) in table {
        for (order, holds) in orders.iter().zip(expected) {
            assert_eq!(relation.holds(Some(*order)), holds);
            assert_eq!(judge_order(Some(*order), &">".to_string(), relation).unwrap(), holds);
        }
        assert!(!relation.holds(None));
        assert!(matches!(
            judge_order(None, &"<=".to_string(), relation),
            Err(ActionError::NonNumericComparison { .. })
        ));
    }
}
