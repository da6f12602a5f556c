//! Conditions on a case: resolving a field path and testing what it names.

use crate::engine::http::ActionError;
use crate::json::{json_equal, Json, JsonView};
use crate::models::automation::{Condition, LogicalOperator, SimpleCondition};
use crate::models::case::Case;
use crate::number::{Comparison, Relation};
use crate::text::{contains, contains_text, split, split_dots, text_equal, text_views};
use vstd::prelude::*;

verus! {

/// What the path names inside `value` from its segment `i` on: each
/// segment selects the member of that name.
pub open spec fn resolve(value: JsonView, parts: Seq<Seq<char>>, i: int) -> Option<JsonView>
    decreases parts.len() - i,
{
    if i < 0 || i >= parts.len() {
        Some(value)
    } else {
        match value.get(parts[i]) {
            Some(v) => resolve(v, parts, i + 1),
            None => None,
        }
    }
}

/// A phase that may be absent, as JSON: the name, or `null`.
pub open spec fn optional_text(phase: Option<Seq<char>>) -> JsonView {
    match phase {
        Some(p) => JsonView::String(p),
        None => JsonView::Null,
    }
}

/// The view of a string that may be absent.
pub open spec fn optional_view(s: Option<String>) -> Option<Seq<char>> {
    match s {
        Some(x) => Some(x@),
        None => None,
    }
}

/// The value of a field of a case. The first segment of the dotted path
/// selects `data`, `status`, `current_phase` or `previous_phase`; under
/// `data` each further segment selects a member.
pub open spec fn field_value(field: String, case: Case) -> Result<JsonView, ActionError> {
    let parts = split(field@, '.');
    if parts[0] == "data"@ {
        match resolve(case.data@, parts, 1) {
            Some(v) => Ok(v),
            None => Err(ActionError::FieldNotFound { field }),
        }
    } else if parts[0] == "status"@ {
        Ok(JsonView::String(case.status.text()))
    } else if parts[0] == "current_phase"@ {
        Ok(JsonView::String(case.current_phase@))
    } else if parts[0] == "previous_phase"@ {
        Ok(optional_text(optional_view(case.previous_phase)))
    } else {
        Err(ActionError::UnsupportedFieldPath { field })
    }
}

/// The outcome of an ordering test on two values that order as `order`
/// says: whether they stand in the relation, or an error where they do not
/// order as numbers.
pub open spec fn order_verdict(order: Option<Comparison>, operator: String, relation: Relation) -> Result<
    bool,
    ActionError,
> {
    match order {
        Some(_) => Ok(relation.holds_for(order)),
        None => Err(ActionError::NonNumericComparison { operator }),
    }
}

/// The outcome of testing a value against another with an operator:
/// `==` and `=` for deep equality, `!=` for its negation, `>`, `<`, `>=`,
/// `<=` for the order of two numbers, `contains` for a substring of a
/// string.
pub open spec fn operator_test(actual: JsonView, operator: String, expected: JsonView) -> Result<
    bool,
    ActionError,
> {
    let op = operator@;
    if op == "=="@ || op == "="@ {
        Ok(json_equal(actual, expected))
    } else if op == "!="@ {
        Ok(!json_equal(actual, expected))
    } else if op == ">"@ {
        order_verdict(actual.number_order(expected), operator, Relation::Greater)
    } else if op == "<"@ {
        order_verdict(actual.number_order(expected), operator, Relation::Less)
    } else if op == ">="@ {
        order_verdict(actual.number_order(expected), operator, Relation::AtLeast)
    } else if op == "<="@ {
        order_verdict(actual.number_order(expected), operator, Relation::AtMost)
    } else if op == "contains"@ {
        match (actual, expected) {
            (JsonView::String(s), JsonView::String(sub)) => Ok(contains_text(s, sub)),
            (JsonView::String(_), _) => Err(ActionError::ContainsExpectedNotString),
            _ => Err(ActionError::ContainsActualNotString),
        }
    } else {
        Err(ActionError::UnsupportedOperator { operator })
    }
}

/// The outcome of one test on a case.
pub open spec fn simple_test(field: String, operator: String, expected: Json, case: Case) -> Result<
    bool,
    ActionError,
> {
    match field_value(field, case) {
        Ok(actual) => operator_test(actual, operator, expected@),
        Err(e) => Err(e),
    }
}

/// The outcome of the tests from index `i` on under `AND`: the first error
/// or the first `false` decides; `true` where neither comes.
pub open spec fn all_hold(conditions: Seq<SimpleCondition>, i: int, case: Case) -> Result<
    bool,
    ActionError,
>
    decreases conditions.len() - i,
{
    if i < 0 || i >= conditions.len() {
        Ok(true)
    } else {
        match simple_test(conditions[i].field, conditions[i].operator, conditions[i].value, case) {
            Err(e) => Err(e),
            Ok(false) => Ok(false),
            Ok(true) => all_hold(conditions, i + 1, case),
        }
    }
}

/// The outcome of the tests from index `i` on under `OR`: the first error
/// or the first `true` decides; `false` where neither comes.
pub open spec fn any_holds(conditions: Seq<SimpleCondition>, i: int, case: Case) -> Result<
    bool,
    ActionError,
>
    decreases conditions.len() - i,
{
    if i < 0 || i >= conditions.len() {
        Ok(false)
    } else {
        match simple_test(conditions[i].field, conditions[i].operator, conditions[i].value, case) {
            Err(e) => Err(e),
            Ok(true) => Ok(true),
            Ok(false) => any_holds(conditions, i + 1, case),
        }
    }
}

/// The outcome of a condition on a case.
pub open spec fn condition_value(condition: Condition, case: Case) -> Result<bool, ActionError> {
    match condition {
        Condition::Simple { field, operator, value } => simple_test(field, operator, value, case),
        Condition::Complex { operator: LogicalOperator::And, conditions } => all_hold(
            conditions@,
            0,
            case,
        ),
        Condition::Complex { operator: LogicalOperator::Or, conditions } => any_holds(
            conditions@,
            0,
            case,
        ),
    }
}

/// The value of a field of a case.
pub fn get_field_value(field: &String, case: &Case) -> (r: Result<Json, ActionError>)
    ensures
        match r {
            Ok(j) => field_value(*field, *case) == Ok::<JsonView, ActionError>(j@),
            Err(e) => field_value(*field, *case) == Err::<JsonView, ActionError>(e),
        },
{
    let parts = split_dots(field.as_str());
    let ghost names = split(field@, '.');
    assert(names == text_views(parts@));
    assert(names[0] == parts@[0]@);
    let head = parts[0].as_str();
    if text_equal(head, "data") {
        let mut current: &Json = &case.data;
        let mut i: usize = 1;
        while i < parts.len()
            invariant
                1 <= i <= parts.len(),
                names == text_views(parts@),
                names == split(field@, '.'),
                names[0] == "data"@,
                resolve(current@, names, i as int) == resolve(case.data@, names, 1),
            decreases parts.len() - i,
        {
            assert(names[i as int] == parts@[i as int]@);
            match current.get(parts[i].as_str()) {
                Some(next) => {
                    current = next;
                },
                None => {
                    return Err(ActionError::FieldNotFound { field: field.clone() });
                },
            }
            i += 1;
        }
        Ok(current.clone())
    } else if text_equal(head, "status") {
        Ok(Json::text(case.status.as_str()))
    } else if text_equal(head, "current_phase") {
        Ok(Json::text(case.current_phase.as_str()))
    } else if text_equal(head, "previous_phase") {
        match &case.previous_phase {
            Some(p) => Ok(Json::text(p.as_str())),
            None => Ok(Json::Null),
        }
    } else {
        Err(ActionError::UnsupportedFieldPath { field: field.clone() })
    }
}

/// The outcome of an ordering test on two values that order as `order`
/// says.
pub fn judge_order(order: Option<Comparison>, operator: &String, relation: Relation) -> (r: Result<
    bool,
    ActionError,
>)
    ensures
        r == order_verdict(order, *operator, relation),
{
    match order {
        Some(_) => Ok(relation.holds(order)),
        None => Err(ActionError::NonNumericComparison { operator: operator.clone() }),
    }
}

/// The outcome of testing a value against another with an operator.
pub fn test_operator(actual: &Json, operator: &String, expected: &Json) -> (r: Result<
    bool,
    ActionError,
>)
    ensures
        r == operator_test(actual@, *operator, expected@),
{
    let op = operator.as_str();
    if text_equal(op, "==") || text_equal(op, "=") {
        Ok(actual.equals(expected))
    } else if text_equal(op, "!=") {
        Ok(!actual.equals(expected))
    } else if text_equal(op, ">") {
        judge_order(actual.number_order(expected), operator, Relation::Greater)
    } else if text_equal(op, "<") {
        judge_order(actual.number_order(expected), operator, Relation::Less)
    } else if text_equal(op, ">=") {
        judge_order(actual.number_order(expected), operator, Relation::AtLeast)
    } else if text_equal(op, "<=") {
        judge_order(actual.number_order(expected), operator, Relation::AtMost)
    } else if text_equal(op, "contains") {
        match actual.as_text() {
            Some(s) => match expected.as_text() {
                Some(sub) => Ok(contains(s, sub)),
                None => Err(ActionError::ContainsExpectedNotString),
            },
            None => Err(ActionError::ContainsActualNotString),
        }
    } else {
        Err(ActionError::UnsupportedOperator { operator: operator.clone() })
    }
}

/// The outcome of one test on a case.
pub fn evaluate_simple_condition(field: &String, operator: &String, expected: &Json, case: &Case) -> (r:
    Result<bool, ActionError>)
    ensures
        r == simple_test(*field, *operator, *expected, *case),
{
    match get_field_value(field, case) {
        Ok(actual) => test_operator(&actual, operator, expected),
        Err(e) => Err(e),
    }
}

/// The outcome of the tests under `AND`.
pub fn evaluate_all(conditions: &Vec<SimpleCondition>, case: &Case) -> (r: Result<bool, ActionError>)
    ensures
        r == all_hold(conditions@, 0, *case),
{
    let mut i: usize = 0;
    while i < conditions.len()
        invariant
            i <= conditions.len(),
            all_hold(conditions@, i as int, *case) == all_hold(conditions@, 0, *case),
        decreases conditions.len() - i,
    {
        let c = &conditions[i];
        match evaluate_simple_condition(&c.field, &c.operator, &c.value, case) {
            Err(e) => {
                return Err(e);
            },
            Ok(false) => {
                return Ok(false);
            },
            Ok(true) => {},
        }
        i += 1;
    }
    Ok(true)
}

/// The outcome of the tests under `OR`.
pub fn evaluate_any(conditions: &Vec<SimpleCondition>, case: &Case) -> (r: Result<bool, ActionError>)
    ensures
        r == any_holds(conditions@, 0, *case),
{
    let mut i: usize = 0;
    while i < conditions.len()
        invariant
            i <= conditions.len(),
            any_holds(conditions@, i as int, *case) == any_holds(conditions@, 0, *case),
        decreases conditions.len() - i,
    {
        let c = &conditions[i];
        match evaluate_simple_condition(&c.field, &c.operator, &c.value, case) {
            Err(e) => {
                return Err(e);
            },
            Ok(true) => {
                return Ok(true);
            },
            Ok(false) => {},
        }
        i += 1;
    }
    Ok(false)
}

/// The outcome of a condition on a case.
pub fn evaluate_condition(condition: &Condition, case: &Case) -> (r: Result<bool, ActionError>)
    ensures
        r == condition_value(*condition, *case),
{
    match condition {
        Condition::Simple { field, operator, value } => evaluate_simple_condition(
            field,
            operator,
            value,
            case,
        ),
        Condition::Complex { operator: LogicalOperator::And, conditions } => evaluate_all(
            conditions,
            case,
        ),
        Condition::Complex { operator: LogicalOperator::Or, conditions } => evaluate_any(
            conditions,
            case,
        ),
    }
}

} // verus!
