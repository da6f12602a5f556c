//! Matching events to flows: a flow is a candidate for an event when it is
//! active, its trigger names the event's type, and the event's data pass
//! its filters.

use crate::json::{json_equal, members_view, Json, JsonView};
use crate::models::automation::referents;
use crate::models::event::Event;
use crate::models::flow::Flow;
use crate::number::{number_token_order, Comparison, Relation};
use crate::text::{order_texts, strip_suffix, text_equal, text_order, without_suffix};
use vstd::prelude::*;

verus! {

/// How two values order: two numbers as numbers, two strings character by
/// character; nothing else orders.
pub open spec fn value_order(a: JsonView, b: JsonView) -> Option<Comparison> {
    match (a, b) {
        (JsonView::Number(x), JsonView::Number(y)) => number_token_order(x, y),
        (JsonView::String(x), JsonView::String(y)) => Some(text_order(x, y)),
        _ => None,
    }
}

/// Whether the field of the data stands in the relation to the expected
/// value; an absent field does not.
pub open spec fn field_orders(
    data: JsonView,
    field: Seq<char>,
    expected: JsonView,
    relation: Relation,
) -> bool {
    match data.get(field) {
        Some(v) => relation.holds_for(value_order(v, expected)),
        None => false,
    }
}

/// Whether the data pass one filter. The name of the filter ends in `_gt`,
/// `_lt`, `_gte`, `_lte` or `_ne` for a comparison of the field named
/// before the suffix; any other name asks that the field of that name be
/// deeply equal to the expected value.
pub open spec fn filter_passes(data: JsonView, key: Seq<char>, expected: JsonView) -> bool {
    if without_suffix(key, "_gt"@) is Some {
        field_orders(data, without_suffix(key, "_gt"@)->0, expected, Relation::Greater)
    } else if without_suffix(key, "_lt"@) is Some {
        field_orders(data, without_suffix(key, "_lt"@)->0, expected, Relation::Less)
    } else if without_suffix(key, "_gte"@) is Some {
        field_orders(data, without_suffix(key, "_gte"@)->0, expected, Relation::AtLeast)
    } else if without_suffix(key, "_lte"@) is Some {
        field_orders(data, without_suffix(key, "_lte"@)->0, expected, Relation::AtMost)
    } else if without_suffix(key, "_ne"@) is Some {
        match data.get(without_suffix(key, "_ne"@)->0) {
            Some(v) => !json_equal(v, expected),
            None => false,
        }
    } else {
        match data.get(key) {
            Some(v) => json_equal(v, expected),
            None => false,
        }
    }
}

/// Whether the name of a filter ends in one of the comparison suffixes.
pub open spec fn has_comparison_suffix(key: Seq<char>) -> bool {
    without_suffix(key, "_gt"@) is Some || without_suffix(key, "_lt"@) is Some || without_suffix(
        key,
        "_gte"@,
    ) is Some || without_suffix(key, "_lte"@) is Some || without_suffix(key, "_ne"@) is Some
}

/// The field that a filter with a comparison suffix compares.
pub open spec fn compared_field(key: Seq<char>) -> Seq<char> {
    if without_suffix(key, "_gt"@) is Some {
        without_suffix(key, "_gt"@)->0
    } else if without_suffix(key, "_lt"@) is Some {
        without_suffix(key, "_lt"@)->0
    } else if without_suffix(key, "_gte"@) is Some {
        without_suffix(key, "_gte"@)->0
    } else if without_suffix(key, "_lte"@) is Some {
        without_suffix(key, "_lte"@)->0
    } else {
        without_suffix(key, "_ne"@)->0
    }
}

/// Whether the data pass the filters: every member of the filter object is
/// a filter that the data pass. Filters that are no object ask nothing.
pub open spec fn filters_pass(data: JsonView, filters: JsonView) -> bool {
    match filters {
        JsonView::Object(members) => forall|i: int|
            0 <= i < members.len() ==> filter_passes(data, (#[trigger] members[i]).0, members[i].1),
        _ => true,
    }
}

/// Whether a flow is a candidate for an event.
pub open spec fn flow_matches(event: Event, flow: Flow) -> bool {
    flow.active && event.event_type@ == flow.trigger.event_type@ && filters_pass(
        event.data@,
        flow.trigger.filters@,
    )
}

/// Those of the first `n` flows that are candidates for the event, in
/// their order.
pub open spec fn candidates(event: Event, flows: Seq<Flow>, n: int) -> Seq<Flow>
    decreases n,
{
    if n <= 0 || n > flows.len() {
        Seq::empty()
    } else if flow_matches(event, flows[n - 1]) {
        candidates(event, flows, n - 1).push(flows[n - 1])
    } else {
        candidates(event, flows, n - 1)
    }
}

/// How two values order.
pub fn order_values(a: &Json, b: &Json) -> (r: Option<Comparison>)
    ensures
        r == value_order(a@, b@),
{
    match (a, b) {
        (Json::Number(_), Json::Number(_)) => a.number_order(b),
        (Json::String(x), Json::String(y)) => Some(order_texts(x.as_str(), y.as_str())),
        _ => None,
    }
}

/// Whether the data pass one filter.
pub fn check_filter(data: &Json, key: &str, expected: &Json) -> (r: bool)
    ensures
        r == filter_passes(data@, key@, expected@),
{
    if let Some(field) = strip_suffix(key, "_gt") {
        match data.get(field.as_str()) {
            Some(v) => Relation::Greater.holds(order_values(v, expected)),
            None => false,
        }
    } else if let Some(field) = strip_suffix(key, "_lt") {
        match data.get(field.as_str()) {
            Some(v) => Relation::Less.holds(order_values(v, expected)),
            None => false,
        }
    } else if let Some(field) = strip_suffix(key, "_gte") {
        match data.get(field.as_str()) {
            Some(v) => Relation::AtLeast.holds(order_values(v, expected)),
            None => false,
        }
    } else if let Some(field) = strip_suffix(key, "_lte") {
        match data.get(field.as_str()) {
            Some(v) => Relation::AtMost.holds(order_values(v, expected)),
            None => false,
        }
    } else if let Some(field) = strip_suffix(key, "_ne") {
        match data.get(field.as_str()) {
            Some(v) => !v.equals(expected),
            None => false,
        }
    } else {
        match data.get(key) {
            Some(v) => v.equals(expected),
            None => false,
        }
    }
}

/// Whether the data pass the filters.
pub fn check_filters(data: &Json, filters: &Json) -> (r: bool)
    ensures
        r == filters_pass(data@, filters@),
{
    match filters {
        Json::Object(members) => {
            proof {
                filters.lemma_object_view();
            }
            let mut i: usize = 0;
            while i < members.len()
                invariant
                    i <= members.len(),
                    filters@ == JsonView::Object(members_view(members@)),
                    forall|j: int|
                        0 <= j < i ==> filter_passes(
                            data@,
                            (#[trigger] members_view(members@)[j]).0,
                            members_view(members@)[j].1,
                        ),
                decreases members.len() - i,
            {
                if !check_filter(data, members[i].0.as_str(), &members[i].1) {
                    let ghost member = filters@->Object_0[i as int];
                    assert(member == members_view(members@)[i as int]);
                    assert(!filter_passes(data@, member.0, member.1));
                    return false;
                }
                i += 1;
            }
            true
        },
        _ => true,
    }
}

/// Selects the flows that an event starts.
#[derive(Debug, Clone, Copy)]
pub struct Matcher {}

impl Matcher {
    /// Whether a flow is a candidate for an event.
    pub fn matches(event: &Event, flow: &Flow) -> (r: bool)
        ensures
            r == flow_matches(*event, *flow),
    {
        if !flow.active {
            return false;
        }
        if !text_equal(event.event_type.as_str(), flow.trigger.event_type.as_str()) {
            return false;
        }
        check_filters(&event.data, &flow.trigger.filters)
    }

    /// The flows that are candidates for the event, in their order.
    pub fn match_flows<'a>(event: &Event, flows: &'a [Flow]) -> (r: Vec<&'a Flow>)
        ensures
            referents(r@) == candidates(*event, flows@, flows@.len() as int),
    {
        let mut matched: Vec<&'a Flow> = Vec::new();
        let mut i: usize = 0;
        assert(referents(matched@) =~= Seq::empty());
        while i < flows.len()
            invariant
                i <= flows.len(),
                referents(matched@) == candidates(*event, flows@, i as int),
            decreases flows.len() - i,
        {
            let flow = &flows[i];
            let ghost before = referents(matched@);
            if Matcher::matches(event, flow) {
                matched.push(flow);
                assert(referents(matched@) =~= before.push(*flow));
            }
            i += 1;
        }
        matched
    }
}

/// A flow that is not active is no candidate for any event.
pub proof fn lemma_inactive_flow_never_matches(event: Event, flow: Flow)
    requires
        !flow.active,
    ensures
        !flow_matches(event, flow),
{
}

/// A filter whose name has no comparison suffix passes exactly when the
/// event holds the field of that name with a value deeply equal to the
/// expected one.
pub proof fn lemma_equality_filter(data: JsonView, key: Seq<char>, expected: JsonView)
    requires
        !has_comparison_suffix(key),
    ensures
        filter_passes(data, key, expected) <==> (data.get(key) is Some && json_equal(
            data.get(key)->0,
            expected,
        )),
{
}

/// A filter with a comparison suffix fails when the event does not hold
/// the field it compares.
pub proof fn lemma_absent_field_fails(data: JsonView, key: Seq<char>, expected: JsonView)
    requires
        has_comparison_suffix(key),
        data.get(compared_field(key)) is None,
    ensures
        !filter_passes(data, key, expected),
{
}

/// Every candidate is one of the flows, is active, and names the event's
/// type; and every flow that matches is among the candidates.
pub proof fn lemma_candidates(event: Event, flows: Seq<Flow>, n: int)
    requires
        0 <= n <= flows.len(),
    ensures
        forall|k: int|
            0 <= k < candidates(event, flows, n).len() ==> flow_matches(
                event,
                #[trigger] candidates(event, flows, n)[k],
            ),
        forall|i: int|
            0 <= i < n && flow_matches(event, flows[i]) ==> candidates(event, flows, n).contains(
                #[trigger] flows[i],
            ),
        candidates(event, flows, n).len() <= n,
    decreases n,
{
    if n > 0 {
        lemma_candidates(event, flows, n - 1);
        let earlier = candidates(event, flows, n - 1);
        let now = candidates(event, flows, n);
        if flow_matches(event, flows[n - 1]) {
            assert(now == earlier.push(flows[n - 1]));
            assert(now[now.len() - 1] == flows[n - 1]);
            assert forall|i: int| 0 <= i < n && flow_matches(event, flows[i]) implies now.contains(
                #[trigger] flows[i],
            ) by {
                if i < n - 1 {
                    let k = choose|k: int| 0 <= k < earlier.len() && earlier[k] == flows[i];
                    assert(now[k] == flows[i]);
                } else {
                    assert(now[now.len() - 1] == flows[i]);
                }
            }
        }
    }
}

} // verus!
