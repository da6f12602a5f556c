//! Automations: action trees bound to a phase and a trigger, and the case
//! modifications they ask for.

use crate::json::{Json, JsonView};
use crate::text::{copy_names, copy_optional, copy_pairs, pair_views, text_equal, text_views};
use vstd::prelude::*;

verus! {

/// A deferred change to a case, asked for by an automation.
#[derive(Debug, Clone)]
pub enum CaseModification {
    MoveToPhase { phase: String },
    SetField { field: String, value: Json },
}

/// The mathematical value of a [`CaseModification`].
pub enum ModificationView {
    MoveToPhase { phase: Seq<char> },
    SetField { field: Seq<char>, value: JsonView },
}

impl View for CaseModification {
    type V = ModificationView;

    open spec fn view(&self) -> ModificationView {
        match self {
            CaseModification::MoveToPhase { phase } => ModificationView::MoveToPhase {
                phase: phase@,
            },
            CaseModification::SetField { field, value } => ModificationView::SetField {
                field: field@,
                value: value@,
            },
        }
    }
}

/// The views of a list of modifications.
pub open spec fn modification_views(mods: Seq<CaseModification>) -> Seq<ModificationView> {
    Seq::new(mods.len(), |i: int| mods[i]@)
}

/// What running automations yields: the modifications to apply, in order.
#[derive(Debug, Clone)]
pub struct AutomationResult {
    pub modifications: Vec<CaseModification>,
}

impl Default for AutomationResult {
    fn default() -> (r: AutomationResult)
        ensures
            r.modifications@.len() == 0,
    {
        AutomationResult { modifications: Vec::new() }
    }
}

/// The time a case may spend in a phase.
#[derive(Debug, Clone, Copy)]
pub struct PhaseSla {
    pub hours: u32,
}

/// The time limits of a workflow, one entry per phase name.
#[derive(Debug, Clone)]
pub struct WorkflowSlaConfig {
    pub phase_slas: Vec<(String, PhaseSla)>,
}

impl Default for WorkflowSlaConfig {
    fn default() -> (r: WorkflowSlaConfig)
        ensures
            r.phase_slas@.len() == 0,
    {
        WorkflowSlaConfig { phase_slas: Vec::new() }
    }
}

/// When an automation fires.
#[derive(Debug, Clone, Copy, PartialEq, Eq, Structural)]
pub enum AutomationTrigger {
    OnEnter,
    OnExit,
}

/// What an action list does when an action fails.
#[derive(Debug, Clone, Copy, PartialEq, Eq, Structural)]
pub enum OnError {
    Stop,
    Continue,
}

impl Default for OnError {
    fn default() -> (r: OnError)
        ensures
            r == OnError::Stop,
    {
        OnError::Stop
    }
}

/// The retry budget of a webhook action.
#[derive(Debug, Clone, Copy)]
pub struct RetryConfig {
    pub enabled: bool,
    pub max_attempts: u32,
    pub delay_ms: u64,
}

/// The attempts a webhook action gets where its configuration names none.
pub fn default_max_attempts() -> (r: u32)
    ensures
        r == 3,
{
    3
}

/// The pause between attempts where a configuration names none.
pub fn default_delay_ms() -> (r: u64)
    ensures
        r == 1000,
{
    1000
}

impl Default for RetryConfig {
    fn default() -> (r: RetryConfig)
        ensures
            !r.enabled,
            r.max_attempts == 3,
            r.delay_ms == 1000,
    {
        RetryConfig {
            enabled: false,
            max_attempts: default_max_attempts(),
            delay_ms: default_delay_ms(),
        }
    }
}

/// How the leaves of a complex condition combine.
#[derive(Debug, Clone, Copy, PartialEq, Eq, Structural)]
pub enum LogicalOperator {
    And,
    Or,
}

/// A test of one field of a case against a value.
#[derive(Debug)]
pub struct SimpleCondition {
    pub field: String,
    pub operator: String,
    pub value: Json,
}

/// A condition on a case: one test, or several under `AND` or `OR`.
#[derive(Debug)]
pub enum Condition {
    Simple { field: String, operator: String, value: Json },
    Complex { operator: LogicalOperator, conditions: Vec<SimpleCondition> },
}

/// The mathematical value of a [`SimpleCondition`].
pub struct SimpleConditionView {
    pub field: Seq<char>,
    pub operator: Seq<char>,
    pub value: JsonView,
}

/// The mathematical value of a [`Condition`].
pub enum ConditionView {
    Simple { field: Seq<char>, operator: Seq<char>, value: JsonView },
    Complex { operator: LogicalOperator, conditions: Seq<SimpleConditionView> },
}

impl View for SimpleCondition {
    type V = SimpleConditionView;

    open spec fn view(&self) -> SimpleConditionView {
        SimpleConditionView { field: self.field@, operator: self.operator@, value: self.value@ }
    }
}

/// The views of a list of tests.
pub open spec fn condition_views(conditions: Seq<SimpleCondition>) -> Seq<SimpleConditionView> {
    Seq::new(conditions.len(), |i: int| conditions[i]@)
}

impl View for Condition {
    type V = ConditionView;

    open spec fn view(&self) -> ConditionView {
        match self {
            Condition::Simple { field, operator, value } => ConditionView::Simple {
                field: field@,
                operator: operator@,
                value: value@,
            },
            Condition::Complex { operator, conditions } => ConditionView::Complex {
                operator: *operator,
                conditions: condition_views(conditions@),
            },
        }
    }
}

impl Clone for SimpleCondition {
    fn clone(&self) -> (r: SimpleCondition)
        ensures
            r@ == self@,
    {
        SimpleCondition {
            field: self.field.clone(),
            operator: self.operator.clone(),
            value: self.value.clone(),
        }
    }
}

impl Clone for Condition {
    fn clone(&self) -> (r: Condition)
        ensures
            r@ == self@,
    {
        match self {
            Condition::Simple { field, operator, value } => Condition::Simple {
                field: field.clone(),
                operator: operator.clone(),
                value: value.clone(),
            },
            Condition::Complex { operator, conditions } => {
                let mut copy: Vec<SimpleCondition> = Vec::new();
                let mut i: usize = 0;
                while i < conditions.len()
                    invariant
                        i <= conditions.len(),
                        copy@.len() == i,
                        forall|j: int| 0 <= j < i ==> copy@[j]@ == conditions@[j]@,
                    decreases conditions.len() - i,
                {
                    copy.push(conditions[i].clone());
                    i += 1;
                }
                assert(condition_views(copy@) =~= condition_views(conditions@));
                Condition::Complex { operator: *operator, conditions: copy }
            },
        }
    }
}

/// One node of an automation.
#[derive(Debug)]
pub enum AutomationAction {
    Webhook {
        id: Option<String>,
        name: Option<String>,
        url: String,
        method: Option<String>,
        headers: Option<Vec<(String, String)>>,
        fields: Option<Vec<String>>,
        use_response_from: Option<String>,
        retry: RetryConfig,
        on_error: OnError,
    },
    Delay { name: Option<String>, duration_ms: u64 },
    Conditional {
        name: Option<String>,
        condition: Condition,
        then: Vec<AutomationAction>,
        otherwise: Option<Vec<AutomationAction>>,
    },
    MoveToPhase { name: Option<String>, phase: String },
    SetField { name: Option<String>, field: String, value: Json },
}

/// The mathematical value of an [`AutomationAction`]: all that it says, with
/// the actions of its branches at any depth.
pub enum ActionView {
    Webhook {
        id: Option<Seq<char>>,
        name: Option<Seq<char>>,
        url: Seq<char>,
        method: Option<Seq<char>>,
        headers: Option<Seq<(Seq<char>, Seq<char>)>>,
        fields: Option<Seq<Seq<char>>>,
        use_response_from: Option<Seq<char>>,
        retry: RetryConfig,
        on_error: OnError,
    },
    Delay { name: Option<Seq<char>>, duration_ms: u64 },
    Conditional {
        name: Option<Seq<char>>,
        condition: ConditionView,
        then: Seq<ActionView>,
        otherwise: Option<Seq<ActionView>>,
    },
    MoveToPhase { name: Option<Seq<char>>, phase: Seq<char> },
    SetField { name: Option<Seq<char>>, field: Seq<char>, value: JsonView },
}

/// The view of a string that may be absent.
pub open spec fn optional_name(name: Option<String>) -> Option<Seq<char>> {
    match name {
        Some(n) => Some(n@),
        None => None,
    }
}

/// The mathematical value of an action.
pub open spec fn action_view(action: AutomationAction) -> ActionView
    decreases action,
{
    match action {
        AutomationAction::Webhook {
            id,
            name,
            url,
            method,
            headers,
            fields,
            use_response_from,
            retry,
            on_error,
        } => ActionView::Webhook {
            id: optional_name(id),
            name: optional_name(name),
            url: url@,
            method: optional_name(method),
            headers: match headers {
                Some(h) => Some(pair_views(h@)),
                None => None,
            },
            fields: match fields {
                Some(f) => Some(text_views(f@)),
                None => None,
            },
            use_response_from: optional_name(use_response_from),
            retry,
            on_error,
        },
        AutomationAction::Delay { name, duration_ms } => ActionView::Delay {
            name: optional_name(name),
            duration_ms,
        },
        AutomationAction::Conditional { name, condition, then, otherwise } => {
            ActionView::Conditional {
                name: optional_name(name),
                condition: condition@,
                then: Seq::new(
                    then@.len(),
                    |i: int|
                        if 0 <= i < then@.len() {
                            action_view(then@[i])
                        } else {
                            ActionView::Delay { name: None, duration_ms: 0 }
                        },
                ),
                otherwise: match otherwise {
                    Some(actions) => Some(
                        Seq::new(
                            actions@.len(),
                            |i: int|
                                if 0 <= i < actions@.len() {
                                    action_view(actions@[i])
                                } else {
                                    ActionView::Delay { name: None, duration_ms: 0 }
                                },
                        ),
                    ),
                    None => None,
                },
            }
        },
        AutomationAction::MoveToPhase { name, phase } => ActionView::MoveToPhase {
            name: optional_name(name),
            phase: phase@,
        },
        AutomationAction::SetField { name, field, value } => ActionView::SetField {
            name: optional_name(name),
            field: field@,
            value: value@,
        },
    }
}

impl View for AutomationAction {
    type V = ActionView;

    open spec fn view(&self) -> ActionView {
        action_view(*self)
    }
}

/// The views of a list of actions.
pub open spec fn action_views(actions: Seq<AutomationAction>) -> Seq<ActionView> {
    Seq::new(actions.len(), |i: int| action_view(actions[i]))
}

/// The view of a conditional holds the views of the actions of its
/// branches.
pub proof fn lemma_conditional_view(action: AutomationAction)
    requires
        action is Conditional,
    ensures
        action@ == (ActionView::Conditional {
            name: optional_name(action->Conditional_name),
            condition: action->condition@,
            then: action_views(action->then@),
            otherwise: match action->otherwise {
                Some(actions) => Some(action_views(actions@)),
                None => None,
            },
        }),
{
    assert(action@->then =~= action_views(action->then@));
    match action->otherwise {
        Some(actions) => {
            assert(action@->otherwise->0 =~= action_views(actions@));
        },
        None => {},
    }
}

/// A copy of a list of actions, with the actions of their branches at any
/// depth.
fn clone_actions(actions: &Vec<AutomationAction>) -> (r: Vec<AutomationAction>)
    ensures
        action_views(r@) == action_views(actions@),
    decreases actions,
{
    let mut copy: Vec<AutomationAction> = Vec::new();
    let mut i: usize = 0;
    while i < actions.len()
        invariant
            i <= actions.len(),
            copy@.len() == i,
            forall|j: int| 0 <= j < i ==> action_view(copy@[j]) == action_view(actions@[j]),
        decreases actions.len() - i,
    {
        assert(decreases_to!(actions => actions[i as int]));
        copy.push(actions[i].clone());
        i += 1;
    }
    assert(action_views(copy@) =~= action_views(actions@));
    copy
}

impl Clone for AutomationAction {
    fn clone(&self) -> (r: AutomationAction)
        ensures
            r@ == self@,
        decreases self,
    {
        match self {
            AutomationAction::Webhook {
                id,
                name,
                url,
                method,
                headers,
                fields,
                use_response_from,
                retry,
                on_error,
            } => AutomationAction::Webhook {
                id: copy_optional(id),
                name: copy_optional(name),
                url: url.clone(),
                method: copy_optional(method),
                headers: match headers {
                    Some(h) => Some(copy_pairs(h)),
                    None => None,
                },
                fields: match fields {
                    Some(f) => Some(copy_names(f)),
                    None => None,
                },
                use_response_from: copy_optional(use_response_from),
                retry: *retry,
                on_error: *on_error,
            },
            AutomationAction::Delay { name, duration_ms } => AutomationAction::Delay {
                name: copy_optional(name),
                duration_ms: *duration_ms,
            },
            AutomationAction::Conditional { name, condition, then, otherwise } => {
                let r = AutomationAction::Conditional {
                    name: copy_optional(name),
                    condition: condition.clone(),
                    then: clone_actions(then),
                    otherwise: match otherwise {
                        Some(actions) => Some(clone_actions(actions)),
                        None => None,
                    },
                };
                proof {
                    lemma_conditional_view(r);
                    lemma_conditional_view(*self);
                }
                r
            },
            AutomationAction::MoveToPhase { name, phase } => AutomationAction::MoveToPhase {
                name: copy_optional(name),
                phase: phase.clone(),
            },
            AutomationAction::SetField { name, field, value } => AutomationAction::SetField {
                name: copy_optional(name),
                field: field.clone(),
                value: value.clone(),
            },
        }
    }
}

impl AutomationAction {
    /// The identifier under which the action's response is kept: only a
    /// webhook has one.
    pub open spec fn spec_id(self) -> Option<String> {
        match self {
            AutomationAction::Webhook { id, .. } => id,
            _ => None,
        }
    }

    /// The name the action was given.
    pub open spec fn spec_name(self) -> Option<String> {
        match self {
            AutomationAction::Webhook { name, .. } => name,
            AutomationAction::Delay { name, .. } => name,
            AutomationAction::Conditional { name, .. } => name,
            AutomationAction::MoveToPhase { name, .. } => name,
            AutomationAction::SetField { name, .. } => name,
        }
    }

    /// What the action list does when this action fails: a webhook says,
    /// every other action lets the list go on.
    pub open spec fn spec_on_error(self) -> OnError {
        match self {
            AutomationAction::Webhook { on_error, .. } => on_error,
            _ => OnError::Continue,
        }
    }

    /// The identifier under which the action's response is kept.
    pub fn id(&self) -> (r: Option<&str>)
        ensures
            match r {
                Some(s) => self.spec_id() is Some && s@ == self.spec_id()->0@,
                None => self.spec_id() is None,
            },
    {
        match self {
            AutomationAction::Webhook { id, .. } => match id {
                Some(s) => Some(s.as_str()),
                None => None,
            },
            _ => None,
        }
    }

    /// The name the action was given.
    pub fn name(&self) -> (r: Option<&str>)
        ensures
            match r {
                Some(s) => self.spec_name() is Some && s@ == self.spec_name()->0@,
                None => self.spec_name() is None,
            },
    {
        let name = match self {
            AutomationAction::Webhook { name, .. } => name,
            AutomationAction::Delay { name, .. } => name,
            AutomationAction::Conditional { name, .. } => name,
            AutomationAction::MoveToPhase { name, .. } => name,
            AutomationAction::SetField { name, .. } => name,
        };
        match name {
            Some(s) => Some(s.as_str()),
            None => None,
        }
    }

    /// A copy of the name the action was given.
    pub fn name_owned(&self) -> (r: Option<String>)
        ensures
            r == self.spec_name(),
    {
        let name = match self {
            AutomationAction::Webhook { name, .. } => name,
            AutomationAction::Delay { name, .. } => name,
            AutomationAction::Conditional { name, .. } => name,
            AutomationAction::MoveToPhase { name, .. } => name,
            AutomationAction::SetField { name, .. } => name,
        };
        match name {
            Some(s) => Some(s.clone()),
            None => None,
        }
    }

    /// What the action list does when this action fails.
    pub fn on_error(&self) -> (r: OnError)
        ensures
            r == self.spec_on_error(),
    {
        match self {
            AutomationAction::Webhook { on_error, .. } => *on_error,
            _ => OnError::Continue,
        }
    }
}

/// The actions to run when a case enters or leaves a phase.
#[derive(Debug, Clone)]
pub struct PhaseAutomation {
    pub trigger: AutomationTrigger,
    pub phase: String,
    pub actions: Vec<AutomationAction>,
}

/// The automations of a workflow, in declared order.
#[derive(Debug, Clone)]
pub struct WorkflowAutomations {
    pub automations: Vec<PhaseAutomation>,
}

impl Default for WorkflowAutomations {
    fn default() -> (r: WorkflowAutomations)
        ensures
            r.automations@.len() == 0,
    {
        WorkflowAutomations { automations: Vec::new() }
    }
}

/// Those of the first `n` automations that are bound to the trigger and the
/// phase, in declared order.
pub open spec fn bound_to(
    automations: Seq<PhaseAutomation>,
    trigger: AutomationTrigger,
    phase: Seq<char>,
    n: int,
) -> Seq<PhaseAutomation>
    decreases n,
{
    if n <= 0 || n > automations.len() {
        Seq::empty()
    } else if automations[n - 1].trigger == trigger && automations[n - 1].phase@ == phase {
        bound_to(automations, trigger, phase, n - 1).push(automations[n - 1])
    } else {
        bound_to(automations, trigger, phase, n - 1)
    }
}

/// The actions of the automations in the list, one list after the other.
pub open spec fn actions_of(automations: Seq<PhaseAutomation>) -> Seq<AutomationAction>
    decreases automations.len(),
{
    if automations.len() == 0 {
        Seq::empty()
    } else {
        actions_of(automations.drop_last()) + automations.last().actions@
    }
}

/// What a list of borrowed values refers to.
pub open spec fn referents<T>(refs: Seq<&T>) -> Seq<T> {
    Seq::new(refs.len(), |i: int| *refs[i])
}

impl WorkflowAutomations {
    /// No automations.
    pub fn new() -> (r: WorkflowAutomations)
        ensures
            r.automations@.len() == 0,
    {
        WorkflowAutomations { automations: Vec::new() }
    }

    /// The automations bound to the trigger and the phase, in declared order.
    pub fn get_automations(&self, trigger: AutomationTrigger, phase: &str) -> (r: Vec<
        &PhaseAutomation,
    >)
        ensures
            referents(r@) == bound_to(
                self.automations@,
                trigger,
                phase@,
                self.automations@.len() as int,
            ),
    {
        let mut found: Vec<&PhaseAutomation> = Vec::new();
        let mut i: usize = 0;
        while i < self.automations.len()
            invariant
                i <= self.automations.len(),
                referents(found@) == bound_to(self.automations@, trigger, phase@, i as int),
            decreases self.automations.len() - i,
        {
            let automation = &self.automations[i];
            let ghost before = referents(found@);
            if automation.trigger == trigger && text_equal(automation.phase.as_str(), phase) {
                found.push(automation);
                assert(referents(found@) =~= before.push(*automation));
            }
            i += 1;
        }
        found
    }

    /// The automations that fire when a case enters the phase.
    pub fn get_on_enter_automations(&self, phase: &str) -> (r: Vec<&PhaseAutomation>)
        ensures
            referents(r@) == bound_to(
                self.automations@,
                AutomationTrigger::OnEnter,
                phase@,
                self.automations@.len() as int,
            ),
    {
        self.get_automations(AutomationTrigger::OnEnter, phase)
    }

    /// The automations that fire when a case leaves the phase.
    pub fn get_on_exit_automations(&self, phase: &str) -> (r: Vec<&PhaseAutomation>)
        ensures
            referents(r@) == bound_to(
                self.automations@,
                AutomationTrigger::OnExit,
                phase@,
                self.automations@.len() as int,
            ),
    {
        self.get_automations(AutomationTrigger::OnExit, phase)
    }

    /// The actions of the automations bound to the trigger and the phase,
    /// one automation's after the other's.
    pub fn get_actions(&self, trigger: AutomationTrigger, phase: &str) -> (r: Vec<
        &AutomationAction,
    >)
        ensures
            referents(r@) == actions_of(
                bound_to(self.automations@, trigger, phase@, self.automations@.len() as int),
            ),
    {
        let bound = self.get_automations(trigger, phase);
        let mut actions: Vec<&AutomationAction> = Vec::new();
        let mut i: usize = 0;
        while i < bound.len()
            invariant
                i <= bound.len(),
                referents(actions@) == actions_of(referents(bound@).take(i as int)),
            decreases bound.len() - i,
        {
            let automation = bound[i];
            let ghost outer = referents(actions@);
            let mut k: usize = 0;
            while k < automation.actions.len()
                invariant
                    k <= automation.actions.len(),
                    referents(actions@) == outer + automation.actions@.take(k as int),
                decreases automation.actions.len() - k,
            {
                let ghost before = referents(actions@);
                actions.push(&automation.actions[k]);
                assert(referents(actions@) =~= before.push(automation.actions@[k as int]));
                assert(automation.actions@.take(k + 1) =~= automation.actions@.take(
                    k as int,
                ).push(automation.actions@[k as int]));
                k += 1;
            }
            assert(automation.actions@.take(k as int) =~= automation.actions@);
            assert(referents(bound@).take(i + 1).drop_last() =~= referents(bound@).take(
                i as int,
            ));
            i += 1;
        }
        assert(referents(bound@).take(i as int) =~= referents(bound@));
        actions
    }
}

} // verus!
