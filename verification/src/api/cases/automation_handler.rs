//! The case-state transaction: turning the modifications that automations
//! asked for into statements on the case and its history.
//!
//! The statements of one batch belong to one transaction. The planner reads
//! the outcome of every statement it asked for from a log, one `bool` per
//! statement, and names the next statement, or the commit.

use crate::api::response::{ApiError, INTERNAL_SERVER_ERROR};
use crate::engine::http::{error_text, ActionError};
use crate::json::{set_at_path, set_path, Json, JsonView};
use crate::models::automation::{
    modification_views, AutomationResult, CaseModification, ModificationView,
};
use crate::models::case::{Case, CaseHistory};
use crate::models::workflow::Workflow;
use crate::text::{split, split_dots, text_equal, text_views};
use vstd::prelude::*;
use vstd::string::*;

verus! {

/// One statement of a case-state transaction.
#[derive(Debug, Clone)]
pub enum Statement {
    /// Set the case's phase and previous phase; its entry into the phase and
    /// its last change are stamped with the time of the statement.
    UpdatePhase { case_id: u128, phase: String, previous_phase: String },
    /// Append a row to the case's history.
    InsertHistory { history: CaseHistory },
    /// Set the value at a path inside the case's data, making the members
    /// on the way that are missing; the case's last change is stamped.
    SetDataField { case_id: u128, path: Vec<String>, value: Json },
}

/// The mathematical value of a [`Statement`]; of a history row, all but
/// its identifier and its time.
pub enum StatementView {
    UpdatePhase { case_id: u128, phase: Seq<char>, previous_phase: Seq<char> },
    InsertHistory {
        case_id: u128,
        from_phase: Option<Seq<char>>,
        to_phase: Seq<char>,
        reason: Option<Seq<char>>,
        triggered_by: Option<Seq<char>>,
    },
    SetDataField { case_id: u128, path: Seq<Seq<char>>, value: JsonView },
}

/// The view of a string that may be absent.
pub open spec fn opt_text(s: Option<String>) -> Option<Seq<char>> {
    match s {
        Some(x) => Some(x@),
        None => None,
    }
}

impl View for Statement {
    type V = StatementView;

    open spec fn view(&self) -> StatementView {
        match self {
            Statement::UpdatePhase { case_id, phase, previous_phase } => StatementView::UpdatePhase {
                case_id: *case_id,
                phase: phase@,
                previous_phase: previous_phase@,
            },
            Statement::InsertHistory { history } => StatementView::InsertHistory {
                case_id: history.case_id,
                from_phase: opt_text(history.from_phase),
                to_phase: history.to_phase@,
                reason: opt_text(history.reason),
                triggered_by: opt_text(history.triggered_by),
            },
            Statement::SetDataField { case_id, path, value } => StatementView::SetDataField {
                case_id: *case_id,
                path: text_views(path@),
                value: value@,
            },
        }
    }
}

/// The first `n` segments of a path, with a comma between each two.
pub open spec fn joined(path: Seq<Seq<char>>, n: int) -> Seq<char>
    decreases n,
{
    if n <= 0 || n > path.len() {
        Seq::empty()
    } else if n == 1 {
        path[0]
    } else {
        joined(path, n - 1) + ","@ + path[n - 1]
    }
}

/// The pointer of a path: its segments between braces, with commas.
pub open spec fn pointer_text(path: Seq<Seq<char>>) -> Seq<char> {
    "{"@ + joined(path, path.len() as int) + "}"@
}

/// The path inside a case's data that a field names: the segments after a
/// leading `data`, where the field has that lead and the segments do not
/// join to nothing.
pub open spec fn data_path(field: Seq<char>) -> Option<Seq<Seq<char>>> {
    let parts = split(field, '.');
    let rest = parts.subrange(1, parts.len() as int);
    if parts[0] == "data"@ && joined(rest, rest.len() as int).len() > 0 {
        Some(rest)
    } else {
        None
    }
}

/// The reason given in the history for a move that an automation made.
pub open spec fn automation_reason(label: Seq<char>) -> Seq<char> {
    label + " automation"@
}

/// What a transaction does next.
pub enum TransactionView {
    Execute(StatementView),
    Commit,
}

/// The transaction from modification `i` on, with the phase the case is in
/// by now, read off the log at `pos`.
///
/// A move to a phase that the workflow does not have is skipped. Any other
/// move updates the phase and, where that statement succeeded, appends a
/// history row from the phase the case was in to the new one; the new phase
/// is then the phase the case is in. A field that names a path inside the
/// data is set; any other field is skipped. After the last modification
/// comes the commit.
pub open spec fn transaction_run(
    case_id: u128,
    phases: Seq<Seq<char>>,
    mods: Seq<ModificationView>,
    label: Seq<char>,
    i: int,
    chained: Seq<char>,
    log: Seq<bool>,
    pos: int,
) -> TransactionView
    decreases mods.len() - i,
{
    if i < 0 || i >= mods.len() {
        TransactionView::Commit
    } else {
        match mods[i] {
            ModificationView::MoveToPhase { phase } => {
                if !phases.contains(phase) {
                    transaction_run(case_id, phases, mods, label, i + 1, chained, log, pos)
                } else if pos >= log.len() {
                    TransactionView::Execute(
                        StatementView::UpdatePhase { case_id, phase, previous_phase: chained },
                    )
                } else if !log[pos] {
                    transaction_run(case_id, phases, mods, label, i + 1, chained, log, pos + 1)
                } else if pos + 1 >= log.len() {
                    TransactionView::Execute(
                        StatementView::InsertHistory {
                            case_id,
                            from_phase: Some(chained),
                            to_phase: phase,
                            reason: Some(automation_reason(label)),
                            triggered_by: Some("system"@),
                        },
                    )
                } else {
                    transaction_run(case_id, phases, mods, label, i + 1, phase, log, pos + 2)
                }
            },
            ModificationView::SetField { field, value } => match data_path(field) {
                None => transaction_run(case_id, phases, mods, label, i + 1, chained, log, pos),
                Some(path) => if pos >= log.len() {
                    TransactionView::Execute(StatementView::SetDataField { case_id, path, value })
                } else {
                    transaction_run(case_id, phases, mods, label, i + 1, chained, log, pos + 1)
                },
            },
        }
    }
}

/// What the caller of a transaction must do next.
#[derive(Debug)]
pub enum TransactionStep {
    /// There is nothing to apply: no transaction is needed.
    Nothing,
    /// Execute the statement inside the transaction and log whether it
    /// succeeded.
    Execute(Statement),
    /// Commit the transaction.
    Commit,
}

/// The statements of a transaction in which every statement succeeds, from
/// modification `i` on.
pub open spec fn planned_statements(
    case_id: u128,
    phases: Seq<Seq<char>>,
    mods: Seq<ModificationView>,
    label: Seq<char>,
    i: int,
    chained: Seq<char>,
) -> Seq<StatementView>
    decreases mods.len() - i,
{
    if i < 0 || i >= mods.len() {
        Seq::empty()
    } else {
        match mods[i] {
            ModificationView::MoveToPhase { phase } => if phases.contains(phase) {
                seq![
                    StatementView::UpdatePhase { case_id, phase, previous_phase: chained },
                    StatementView::InsertHistory {
                        case_id,
                        from_phase: Some(chained),
                        to_phase: phase,
                        reason: Some(automation_reason(label)),
                        triggered_by: Some("system"@),
                    },
                ] + planned_statements(case_id, phases, mods, label, i + 1, phase)
            } else {
                planned_statements(case_id, phases, mods, label, i + 1, chained)
            },
            ModificationView::SetField { field, value } => match data_path(field) {
                Some(path) => seq![StatementView::SetDataField { case_id, path, value }]
                    + planned_statements(case_id, phases, mods, label, i + 1, chained),
                None => planned_statements(case_id, phases, mods, label, i + 1, chained),
            },
        }
    }
}

/// The phase a case is in after a transaction in which every statement
/// succeeds: the target of the last move that was not skipped, or the phase
/// it was in.
pub open spec fn final_phase(
    phases: Seq<Seq<char>>,
    mods: Seq<ModificationView>,
    i: int,
    chained: Seq<char>,
) -> Seq<char>
    decreases mods.len() - i,
{
    if i < 0 || i >= mods.len() {
        chained
    } else {
        match mods[i] {
            ModificationView::MoveToPhase { phase } if phases.contains(phase) => final_phase(
                phases,
                mods,
                i + 1,
                phase,
            ),
            _ => final_phase(phases, mods, i + 1, chained),
        }
    }
}

/// A log of `n` statements that all succeeded.
pub open spec fn all_succeeded(log: Seq<bool>) -> bool {
    forall|k: int| 0 <= k < log.len() ==> #[trigger] log[k]
}

/// The path that a field names inside a case's data.
pub fn parse_data_path(field: &str) -> (r: Option<Vec<String>>)
    ensures
        match r {
            Some(path) => data_path(field@) == Some(text_views(path@)),
            None => data_path(field@) is None,
        },
{
    let parts = split_dots(field);
    let ghost names = split(field@, '.');
    assert(names[0] == parts@[0]@);
    if !text_equal(parts[0].as_str(), "data") {
        return None;
    }
    let ghost rest = names.subrange(1, names.len() as int);
    let mut path: Vec<String> = Vec::new();
    let mut length: usize = 0;
    let mut i: usize = 1;
    assert(text_views(path@) =~= rest.take(0));
    while i < parts.len()
        invariant
            1 <= i <= parts.len(),
            names == text_views(parts@),
            rest == names.subrange(1, names.len() as int),
            text_views(path@) == rest.take(i - 1),
            (length > 0) == (joined(rest, i - 1).len() > 0),
        decreases parts.len() - i,
    {
        let ghost before = text_views(path@);
        let part = &parts[i];
        assert(rest[i - 1] == part@);
        proof {
            reveal_strlit(",");
        }
        if i > 1 || part.as_str().unicode_len() > 0 {
            length = 1;
        }
        path.push(part.clone());
        assert(text_views(path@) =~= before.push(part@));
        assert(rest.take(i as int) =~= before.push(part@));
        i += 1;
    }
    assert(rest.take(rest.len() as int) =~= rest);
    if length > 0 {
        Some(path)
    } else {
        None
    }
}

/// The pointer of a path: its segments between braces, with commas.
pub fn pointer(path: &Vec<String>) -> (r: String)
    ensures
        r@ == pointer_text(text_views(path@)),
{
    let mut body = String::new();
    let mut i: usize = 0;
    assert(body@ =~= joined(text_views(path@), 0));
    while i < path.len()
        invariant
            i <= path.len(),
            body@ == joined(text_views(path@), i as int),
        decreases path.len() - i,
    {
        assert(text_views(path@)[i as int] == path@[i as int]@);
        let ghost before = body@;
        if i > 0 {
            body.append(",");
        }
        body.append(path[i].as_str());
        assert(body@ =~= joined(text_views(path@), i + 1)) by {
            if i == 0 {
                assert(before + path@[0]@ =~= path@[0]@);
            }
        }
        i += 1;
    }
    String::from_str("{").concat(body.as_str()).concat("}")
}

/// An executed step of a transaction is the step of its mathematical run.
pub open spec fn step_agrees(r: TransactionStep, v: TransactionView) -> bool {
    match v {
        TransactionView::Execute(s) => r matches TransactionStep::Execute(statement) && statement@
            == s,
        TransactionView::Commit => r is Commit,
    }
}

/// The next step of the transaction that applies the modifications of an
/// automation run to a case which is in `current_phase`, given the outcomes
/// of the statements executed so far. `automation_type` is the label that
/// history rows carry (`on_enter`, `on_exit`).
///
/// Without modifications there is nothing to do. With modifications the
/// result is the next statement where the log ends before the run does,
/// and the commit where every statement has its outcome.
pub fn apply_automation_modifications(
    case_id: u128,
    current_phase: &str,
    workflow: &Workflow,
    automation_result: &AutomationResult,
    automation_type: &str,
    log: &[bool],
) -> (r: TransactionStep)
    ensures
        automation_result.modifications@.len() == 0 ==> r is Nothing,
        automation_result.modifications@.len() > 0 ==> step_agrees(
            r,
            transaction_run(
                case_id,
                text_views(workflow.phases@),
                modification_views(automation_result.modifications@),
                automation_type@,
                0,
                current_phase@,
                log@,
                0,
            ),
        ),
{
    let mods = &automation_result.modifications;
    if mods.len() == 0 {
        return TransactionStep::Nothing;
    }
    let ghost phases = text_views(workflow.phases@);
    let ghost views = modification_views(mods@);
    let mut chained: String = current_phase.to_owned();
    let mut pos: usize = 0;
    let mut i: usize = 0;
    while i < mods.len()
        invariant
            i <= mods.len(),
            mods@.len() > 0,
            mods@ == automation_result.modifications@,
            pos <= log@.len(),
            phases == text_views(workflow.phases@),
            views == modification_views(mods@),
            transaction_run(
                case_id,
                phases,
                views,
                automation_type@,
                i as int,
                chained@,
                log@,
                pos as int,
            ) == transaction_run(
                case_id,
                phases,
                views,
                automation_type@,
                0,
                current_phase@,
                log@,
                0,
            ),
        decreases mods.len() - i,
    {
        assert(views[i as int] == mods@[i as int]@);
        match &mods[i] {
            CaseModification::MoveToPhase { phase } => {
                if workflow.has_phase(phase.as_str()) {
                    if pos >= log.len() {
                        return TransactionStep::Execute(
                            Statement::UpdatePhase {
                                case_id,
                                phase: phase.clone(),
                                previous_phase: chained,
                            },
                        );
                    }
                    if !log[pos] {
                        pos = pos + 1;
                    } else {
                        if pos + 1 >= log.len() {
                            let reason = String::from_str(automation_type).concat(" automation");
                            let history = CaseHistory::new(
                                case_id,
                                Some(chained),
                                phase.clone(),
                                Some(reason),
                                Some(String::from_str("system")),
                            );
                            return TransactionStep::Execute(Statement::InsertHistory { history });
                        }
                        chained = phase.clone();
                        pos = pos + 2;
                    }
                }
            },
            CaseModification::SetField { field, value } => {
                match parse_data_path(field.as_str()) {
                    Some(path) => {
                        if pos >= log.len() {
                            return TransactionStep::Execute(
                                Statement::SetDataField { case_id, path, value: value.clone() },
                            );
                        }
                        pos = pos + 1;
                    },
                    None => {},
                }
            },
        }
        i += 1;
    }
    TransactionStep::Commit
}

/// The error for a transaction that could not be started.
pub fn transaction_start_failure() -> (r: ApiError)
    ensures
        r.is(INTERNAL_SERVER_ERROR, "Failed to start transaction"@),
{
    ApiError::new(INTERNAL_SERVER_ERROR, "Failed to start transaction")
}

/// The error for a case whose phase could not be read inside the
/// transaction.
pub fn case_state_failure() -> (r: ApiError)
    ensures
        r.is(INTERNAL_SERVER_ERROR, "Failed to fetch case state"@),
{
    ApiError::new(INTERNAL_SERVER_ERROR, "Failed to fetch case state")
}

/// The message for a transaction that could not be committed.
pub open spec fn commit_failure_message(automation_type: Seq<char>) -> Seq<char> {
    "Failed to commit "@ + automation_type + " automation modifications"@
}

/// The error for a transaction that could not be committed.
pub fn commit_failure(automation_type: &str) -> (r: ApiError)
    ensures
        r.is(INTERNAL_SERVER_ERROR, commit_failure_message(automation_type@)),
{
    ApiError {
        status: INTERNAL_SERVER_ERROR,
        message: String::from_str("Failed to commit ").concat(automation_type).concat(
            " automation modifications",
        ),
    }
}

/// The message for automations that failed.
pub open spec fn automation_failure_message(automation_type: Seq<char>, e: ActionError) -> Seq<
    char,
> {
    "Failed to execute "@ + automation_type + " automations: "@ + error_text(e)
}

/// What follows a finished run of automations: the modifications to apply
/// in a transaction, `None` where there are none, or the error that ends
/// the request where the run failed.
pub fn execute_and_apply_automations(
    outcome: Result<AutomationResult, ActionError>,
    automation_type: &str,
) -> (r: Result<Option<AutomationResult>, ApiError>)
    ensures
        match outcome {
            Ok(result) => if result.modifications@.len() == 0 {
                r matches Ok(None)
            } else {
                r == Ok::<Option<AutomationResult>, ApiError>(Some(result))
            },
            Err(e) => r matches Err(error) && error.is(
                INTERNAL_SERVER_ERROR,
                automation_failure_message(automation_type@, e),
            ),
        },
{
    match outcome {
        Ok(result) => {
            if result.modifications.len() == 0 {
                Ok(None)
            } else {
                Ok(Some(result))
            }
        },
        Err(e) => Err(
            ApiError {
                status: INTERNAL_SERVER_ERROR,
                message: String::from_str("Failed to execute ").concat(automation_type).concat(
                    " automations: ",
                ).concat(e.message().as_str()),
            },
        ),
    }
}

/// What a statement does to a case and its history when it is executed at
/// `now`: `after` and `rows_after` are the case and its history after it.
/// A statement for another case does nothing.
pub open spec fn applied(
    statement: Statement,
    before: Case,
    rows_before: Seq<CaseHistory>,
    now: i64,
    after: Case,
    rows_after: Seq<CaseHistory>,
) -> bool {
    match statement {
        Statement::UpdatePhase { case_id, phase, previous_phase } => {
            &&& rows_after == rows_before
            &&& after == if case_id == before.id {
                Case {
                    current_phase: phase,
                    previous_phase: Some(previous_phase),
                    phase_entered_at: now,
                    updated_at: now,
                    ..before
                }
            } else {
                before
            }
        },
        Statement::InsertHistory { history: row } => {
            &&& after == before
            &&& rows_after == if row.case_id == before.id {
                rows_before.push(row)
            } else {
                rows_before
            }
        },
        Statement::SetDataField { case_id, path, value } => {
            &&& rows_after == rows_before
            &&& if case_id == before.id {
                &&& after.data@ == set_path(before.data@, text_views(path@), 0, value@)
                &&& after.updated_at == now
                &&& after.id == before.id
                &&& after.workflow_id == before.workflow_id
                &&& after.current_phase == before.current_phase
                &&& after.previous_phase == before.previous_phase
                &&& after.status == before.status
                &&& after.metadata == before.metadata
                &&& after.created_at == before.created_at
                &&& after.completed_at == before.completed_at
                &&& after.phase_entered_at == before.phase_entered_at
            } else {
                after == before
            }
        },
    }
}

impl Statement {
    /// What the statement does to a case and its history when it is executed
    /// at `now`. A statement for another case does nothing.
    pub fn apply_to(&self, case: &mut Case, history: &mut Vec<CaseHistory>, now: i64)
        ensures
            applied(*self, *old(case), old(history)@, now, *final(case), final(history)@),
    {
        match self {
            Statement::UpdatePhase { case_id, phase, previous_phase } => {
                if *case_id == case.id {
                    case.current_phase = phase.clone();
                    case.previous_phase = Some(previous_phase.clone());
                    case.phase_entered_at = now;
                    case.updated_at = now;
                }
            },
            Statement::InsertHistory { history: row } => {
                if row.case_id == case.id {
                    history.push(row.duplicate());
                }
            },
            Statement::SetDataField { case_id, path, value } => {
                if *case_id == case.id {
                    let data = set_at_path(&case.data, path, 0, value);
                    case.data = data;
                    case.updated_at = now;
                }
            },
        }
    }
}

/// The history rows of a transaction in which every statement succeeds, as
/// pairs of the phase left and the phase entered, from modification `i` on.
pub open spec fn planned_history(
    phases: Seq<Seq<char>>,
    mods: Seq<ModificationView>,
    i: int,
    chained: Seq<char>,
) -> Seq<(Seq<char>, Seq<char>)>
    decreases mods.len() - i,
{
    if i < 0 || i >= mods.len() {
        Seq::empty()
    } else {
        match mods[i] {
            ModificationView::MoveToPhase { phase } if phases.contains(phase) => seq![
                (chained, phase),
            ] + planned_history(phases, mods, i + 1, phase),
            _ => planned_history(phases, mods, i + 1, chained),
        }
    }
}

/// How many moves from modification `i` on are applied, not skipped.
pub open spec fn applied_moves(phases: Seq<Seq<char>>, mods: Seq<ModificationView>, i: int) -> nat
    decreases mods.len() - i,
{
    if i < 0 || i >= mods.len() {
        0
    } else {
        match mods[i] {
            ModificationView::MoveToPhase { phase } if phases.contains(phase) => 1 + applied_moves(
                phases,
                mods,
                i + 1,
            ),
            _ => applied_moves(phases, mods, i + 1),
        }
    }
}

/// The rows form a chain that begins in `start`: each row leaves the phase
/// that the row before it entered.
pub open spec fn is_chain(rows: Seq<(Seq<char>, Seq<char>)>, start: Seq<char>) -> bool
    decreases rows.len(),
{
    rows.len() == 0 || (rows[0].0 == start && is_chain(rows.drop_first(), rows[0].1))
}

/// The phase that a chain of rows ends in.
pub open spec fn chain_end(rows: Seq<(Seq<char>, Seq<char>)>, start: Seq<char>) -> Seq<char> {
    if rows.len() == 0 {
        start
    } else {
        rows.last().1
    }
}

/// The history rows among the statements, in their order, as pairs of the
/// phase left and the phase entered.
pub open spec fn history_rows(statements: Seq<StatementView>) -> Seq<(Seq<char>, Seq<char>)>
    decreases statements.len(),
{
    if statements.len() == 0 {
        Seq::empty()
    } else {
        let rest = history_rows(statements.drop_first());
        match statements[0] {
            StatementView::InsertHistory { from_phase: Some(from), to_phase, .. } => seq![
                (from, to_phase),
            ] + rest,
            _ => rest,
        }
    }
}

/// A case that is in a phase of its workflow is in a phase of its workflow
/// after the transaction.
pub proof fn lemma_final_phase_is_a_phase(
    phases: Seq<Seq<char>>,
    mods: Seq<ModificationView>,
    i: int,
    chained: Seq<char>,
)
    requires
        phases.contains(chained),
    ensures
        phases.contains(final_phase(phases, mods, i, chained)),
    decreases mods.len() - i,
{
    if 0 <= i < mods.len() {
        match mods[i] {
            ModificationView::MoveToPhase { phase } if phases.contains(phase) => {
                lemma_final_phase_is_a_phase(phases, mods, i + 1, phase);
            },
            _ => {
                lemma_final_phase_is_a_phase(phases, mods, i + 1, chained);
            },
        }
    }
}

/// The history rows of a transaction form a chain from the phase the case
/// was in to the phase it is in afterwards, with exactly one row for every
/// move that was applied, and every row enters a phase of the workflow.
pub proof fn lemma_history_is_a_chain(
    phases: Seq<Seq<char>>,
    mods: Seq<ModificationView>,
    i: int,
    chained: Seq<char>,
)
    ensures
        is_chain(planned_history(phases, mods, i, chained), chained),
        chain_end(planned_history(phases, mods, i, chained), chained) == final_phase(
            phases,
            mods,
            i,
            chained,
        ),
        planned_history(phases, mods, i, chained).len() == applied_moves(phases, mods, i),
        forall|k: int|
            0 <= k < planned_history(phases, mods, i, chained).len() ==> phases.contains(
                (#[trigger] planned_history(phases, mods, i, chained)[k]).1,
            ),
    decreases mods.len() - i,
{
    if 0 <= i < mods.len() {
        match mods[i] {
            ModificationView::MoveToPhase { phase } if phases.contains(phase) => {
                lemma_history_is_a_chain(phases, mods, i + 1, phase);
                let rest = planned_history(phases, mods, i + 1, phase);
                let rows = planned_history(phases, mods, i, chained);
                assert(rows == seq![(chained, phase)] + rest);
                assert(rows.drop_first() =~= rest);
                if rest.len() > 0 {
                    assert(rows.last() == rest.last());
                }
                assert forall|k: int| 0 <= k < rows.len() implies phases.contains(
                    (#[trigger] rows[k]).1,
                ) by {
                    if k > 0 {
                        assert(rows[k] == rest[k - 1]);
                    }
                }
            },
            _ => {
                lemma_history_is_a_chain(phases, mods, i + 1, chained);
            },
        }
    }
}

/// The history rows among the planned statements are the planned history:
/// one row directly after each update of the phase, and no other.
pub proof fn lemma_statements_hold_the_history(
    case_id: u128,
    phases: Seq<Seq<char>>,
    mods: Seq<ModificationView>,
    label: Seq<char>,
    i: int,
    chained: Seq<char>,
)
    ensures
        history_rows(planned_statements(case_id, phases, mods, label, i, chained))
            == planned_history(phases, mods, i, chained),
    decreases mods.len() - i,
{
    if 0 <= i < mods.len() {
        match mods[i] {
            ModificationView::MoveToPhase { phase } => {
                if phases.contains(phase) {
                    lemma_statements_hold_the_history(case_id, phases, mods, label, i + 1, phase);
                    let rest = planned_statements(case_id, phases, mods, label, i + 1, phase);
                    let all = planned_statements(case_id, phases, mods, label, i, chained);
                    let row = StatementView::InsertHistory {
                        case_id,
                        from_phase: Some(chained),
                        to_phase: phase,
                        reason: Some(automation_reason(label)),
                        triggered_by: Some("system"@),
                    };
                    assert(all.drop_first() =~= seq![row] + rest);
                    assert(all.drop_first().drop_first() =~= rest);
                    assert(history_rows(all.drop_first()) == seq![(chained, phase)] + history_rows(
                        rest,
                    ));
                    assert(history_rows(all) =~= planned_history(phases, mods, i, chained));
                } else {
                    lemma_statements_hold_the_history(case_id, phases, mods, label, i + 1, chained);
                }
            },
            ModificationView::SetField { field, value } => {
                lemma_statements_hold_the_history(case_id, phases, mods, label, i + 1, chained);
                match data_path(field) {
                    Some(path) => {
                        let rest = planned_statements(case_id, phases, mods, label, i + 1, chained);
                        let all = planned_statements(case_id, phases, mods, label, i, chained);
                        assert(all.drop_first() =~= rest);
                    },
                    None => {},
                }
            },
        }
    }
}

/// While every statement succeeds, the transaction executes the planned
/// statements one after the other and then commits.
pub proof fn lemma_transaction_follows_plan(
    case_id: u128,
    phases: Seq<Seq<char>>,
    mods: Seq<ModificationView>,
    label: Seq<char>,
    i: int,
    chained: Seq<char>,
    log: Seq<bool>,
    pos: int,
)
    requires
        all_succeeded(log),
        0 <= pos <= log.len(),
    ensures
        transaction_run(case_id, phases, mods, label, i, chained, log, pos) == if log.len() - pos
            < planned_statements(case_id, phases, mods, label, i, chained).len() {
            TransactionView::Execute(
                planned_statements(case_id, phases, mods, label, i, chained)[log.len() - pos],
            )
        } else {
            TransactionView::Commit
        },
    decreases mods.len() - i,
{
    if 0 <= i < mods.len() {
        match mods[i] {
            ModificationView::MoveToPhase { phase } => {
                if !phases.contains(phase) {
                    lemma_transaction_follows_plan(
                        case_id,
                        phases,
                        mods,
                        label,
                        i + 1,
                        chained,
                        log,
                        pos,
                    );
                } else if pos >= log.len() {
                } else if pos + 1 >= log.len() {
                    assert(log[pos]);
                } else {
                    assert(log[pos]);
                    lemma_transaction_follows_plan(
                        case_id,
                        phases,
                        mods,
                        label,
                        i + 1,
                        phase,
                        log,
                        pos + 2,
                    );
                }
            },
            ModificationView::SetField { field, value } => match data_path(field) {
                None => {
                    lemma_transaction_follows_plan(
                        case_id,
                        phases,
                        mods,
                        label,
                        i + 1,
                        chained,
                        log,
                        pos,
                    );
                },
                Some(path) => {
                    if pos < log.len() {
                        lemma_transaction_follows_plan(
                            case_id,
                            phases,
                            mods,
                            label,
                            i + 1,
                            chained,
                            log,
                            pos + 1,
                        );
                    }
                },
            },
        }
    }
}

/// A transaction that has reached its commit stays there when the log
/// grows: outcomes that come later ask for no further statement.
pub proof fn lemma_commit_is_settled(
    case_id: u128,
    phases: Seq<Seq<char>>,
    mods: Seq<ModificationView>,
    label: Seq<char>,
    i: int,
    chained: Seq<char>,
    log: Seq<bool>,
    more: Seq<bool>,
    pos: int,
)
    requires
        0 <= pos <= log.len(),
        transaction_run(case_id, phases, mods, label, i, chained, log, pos) is Commit,
    ensures
        transaction_run(case_id, phases, mods, label, i, chained, log + more, pos) is Commit,
    decreases mods.len() - i,
{
    if 0 <= i < mods.len() {
        if pos < log.len() {
            assert((log + more)[pos] == log[pos]);
        }
        if pos + 1 < log.len() {
            assert((log + more)[pos + 1] == log[pos + 1]);
        }
        match mods[i] {
            ModificationView::MoveToPhase { phase } => {
                if !phases.contains(phase) {
                    lemma_commit_is_settled(
                        case_id,
                        phases,
                        mods,
                        label,
                        i + 1,
                        chained,
                        log,
                        more,
                        pos,
                    );
                } else if !log[pos] {
                    lemma_commit_is_settled(
                        case_id,
                        phases,
                        mods,
                        label,
                        i + 1,
                        chained,
                        log,
                        more,
                        pos + 1,
                    );
                } else {
                    lemma_commit_is_settled(
                        case_id,
                        phases,
                        mods,
                        label,
                        i + 1,
                        phase,
                        log,
                        more,
                        pos + 2,
                    );
                }
            },
            ModificationView::SetField { field, value } => match data_path(field) {
                None => {
                    lemma_commit_is_settled(
                        case_id,
                        phases,
                        mods,
                        label,
                        i + 1,
                        chained,
                        log,
                        more,
                        pos,
                    );
                },
                Some(_) => {
                    lemma_commit_is_settled(
                        case_id,
                        phases,
                        mods,
                        label,
                        i + 1,
                        chained,
                        log,
                        more,
                        pos + 1,
                    );
                },
            },
        }
    }
}

} // verus!
