//! Cases and their history.

use crate::ident::{fresh_id, now_micros};
use crate::json::{insert_member, members_view, with_member, Json, JsonView};
use crate::text::copy_optional;
use vstd::prelude::*;

verus! {

/// Where a case stands in its life.
#[derive(Debug, Clone, Copy, PartialEq, Eq, Structural)]
pub enum CaseStatus {
    Active,
    Completed,
    Failed,
    Paused,
}

impl CaseStatus {
    /// The status in lower case.
    pub open spec fn text(self) -> Seq<char> {
        match self {
            CaseStatus::Active => "active"@,
            CaseStatus::Completed => "completed"@,
            CaseStatus::Failed => "failed"@,
            CaseStatus::Paused => "paused"@,
        }
    }

    /// The status in lower case.
    pub fn as_str(&self) -> (r: &'static str)
        ensures
            r@ == self.text(),
    {
        match self {
            CaseStatus::Active => "active",
            CaseStatus::Completed => "completed",
            CaseStatus::Failed => "failed",
            CaseStatus::Paused => "paused",
        }
    }
}

/// An instance of a workflow: JSON data and a current phase.
#[derive(Debug, Clone)]
pub struct Case {
    pub id: u128,
    pub workflow_id: u128,
    pub current_phase: String,
    pub previous_phase: Option<String>,
    pub data: Json,
    pub status: CaseStatus,
    pub metadata: Option<Json>,
    pub created_at: i64,
    pub updated_at: i64,
    pub completed_at: Option<i64>,
    pub phase_entered_at: i64,
}

/// One transition of a case; the first has no `from_phase`.
#[derive(Debug, Clone)]
pub struct CaseHistory {
    pub id: u128,
    pub case_id: u128,
    pub from_phase: Option<String>,
    pub to_phase: String,
    pub reason: Option<String>,
    pub triggered_by: Option<String>,
    pub transitioned_at: i64,
}

/// What a caller submits to create a case.
#[derive(Debug, Clone)]
pub struct CreateCase {
    pub workflow_id: u128,
    pub data: Json,
    pub metadata: Option<Json>,
    pub initial_phase: Option<String>,
}

/// What a caller submits to replace the data of a case.
#[derive(Debug, Clone)]
pub struct UpdateCaseData {
    pub data: Json,
}

/// What a caller submits to move a case.
#[derive(Debug, Clone)]
pub struct MoveCase {
    pub to_phase: String,
    pub reason: Option<String>,
    pub triggered_by: Option<String>,
}

/// The filters and the page of a listing of cases.
#[derive(Debug, Clone)]
pub struct ListCasesQuery {
    pub workflow_id: Option<u128>,
    pub current_phase: Option<String>,
    pub status: Option<CaseStatus>,
    pub limit: Option<i64>,
    pub offset: Option<i64>,
}

/// The members of `base` after the first `n` members of `extra` were set
/// among them, one after the other.
pub open spec fn merged_members(
    base: Seq<(Seq<char>, JsonView)>,
    extra: Seq<(Seq<char>, JsonView)>,
    n: int,
) -> Seq<(Seq<char>, JsonView)>
    decreases n,
{
    if n <= 0 || n > extra.len() {
        base
    } else {
        with_member(merged_members(base, extra, n - 1), extra[n - 1].0, extra[n - 1].1)
    }
}

/// The data of a case after an update: where both are objects, the old
/// members with each new member set among them; else the old data.
pub open spec fn merged_data(old_data: JsonView, new_data: JsonView) -> JsonView {
    match (old_data, new_data) {
        (JsonView::Object(base), JsonView::Object(extra)) => JsonView::Object(
            merged_members(base, extra, extra.len() as int),
        ),
        _ => old_data,
    }
}

impl Case {
    /// An active case in its first phase, with the given identifier, created
    /// at `now`.
    pub fn assemble(
        id: u128,
        now: i64,
        workflow_id: u128,
        initial_phase: String,
        data: Json,
        metadata: Option<Json>,
    ) -> (r: Case)
        ensures
            r == (Case {
                id,
                workflow_id,
                current_phase: initial_phase,
                previous_phase: None,
                data,
                status: CaseStatus::Active,
                metadata,
                created_at: now,
                updated_at: now,
                completed_at: None,
                phase_entered_at: now,
            }),
    {
        Case {
            id,
            workflow_id,
            current_phase: initial_phase,
            previous_phase: None,
            data,
            status: CaseStatus::Active,
            metadata,
            created_at: now,
            updated_at: now,
            completed_at: None,
            phase_entered_at: now,
        }
    }

    /// An active case in its first phase, with a fresh identifier, created
    /// now.
    pub fn new(workflow_id: u128, initial_phase: String, data: Json, metadata: Option<Json>) -> (r:
        Case)
        ensures
            r.workflow_id == workflow_id,
            r.current_phase == initial_phase,
            r.previous_phase is None,
            r.data == data,
            r.status == CaseStatus::Active,
            r.metadata == metadata,
            r.created_at == r.updated_at,
            r.phase_entered_at == r.created_at,
            r.completed_at is None,
    {
        let id = fresh_id();
        let now = now_micros();
        Case::assemble(id, now, workflow_id, initial_phase, data, metadata)
    }

    /// Moves the case to `new_phase` at `now`: the phase it leaves becomes
    /// its previous phase.
    pub fn move_to_phase_at(&mut self, new_phase: String, now: i64)
        ensures
            *final(self) == (Case {
                current_phase: new_phase,
                previous_phase: Some(old(self).current_phase),
                updated_at: now,
                phase_entered_at: now,
                ..*old(self)
            }),
    {
        self.previous_phase = Some(self.current_phase.clone());
        self.current_phase = new_phase;
        self.updated_at = now;
        self.phase_entered_at = now;
    }

    /// Moves the case to `new_phase` now.
    pub fn move_to_phase(&mut self, new_phase: String)
        ensures
            final(self).current_phase == new_phase,
            final(self).previous_phase == Some(old(self).current_phase),
            final(self).phase_entered_at == final(self).updated_at,
            final(self).id == old(self).id,
            final(self).workflow_id == old(self).workflow_id,
            final(self).data == old(self).data,
            final(self).status == old(self).status,
            final(self).metadata == old(self).metadata,
            final(self).created_at == old(self).created_at,
            final(self).completed_at == old(self).completed_at,
    {
        let now = now_micros();
        self.move_to_phase_at(new_phase, now);
    }

    /// Sets each member of `new_data` among the members of the case's data,
    /// where both are objects, and stamps the change with `now`.
    pub fn update_data_at(&mut self, new_data: Json, now: i64)
        ensures
            final(self).data@ == merged_data(old(self).data@, new_data@),
            final(self).updated_at == now,
            final(self).id == old(self).id,
            final(self).workflow_id == old(self).workflow_id,
            final(self).current_phase == old(self).current_phase,
            final(self).previous_phase == old(self).previous_phase,
            final(self).status == old(self).status,
            final(self).metadata == old(self).metadata,
            final(self).created_at == old(self).created_at,
            final(self).completed_at == old(self).completed_at,
            final(self).phase_entered_at == old(self).phase_entered_at,
    {
        self.updated_at = now;
        let merged = match (&self.data, new_data) {
            (Json::Object(base), Json::Object(extra)) => {
                proof {
                    self.data.lemma_object_view();
                    Json::Object(extra).lemma_object_view();
                }
                let mut members: Vec<(String, Json)> = Vec::new();
                let mut k: usize = 0;
                while k < base.len()
                    invariant
                        k <= base.len(),
                        members_view(members@) == members_view(base@).take(k as int),
                    decreases base.len() - k,
                {
                    let ghost before = members_view(members@);
                    members.push((base[k].0.clone(), base[k].1.clone()));
                    assert(members_view(members@) =~= before.push(members_view(base@)[k as int]));
                    assert(members_view(base@).take(k + 1) =~= before.push(
                        members_view(base@)[k as int],
                    ));
                    k += 1;
                }
                assert(members_view(base@).take(k as int) =~= members_view(base@));
                let mut i: usize = 0;
                while i < extra.len()
                    invariant
                        i <= extra.len(),
                        members_view(members@) == merged_members(
                            members_view(base@),
                            members_view(extra@),
                            i as int,
                        ),
                    decreases extra.len() - i,
                {
                    insert_member(&mut members, extra[i].0.clone(), extra[i].1.clone());
                    i += 1;
                }
                let merged = Json::Object(members);
                proof {
                    merged.lemma_object_view();
                }
                Some(merged)
            },
            _ => None,
        };
        if let Some(data) = merged {
            self.data = data;
        }
    }

    /// Sets each member of `new_data` among the members of the case's data,
    /// where both are objects, and stamps the change with the time now.
    pub fn update_data(&mut self, new_data: Json)
        ensures
            final(self).data@ == merged_data(old(self).data@, new_data@),
            final(self).id == old(self).id,
            final(self).workflow_id == old(self).workflow_id,
            final(self).current_phase == old(self).current_phase,
            final(self).previous_phase == old(self).previous_phase,
            final(self).status == old(self).status,
            final(self).metadata == old(self).metadata,
            final(self).created_at == old(self).created_at,
            final(self).completed_at == old(self).completed_at,
            final(self).phase_entered_at == old(self).phase_entered_at,
    {
        let now = now_micros();
        self.update_data_at(new_data, now);
    }

    /// Ends the case with the given status at `now`.
    pub fn close_at(&mut self, status: CaseStatus, now: i64)
        ensures
            *final(self) == (Case {
                status,
                completed_at: Some(now),
                updated_at: now,
                ..*old(self)
            }),
    {
        self.status = status;
        self.completed_at = Some(now);
        self.updated_at = now;
    }

    /// Marks the case completed, now.
    pub fn complete(&mut self)
        ensures
            final(self).status == CaseStatus::Completed,
            final(self).completed_at == Some(final(self).updated_at),
            final(self).id == old(self).id,
            final(self).workflow_id == old(self).workflow_id,
            final(self).current_phase == old(self).current_phase,
            final(self).previous_phase == old(self).previous_phase,
            final(self).data == old(self).data,
            final(self).metadata == old(self).metadata,
            final(self).created_at == old(self).created_at,
            final(self).phase_entered_at == old(self).phase_entered_at,
    {
        let now = now_micros();
        self.close_at(CaseStatus::Completed, now);
    }

    /// Marks the case failed, now.
    pub fn fail(&mut self)
        ensures
            final(self).status == CaseStatus::Failed,
            final(self).completed_at == Some(final(self).updated_at),
            final(self).id == old(self).id,
            final(self).workflow_id == old(self).workflow_id,
            final(self).current_phase == old(self).current_phase,
            final(self).previous_phase == old(self).previous_phase,
            final(self).data == old(self).data,
            final(self).metadata == old(self).metadata,
            final(self).created_at == old(self).created_at,
            final(self).phase_entered_at == old(self).phase_entered_at,
    {
        let now = now_micros();
        self.close_at(CaseStatus::Failed, now);
    }
}

impl CaseHistory {
    /// A copy of the row.
    pub fn duplicate(&self) -> (r: CaseHistory)
        ensures
            r == *self,
    {
        CaseHistory {
            id: self.id,
            case_id: self.case_id,
            from_phase: copy_optional(&self.from_phase),
            to_phase: self.to_phase.clone(),
            reason: copy_optional(&self.reason),
            triggered_by: copy_optional(&self.triggered_by),
            transitioned_at: self.transitioned_at,
        }
    }

    /// The record of a transition, with the given identifier, made at `now`.
    pub fn assemble(
        id: u128,
        now: i64,
        case_id: u128,
        from_phase: Option<String>,
        to_phase: String,
        reason: Option<String>,
        triggered_by: Option<String>,
    ) -> (r: CaseHistory)
        ensures
            r == (CaseHistory {
                id,
                case_id,
                from_phase,
                to_phase,
                reason,
                triggered_by,
                transitioned_at: now,
            }),
    {
        CaseHistory { id, case_id, from_phase, to_phase, reason, triggered_by, transitioned_at: now }
    }

    /// The record of a transition, with a fresh identifier, made now.
    pub fn new(
        case_id: u128,
        from_phase: Option<String>,
        to_phase: String,
        reason: Option<String>,
        triggered_by: Option<String>,
    ) -> (r: CaseHistory)
        ensures
            r.case_id == case_id,
            r.from_phase == from_phase,
            r.to_phase == to_phase,
            r.reason == reason,
            r.triggered_by == triggered_by,
    {
        let id = fresh_id();
        let now = now_micros();
        CaseHistory::assemble(id, now, case_id, from_phase, to_phase, reason, triggered_by)
    }
}

} // verus!
