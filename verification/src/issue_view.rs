use vstd::prelude::*;
use crate::error::AppError;
use crate::issue_edit::{read_issue_key, IssueKey};
use crate::issue_key::{display_key, display_key_of, issue_key_parts};

verus! {

/// An issue with everything its detail view shows.
pub struct IssueFullRow {
    pub id: u128,
    pub project_id: u128,
    pub project_key: String,
    pub key_seq: i32,
    pub title: String,
    pub description: Option<String>,
    pub status_slug: String,
    pub workflow_status_id: u128,
    pub status_name: String,
    pub status_category: String,
    pub is_blocked: bool,
    pub priority: String,
    pub assignee_id: Option<u128>,
    pub assignee_name: Option<String>,
    /// Microseconds since the Unix epoch.
    pub created_at: i64,
    /// Microseconds since the Unix epoch.
    pub updated_at: i64,
}

/// The detail view of an issue.
pub struct IssueDetailResponse {
    pub issue_id: u128,
    pub display_key: String,
    pub title: String,
    pub description: Option<String>,
    pub status: String,
    pub workflow_status_id: u128,
    pub status_name: String,
    pub status_category: String,
    pub is_blocked: bool,
    pub priority: String,
    pub assignee_id: Option<u128>,
    pub assignee_name: Option<String>,
    pub project_id: u128,
    pub created_at: i64,
    pub updated_at: i64,
}

/// `d` shows the issue `row`.
pub open spec fn detail_shows(d: IssueDetailResponse, row: IssueFullRow) -> bool {
    &&& d.issue_id == row.id
    &&& d.display_key@ == display_key_of(row.project_key@, row.key_seq as int)
    &&& d.title == row.title
    &&& d.description == row.description
    &&& d.status == row.status_slug
    &&& d.workflow_status_id == row.workflow_status_id
    &&& d.status_name == row.status_name
    &&& d.status_category == row.status_category
    &&& d.is_blocked == row.is_blocked
    &&& d.priority == row.priority
    &&& d.assignee_id == row.assignee_id
    &&& d.assignee_name == row.assignee_name
    &&& d.project_id == row.project_id
    &&& d.created_at == row.created_at
    &&& d.updated_at == row.updated_at
}

/// The detail view of an issue.
pub fn detail_from_row(row: IssueFullRow) -> (d: IssueDetailResponse)
    ensures
        detail_shows(d, row),
{
    let display_key = display_key(row.project_key.as_str(), row.key_seq);
    IssueDetailResponse {
        issue_id: row.id,
        display_key,
        title: row.title,
        description: row.description,
        status: row.status_slug,
        workflow_status_id: row.workflow_status_id,
        status_name: row.status_name,
        status_category: row.status_category,
        is_blocked: row.is_blocked,
        priority: row.priority,
        assignee_id: row.assignee_id,
        assignee_name: row.assignee_name,
        project_id: row.project_id,
        created_at: row.created_at,
        updated_at: row.updated_at,
    }
}

/// Where the reading of an issue stands.
pub enum GetIssueStep {
    AwaitIssue,
    AwaitMember { row: IssueFullRow },
    Finished,
}

/// What the outside world reports back; `None` stands for a failed database call.
pub enum GetIssueEvent {
    IssueFound(Option<Option<IssueFullRow>>),
    MemberChecked(Option<bool>),
}

/// Where to find the issue.
pub enum IssueLocation {
    ById { issue_id: u128 },
    ByKey { org_slug: String, key: IssueKey },
}

/// What the reading asks for next.
pub enum GetIssueAction {
    /// The issue at this location.
    FindIssue(IssueLocation),
    CheckMember { project_id: u128, user_id: u128 },
    Respond(Result<IssueDetailResponse, AppError>),
}

/// The reading of one issue by `user_id`.
pub struct GetIssueFlow {
    pub user_id: u128,
    pub step: GetIssueStep,
}

/// The decision table of the reading of an issue.
pub open spec fn get_issue_next(before: GetIssueFlow, event: GetIssueEvent, after: GetIssueFlow, action: GetIssueAction) -> bool {
    match (before.step, event) {
        (GetIssueStep::AwaitIssue, GetIssueEvent::IssueFound(Some(None))) => after.step is Finished && action
            == GetIssueAction::Respond(Err(AppError::NotFound)),
        (GetIssueStep::AwaitIssue, GetIssueEvent::IssueFound(Some(Some(row)))) => after.step == (GetIssueStep::AwaitMember { row })
            && action == (GetIssueAction::CheckMember { project_id: row.project_id, user_id: before.user_id }),
        (GetIssueStep::AwaitMember { .. }, GetIssueEvent::MemberChecked(Some(false))) => after.step is Finished && action
            == GetIssueAction::Respond(Err(AppError::Forbidden)),
        (GetIssueStep::AwaitMember { row }, GetIssueEvent::MemberChecked(Some(true))) => after.step is Finished && (
        action matches GetIssueAction::Respond(Ok(d)) && detail_shows(d, row)),
        _ => after.step is Finished && action == GetIssueAction::Respond(Err(AppError::Internal)),
    }
}

impl GetIssueFlow {
    /// Starts reading the issue `issue_id`.
    pub fn start_by_id(issue_id: u128, user_id: u128) -> (r: (GetIssueFlow, GetIssueAction))
        ensures
            r.0.user_id == user_id && r.0.step is AwaitIssue,
            r.1 == GetIssueAction::FindIssue(IssueLocation::ById { issue_id }),
    {
        (GetIssueFlow { user_id, step: GetIssueStep::AwaitIssue }, GetIssueAction::FindIssue(IssueLocation::ById { issue_id }))
    }

    /// Starts reading the issue with this key; a key that is not one is refused at once.
    pub fn start_by_key(org_slug: String, issue_key: &str, user_id: u128) -> (r: (GetIssueFlow, GetIssueAction))
        ensures
            r.0.user_id == user_id,
            match issue_key_parts(issue_key@) {
                None => r.0.step is Finished && r.1 == GetIssueAction::Respond(Err(AppError::BadRequest(Some("invalid issue key")))),
                Some(parts) => r.0.step is AwaitIssue && (r.1 matches GetIssueAction::FindIssue(IssueLocation::ByKey { org_slug: o, key })
                    && o == org_slug && key.project_key@ == parts.0 && key.key_seq == parts.1),
            },
    {
        match read_issue_key(issue_key) {
            Err(e) => (GetIssueFlow { user_id, step: GetIssueStep::Finished }, GetIssueAction::Respond(Err(e))),
            Ok(key) => (
                GetIssueFlow { user_id, step: GetIssueStep::AwaitIssue },
                GetIssueAction::FindIssue(IssueLocation::ByKey { org_slug, key }),
            ),
        }
    }

    /// Takes in what the outside world reports and says what to do next.
    pub fn step(&mut self, event: GetIssueEvent) -> (action: GetIssueAction)
        ensures
            final(self).user_id == old(self).user_id,
            get_issue_next(*old(self), event, *final(self), action),
    {
        let mut step = GetIssueStep::Finished;
        std::mem::swap(&mut step, &mut self.step);
        match (step, event) {
            (GetIssueStep::AwaitIssue, GetIssueEvent::IssueFound(Some(None))) => GetIssueAction::Respond(Err(AppError::NotFound)),
            (GetIssueStep::AwaitIssue, GetIssueEvent::IssueFound(Some(Some(row)))) => {
                let project_id = row.project_id;
                self.step = GetIssueStep::AwaitMember { row };
                GetIssueAction::CheckMember { project_id, user_id: self.user_id }
            },
            (GetIssueStep::AwaitMember { .. }, GetIssueEvent::MemberChecked(Some(false))) => GetIssueAction::Respond(
                Err(AppError::Forbidden),
            ),
            (GetIssueStep::AwaitMember { row }, GetIssueEvent::MemberChecked(Some(true))) => GetIssueAction::Respond(
                Ok(detail_from_row(row)),
            ),
            _ => GetIssueAction::Respond(Err(AppError::Internal)),
        }
    }
}

/// How the assignee of an issue changes.
#[derive(Debug, Clone, Copy, PartialEq, Eq, Structural)]
pub enum AssignKind {
    /// Assign the given user, who must be a member of the project (else `BadRequest`).
    AssignUser { assignee_id: u128 },
    /// Assign the requester, who must be a member of the project (else `Forbidden`); record an `assigned` event.
    AssignMe,
    /// Clear the assignee; the requester must be a member of the project (else
    /// `Forbidden`); record an `unassigned` event.
    Unassign,
}

/// An issue found in an organization: its id and project.
pub struct IssueIdRow {
    pub issue_id: u128,
    pub project_id: u128,
}

/// The request to assign an issue to a user.
pub struct AssignIssueRequest {
    pub user_id: u128,
}

/// Where a change of assignee stands.
pub enum AssignStep {
    AwaitOrg,
    AwaitIssue { org_id: u128 },
    AwaitMember { org_id: u128, issue_id: u128 },
    AwaitUpdate { org_id: u128, issue_id: u128 },
    AwaitEvent,
    Finished,
}

/// What the outside world reports back; `None` (or `false` for `Updated`)
/// stands for a failed database call.
pub enum AssignEvent {
    OrgFound(Option<Option<u128>>),
    IssueFound(Option<Option<IssueIdRow>>),
    MemberChecked(Option<bool>),
    Updated(bool),
    /// The activity event was recorded, or not: either way the change stands.
    EventRecorded,
}

/// What the change of assignee asks for next.
pub enum AssignAction {
    FindOrg { org_slug: String },
    FindIssue { org_id: u128, project_key: String, key_seq: i32 },
    CheckMember { project_id: u128, user_id: u128 },
    SetAssignee { issue_id: u128, assignee_id: u128 },
    ClearAssignee { issue_id: u128 },
    /// Record that `actor_id` assigned `assignee_id` (payload `{"assignee_id": …}`).
    RecordAssigned { org_id: u128, issue_id: u128, actor_id: u128, assignee_id: u128 },
    /// Record that `actor_id` cleared the assignee (payload `{}`).
    RecordUnassigned { org_id: u128, issue_id: u128, actor_id: u128 },
    /// Answer: `Ok` is `204 No Content`.
    Respond(Result<(), AppError>),
}

/// A change of the assignee of the issue `key` by `actor_id`.
pub struct AssignFlow {
    pub org_slug: String,
    pub key: IssueKey,
    pub actor_id: u128,
    pub kind: AssignKind,
    pub step: AssignStep,
}

/// The user whose membership of the project a change checks: the user it
/// assigns, or the requester when clearing the assignee.
pub open spec fn new_assignee(f: AssignFlow) -> u128 {
    match f.kind {
        AssignKind::AssignUser { assignee_id } => assignee_id,
        _ => f.actor_id,
    }
}

/// The decision table of a change of assignee.
pub open spec fn assign_next(before: AssignFlow, event: AssignEvent, after: AssignFlow, action: AssignAction) -> bool {
    match (before.step, event) {
        (AssignStep::AwaitOrg, AssignEvent::OrgFound(Some(None))) => after.step is Finished && action == AssignAction::Respond(
            Err(AppError::NotFound),
        ),
        (AssignStep::AwaitOrg, AssignEvent::OrgFound(Some(Some(org_id)))) => after.step == (AssignStep::AwaitIssue { org_id })
            && action == (AssignAction::FindIssue { org_id, project_key: before.key.project_key, key_seq: before.key.key_seq }),
        (AssignStep::AwaitIssue { .. }, AssignEvent::IssueFound(Some(None))) => after.step is Finished && action
            == AssignAction::Respond(Err(AppError::NotFound)),
        (AssignStep::AwaitIssue { org_id }, AssignEvent::IssueFound(Some(Some(row)))) => after.step
            == (AssignStep::AwaitMember { org_id, issue_id: row.issue_id }) && action == (AssignAction::CheckMember {
            project_id: row.project_id,
            user_id: new_assignee(before),
        }),
        (AssignStep::AwaitMember { .. }, AssignEvent::MemberChecked(Some(false))) => after.step is Finished && action
            == AssignAction::Respond(
            Err(
                if !(before.kind is AssignUser) {
                    AppError::Forbidden
                } else {
                    AppError::BadRequest(Some("assignee must be a project member"))
                },
            ),
        ),
        (AssignStep::AwaitMember { org_id, issue_id }, AssignEvent::MemberChecked(Some(true))) => after.step
            == (AssignStep::AwaitUpdate { org_id, issue_id }) && action == (if before.kind is Unassign {
            AssignAction::ClearAssignee { issue_id }
        } else {
            AssignAction::SetAssignee { issue_id, assignee_id: new_assignee(before) }
        }),
        (AssignStep::AwaitUpdate { org_id, issue_id }, AssignEvent::Updated(true)) => match before.kind {
            AssignKind::AssignUser { .. } => after.step is Finished && action == AssignAction::Respond(Ok(())),
            AssignKind::AssignMe => after.step is AwaitEvent && action == (AssignAction::RecordAssigned {
                org_id,
                issue_id,
                actor_id: before.actor_id,
                assignee_id: before.actor_id,
            }),
            AssignKind::Unassign => after.step is AwaitEvent && action == (AssignAction::RecordUnassigned {
                org_id,
                issue_id,
                actor_id: before.actor_id,
            }),
        },
        (AssignStep::AwaitEvent, AssignEvent::EventRecorded) => after.step is Finished && action == AssignAction::Respond(Ok(())),
        _ => after.step is Finished && action == AssignAction::Respond(Err(AppError::Internal)),
    }
}

impl AssignFlow {
    /// Starts a change of assignee; a key that is not one is refused at once.
    pub fn start(org_slug: String, issue_key: &str, actor_id: u128, kind: AssignKind) -> (r: (Option<AssignFlow>, AssignAction))
        ensures
            match issue_key_parts(issue_key@) {
                None => r.0 is None && r.1 == AssignAction::Respond(Err(AppError::BadRequest(Some("invalid issue key")))),
                Some(parts) => r.0 matches Some(f) && f.org_slug == org_slug && f.key.project_key@ == parts.0
                    && f.key.key_seq == parts.1 && f.actor_id == actor_id && f.kind == kind && f.step is AwaitOrg && r.1
                    == (AssignAction::FindOrg { org_slug }),
            },
    {
        match read_issue_key(issue_key) {
            Err(e) => (None, AssignAction::Respond(Err(e))),
            Ok(key) => {
                let a = AssignAction::FindOrg { org_slug: org_slug.clone() };
                (Some(AssignFlow { org_slug, key, actor_id, kind, step: AssignStep::AwaitOrg }), a)
            },
        }
    }

    /// Takes in what the outside world reports and says what to do next.
    pub fn step(&mut self, event: AssignEvent) -> (action: AssignAction)
        ensures
            final(self).org_slug == old(self).org_slug && final(self).key == old(self).key
                && final(self).actor_id == old(self).actor_id && final(self).kind == old(self).kind,
            assign_next(*old(self), event, *final(self), action),
    {
        let mut step = AssignStep::Finished;
        std::mem::swap(&mut step, &mut self.step);
        let assignee = match self.kind {
            AssignKind::AssignUser { assignee_id } => assignee_id,
            _ => self.actor_id,
        };
        match (step, event) {
            (AssignStep::AwaitOrg, AssignEvent::OrgFound(Some(None))) => AssignAction::Respond(Err(AppError::NotFound)),
            (AssignStep::AwaitOrg, AssignEvent::OrgFound(Some(Some(org_id)))) => {
                self.step = AssignStep::AwaitIssue { org_id };
                AssignAction::FindIssue { org_id, project_key: self.key.project_key.clone(), key_seq: self.key.key_seq }
            },
            (AssignStep::AwaitIssue { .. }, AssignEvent::IssueFound(Some(None))) => AssignAction::Respond(Err(AppError::NotFound)),
            (AssignStep::AwaitIssue { org_id }, AssignEvent::IssueFound(Some(Some(row)))) => {
                self.step = AssignStep::AwaitMember { org_id, issue_id: row.issue_id };
                AssignAction::CheckMember { project_id: row.project_id, user_id: assignee }
            },
            (AssignStep::AwaitMember { .. }, AssignEvent::MemberChecked(Some(false))) => {
                match self.kind {
                    AssignKind::AssignUser { .. } => AssignAction::Respond(
                        Err(AppError::BadRequest(Some("assignee must be a project member"))),
                    ),
                    _ => AssignAction::Respond(Err(AppError::Forbidden)),
                }
            },
            (AssignStep::AwaitMember { org_id, issue_id }, AssignEvent::MemberChecked(Some(true))) => {
                self.step = AssignStep::AwaitUpdate { org_id, issue_id };
                match self.kind {
                    AssignKind::Unassign => AssignAction::ClearAssignee { issue_id },
                    _ => AssignAction::SetAssignee { issue_id, assignee_id: assignee },
                }
            },
            (AssignStep::AwaitUpdate { org_id, issue_id }, AssignEvent::Updated(true)) => {
                match self.kind {
                    AssignKind::AssignUser { .. } => AssignAction::Respond(Ok(())),
                    AssignKind::AssignMe => {
                        self.step = AssignStep::AwaitEvent;
                        AssignAction::RecordAssigned { org_id, issue_id, actor_id: self.actor_id, assignee_id: self.actor_id }
                    },
                    AssignKind::Unassign => {
                        self.step = AssignStep::AwaitEvent;
                        AssignAction::RecordUnassigned { org_id, issue_id, actor_id: self.actor_id }
                    },
                }
            },
            (AssignStep::AwaitEvent, AssignEvent::EventRecorded) => AssignAction::Respond(Ok(())),
            _ => AssignAction::Respond(Err(AppError::Internal)),
        }
    }
}

/// An issue is given an assignee only after that assignee was checked to be a
/// member of the issue's project.
pub proof fn lemma_assignee_is_checked_member(before: AssignFlow, event: AssignEvent, after: AssignFlow, action: AssignAction)
    requires
        assign_next(before, event, after, action),
        action is SetAssignee,
    ensures
        before.step is AwaitMember,
        event == AssignEvent::MemberChecked(Some(true)),
        action->SetAssignee_assignee_id == new_assignee(before),
{
}

/// The assignee of an issue is cleared only after the requester was checked to
/// be a member of the issue's project.
pub proof fn lemma_unassign_needs_membership(before: AssignFlow, event: AssignEvent, after: AssignFlow, action: AssignAction)
    requires
        assign_next(before, event, after, action),
        action is ClearAssignee,
    ensures
        before.step is AwaitMember,
        event == AssignEvent::MemberChecked(Some(true)),
        before.kind is Unassign,
        new_assignee(before) == before.actor_id,
{
}

} // verus!
