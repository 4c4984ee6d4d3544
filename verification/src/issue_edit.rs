use vstd::prelude::*;
use crate::error::AppError;
use crate::issue_key::{issue_key_parts, parse_issue_key};
use crate::text::str_eq;

verus! {

/// An issue key, read from its text: the project key and the number.
pub struct IssueKey {
    pub project_key: String,
    pub key_seq: i32,
}

/// Reads an issue key (`BadRequest("invalid issue key")` when it is not one).
pub fn read_issue_key(key: &str) -> (r: Result<IssueKey, AppError>)
    ensures
        match issue_key_parts(key@) {
            Some(parts) => r matches Ok(k) && k.project_key@ == parts.0 && k.key_seq == parts.1,
            None => r == Err::<IssueKey, AppError>(AppError::BadRequest(Some("invalid issue key"))),
        },
{
    match parse_issue_key(key) {
        Some((pk, seq)) => Ok(IssueKey { project_key: pk.to_string(), key_seq: seq }),
        None => Err(AppError::BadRequest(Some("invalid issue key"))),
    }
}

/// The priorities that an issue may be given by an update.
pub open spec fn allowed_priority(p: Seq<char>) -> bool {
    p == "critical"@ || p == "high"@ || p == "medium"@ || p == "low"@
}

/// Whether a priority may be given by an update.
pub fn is_allowed_priority(p: &str) -> (r: bool)
    ensures
        r == allowed_priority(p@),
{
    str_eq(p, "critical") || str_eq(p, "high") || str_eq(p, "medium") || str_eq(p, "low")
}

/// The request to update an issue's fields.
pub struct UpdateIssueRequest {
    pub title: Option<String>,
    pub description: Option<String>,
    pub priority: Option<String>,
}

/// The stored fields of an issue to update.
pub struct IssuePatchRow {
    pub issue_id: u128,
    pub project_id: u128,
    pub title: String,
    pub description: Option<String>,
    pub priority: String,
}

/// The answer to an update: the fields as stored.
pub struct UpdateIssueResponse {
    pub issue_id: u128,
    pub title: String,
    pub description: Option<String>,
    pub priority: String,
}

/// The fields after an update: each requested field replaces the stored one.
pub open spec fn merged(req: UpdateIssueRequest, row: IssuePatchRow) -> UpdateIssueResponse {
    UpdateIssueResponse {
        issue_id: row.issue_id,
        title: match req.title {
            Some(t) => t,
            None => row.title,
        },
        description: match req.description {
            Some(d) => Some(d),
            None => row.description,
        },
        priority: match req.priority {
            Some(p) => p,
            None => row.priority,
        },
    }
}

fn merge_fields(req: &UpdateIssueRequest, row: &IssuePatchRow) -> (r: UpdateIssueResponse)
    ensures
        r == merged(*req, *row),
{
    UpdateIssueResponse {
        issue_id: row.issue_id,
        title: match &req.title {
            Some(t) => t.clone(),
            None => row.title.clone(),
        },
        description: match &req.description {
            Some(d) => Some(d.clone()),
            None => match &row.description {
                Some(d) => Some(d.clone()),
                None => None,
            },
        },
        priority: match &req.priority {
            Some(p) => p.clone(),
            None => row.priority.clone(),
        },
    }
}

/// Where an issue update stands.
pub enum UpdateIssueStep {
    AwaitOrg,
    AwaitIssue,
    AwaitMember { row: IssuePatchRow },
    AwaitUpdate { fields: UpdateIssueResponse },
    Finished,
}

/// What the outside world reports back; `None` (or `false` for `Updated`)
/// stands for a failed database call.
pub enum UpdateIssueEvent {
    OrgFound(Option<Option<u128>>),
    IssueFound(Option<Option<IssuePatchRow>>),
    MemberChecked(Option<bool>),
    Updated(bool),
}

/// What the update asks for next.
pub enum UpdateIssueAction {
    /// The organization with this slug.
    FindOrg { org_slug: String },
    /// The issue with this key in the organization.
    FindIssue { org_id: u128, project_key: String, key_seq: i32 },
    CheckMember { project_id: u128, user_id: u128 },
    /// Store these title, description and priority.
    StoreFields { fields: UpdateIssueResponse },
    Respond(Result<UpdateIssueResponse, AppError>),
}

/// An update of the issue `key` in the organization `org_slug` by `user_id`.
pub struct UpdateIssueFlow {
    pub org_slug: String,
    pub key: IssueKey,
    pub user_id: u128,
    pub req: UpdateIssueRequest,
    pub step: UpdateIssueStep,
}

/// The decision table of an issue update.
pub open spec fn update_issue_next(before: UpdateIssueFlow, event: UpdateIssueEvent, after: UpdateIssueFlow, action: UpdateIssueAction) -> bool {
    match (before.step, event) {
        (UpdateIssueStep::AwaitOrg, UpdateIssueEvent::OrgFound(Some(None))) => after.step is Finished && action
            == UpdateIssueAction::Respond(Err(AppError::NotFound)),
        (UpdateIssueStep::AwaitOrg, UpdateIssueEvent::OrgFound(Some(Some(org_id)))) => after.step is AwaitIssue && action
            == (UpdateIssueAction::FindIssue { org_id, project_key: before.key.project_key, key_seq: before.key.key_seq }),
        (UpdateIssueStep::AwaitIssue, UpdateIssueEvent::IssueFound(Some(None))) => after.step is Finished && action
            == UpdateIssueAction::Respond(Err(AppError::NotFound)),
        (UpdateIssueStep::AwaitIssue, UpdateIssueEvent::IssueFound(Some(Some(row)))) => after.step
            == (UpdateIssueStep::AwaitMember { row }) && action == (UpdateIssueAction::CheckMember {
            project_id: row.project_id,
            user_id: before.user_id,
        }),
        (UpdateIssueStep::AwaitMember { .. }, UpdateIssueEvent::MemberChecked(Some(false))) => after.step is Finished
            && action == UpdateIssueAction::Respond(Err(AppError::Forbidden)),
        (UpdateIssueStep::AwaitMember { row }, UpdateIssueEvent::MemberChecked(Some(true))) => match before.req.priority {
            Some(p) if !allowed_priority(p@) => after.step is Finished && action == UpdateIssueAction::Respond(
                Err(AppError::BadRequest(Some("invalid priority"))),
            ),
            _ => after.step == (UpdateIssueStep::AwaitUpdate { fields: merged(before.req, row) }) && action
                == (UpdateIssueAction::StoreFields { fields: merged(before.req, row) }),
        },
        (UpdateIssueStep::AwaitUpdate { fields }, UpdateIssueEvent::Updated(true)) => after.step is Finished && action
            == UpdateIssueAction::Respond(Ok(fields)),
        _ => after.step is Finished && action == UpdateIssueAction::Respond(Err(AppError::Internal)),
    }
}

fn copy_response(f: &UpdateIssueResponse) -> (r: UpdateIssueResponse)
    ensures
        r == *f,
{
    UpdateIssueResponse {
        issue_id: f.issue_id,
        title: f.title.clone(),
        description: match &f.description {
            Some(d) => Some(d.clone()),
            None => None,
        },
        priority: f.priority.clone(),
    }
}

impl UpdateIssueFlow {
    /// Starts an issue update: a key that is not one is refused at once; else, find the organization.
    pub fn start(org_slug: String, issue_key: &str, user_id: u128, req: UpdateIssueRequest) -> (r: (
        Option<UpdateIssueFlow>,
        UpdateIssueAction,
    ))
        ensures
            match issue_key_parts(issue_key@) {
                None => r.0 is None && r.1 == UpdateIssueAction::Respond(Err(AppError::BadRequest(Some("invalid issue key")))),
                Some(parts) => r.0 matches Some(f) && f.org_slug == org_slug && f.key.project_key@ == parts.0
                    && f.key.key_seq == parts.1 && f.user_id == user_id && f.req == req && f.step is AwaitOrg && r.1
                    == (UpdateIssueAction::FindOrg { org_slug }),
            },
    {
        match read_issue_key(issue_key) {
            Err(e) => (None, UpdateIssueAction::Respond(Err(e))),
            Ok(key) => {
                let a = UpdateIssueAction::FindOrg { org_slug: org_slug.clone() };
                (Some(UpdateIssueFlow { org_slug, key, user_id, req, step: UpdateIssueStep::AwaitOrg }), a)
            },
        }
    }

    /// Takes in what the outside world reports and says what to do next.
    pub fn step(&mut self, event: UpdateIssueEvent) -> (action: UpdateIssueAction)
        ensures
            final(self).org_slug == old(self).org_slug && final(self).key == old(self).key
                && final(self).user_id == old(self).user_id && final(self).req == old(self).req,
            update_issue_next(*old(self), event, *final(self), action),
    {
        let mut step = UpdateIssueStep::Finished;
        std::mem::swap(&mut step, &mut self.step);
        match (step, event) {
            (UpdateIssueStep::AwaitOrg, UpdateIssueEvent::OrgFound(Some(None))) => UpdateIssueAction::Respond(Err(AppError::NotFound)),
            (UpdateIssueStep::AwaitOrg, UpdateIssueEvent::OrgFound(Some(Some(org_id)))) => {
                self.step = UpdateIssueStep::AwaitIssue;
                UpdateIssueAction::FindIssue {
                    org_id,
                    project_key: self.key.project_key.clone(),
                    key_seq: self.key.key_seq,
                }
            },
            (UpdateIssueStep::AwaitIssue, UpdateIssueEvent::IssueFound(Some(None))) => UpdateIssueAction::Respond(
                Err(AppError::NotFound),
            ),
            (UpdateIssueStep::AwaitIssue, UpdateIssueEvent::IssueFound(Some(Some(row)))) => {
                let project_id = row.project_id;
                self.step = UpdateIssueStep::AwaitMember { row };
                UpdateIssueAction::CheckMember { project_id, user_id: self.user_id }
            },
            (UpdateIssueStep::AwaitMember { .. }, UpdateIssueEvent::MemberChecked(Some(false))) => UpdateIssueAction::Respond(
                Err(AppError::Forbidden),
            ),
            (UpdateIssueStep::AwaitMember { row }, UpdateIssueEvent::MemberChecked(Some(true))) => {
                if let Some(p) = &self.req.priority {
                    if !is_allowed_priority(p.as_str()) {
                        return UpdateIssueAction::Respond(Err(AppError::BadRequest(Some("invalid priority"))));
                    }
                }
                let fields = merge_fields(&self.req, &row);
                let stored = copy_response(&fields);
                self.step = UpdateIssueStep::AwaitUpdate { fields };
                UpdateIssueAction::StoreFields { fields: stored }
            },
            (UpdateIssueStep::AwaitUpdate { fields }, UpdateIssueEvent::Updated(true)) => UpdateIssueAction::Respond(Ok(fields)),
            _ => UpdateIssueAction::Respond(Err(AppError::Internal)),
        }
    }
}

/// An update stores a priority only if it is one of the four allowed, or the one already stored.
pub proof fn lemma_update_keeps_priorities_valid(
    before: UpdateIssueFlow,
    event: UpdateIssueEvent,
    after: UpdateIssueFlow,
    action: UpdateIssueAction,
)
    requires
        update_issue_next(before, event, after, action),
        action is StoreFields,
    ensures
        before.step matches UpdateIssueStep::AwaitMember { row } && (allowed_priority(action->fields.priority@)
            || action->fields.priority == row.priority),
{
}

/// An update stores, and then answers with, each field that the request gives
/// and keeps every field it does not give, for the issue that was found.
pub proof fn lemma_update_applies_request(
    before: UpdateIssueFlow,
    event: UpdateIssueEvent,
    after: UpdateIssueFlow,
    action: UpdateIssueAction,
)
    requires
        update_issue_next(before, event, after, action),
    ensures
        action matches UpdateIssueAction::StoreFields { fields } ==> {
            &&& before.step matches UpdateIssueStep::AwaitMember { row } && {
                &&& fields.issue_id == row.issue_id
                &&& before.req.title matches Some(t) ==> fields.title == t
                &&& before.req.title is None ==> fields.title == row.title
                &&& before.req.description matches Some(d) ==> fields.description == Some(d)
                &&& before.req.description is None ==> fields.description == row.description
                &&& before.req.priority matches Some(p) ==> fields.priority == p
                &&& before.req.priority is None ==> fields.priority == row.priority
            }
            &&& after.step == (UpdateIssueStep::AwaitUpdate { fields })
        },
        action matches UpdateIssueAction::Respond(Ok(r)) ==> before.step == (UpdateIssueStep::AwaitUpdate { fields: r })
            && event == UpdateIssueEvent::Updated(true),
{
}

} // verus!
