use vstd::prelude::*;
use crate::error::AppError;
use crate::issue_key::{display_key, display_key_of};
use crate::text::{blank, is_blank};

verus! {

/// The request to create an issue.
pub struct CreateIssueRequest {
    pub title: String,
    pub description: Option<String>,
    pub assignee_id: Option<u128>,
    pub priority: Option<String>,
    pub workflow_status_id: Option<u128>,
    /// Slug within the project (e.g. `todo`), used when `workflow_status_id` is omitted.
    pub workflow_status_slug: Option<String>,
}

/// The answer to a created issue.
pub struct CreateIssueResponse {
    pub issue_id: u128,
    pub display_key: String,
    pub title: String,
}

/// The project row, locked for the creation of an issue.
pub struct LockedProject {
    pub org_id: u128,
    pub project_key: String,
    pub next_issue_seq: i32,
}

/// The issue to insert.
pub struct NewIssue {
    pub org_id: u128,
    pub project_id: u128,
    pub key_seq: i32,
    pub title: String,
    pub description: Option<String>,
    pub reporter_id: u128,
    pub assignee_id: Option<u128>,
    pub workflow_status_id: u128,
    pub priority: String,
}

/// Where the creation of an issue stands.
pub enum CreateIssueStep {
    AwaitMember,
    AwaitBegin,
    AwaitProject,
    AwaitAssignee { project: LockedProject },
    AwaitStatusCheck { project: LockedProject, status_id: u128 },
    AwaitSlug { project: LockedProject },
    AwaitDefault { project: LockedProject },
    AwaitInsert { project: LockedProject },
    AwaitBump { project: LockedProject, issue_id: u128, title: String },
    AwaitCommit { project: LockedProject, issue_id: u128, title: String },
    Finished,
}

/// What the outside world reports back; `None` (or `false` for `Began`,
/// `Bumped`, `Committed`) stands for a failed database call.
pub enum CreateIssueEvent {
    MemberChecked(Option<bool>),
    Began(bool),
    ProjectLocked(Option<Option<LockedProject>>),
    AssigneeChecked(Option<bool>),
    StatusChecked(Option<bool>),
    SlugResolved(Option<Option<u128>>),
    DefaultResolved(Option<Option<u128>>),
    Inserted(Option<(u128, String)>),
    Bumped(bool),
    Committed(bool),
}

/// What the creation asks the outside world to do next.
pub enum CreateIssueAction {
    /// Is `user_id` a member of the project?
    CheckMember { project_id: u128, user_id: u128 },
    /// Open a transaction; the following calls run in it.
    Begin,
    /// Lock the project row and read its organization, key and next number.
    LockProject { project_id: u128 },
    /// Is the assignee a member of the project?
    CheckAssignee { project_id: u128, assignee_id: u128 },
    /// Does the workflow status belong to the project?
    CheckStatus { project_id: u128, status_id: u128 },
    /// The status of the project with this slug.
    ResolveSlug { project_id: u128, slug: String },
    /// The default status of the project.
    DefaultStatus { project_id: u128 },
    /// Insert the issue; report its id and title.
    Insert(NewIssue),
    /// Advance the project's issue counter.
    BumpSeq { project_id: u128 },
    Commit,
    Respond(Result<CreateIssueResponse, AppError>),
}

/// The creation of an issue in `project_id` by `user_id`.
pub struct CreateIssueFlow {
    pub project_id: u128,
    pub user_id: u128,
    pub req: CreateIssueRequest,
    pub step: CreateIssueStep,
}

/// The priority given to a new issue: the requested one, else `none`.
pub open spec fn new_priority(req: CreateIssueRequest) -> Seq<char> {
    match req.priority {
        Some(p) => p@,
        None => "none"@,
    }
}

/// `n` is the issue that the request asks for, numbered by `project`, in status `status_id`.
pub open spec fn new_issue_of(flow: CreateIssueFlow, project: LockedProject, status_id: u128, n: NewIssue) -> bool {
    &&& n.org_id == project.org_id
    &&& n.project_id == flow.project_id
    &&& n.key_seq == project.next_issue_seq
    &&& n.title == flow.req.title
    &&& n.description == flow.req.description
    &&& n.reporter_id == flow.user_id
    &&& n.assignee_id == flow.req.assignee_id
    &&& n.workflow_status_id == status_id
    &&& n.priority@ == new_priority(flow.req)
}

/// What follows a settled project and assignee: check, resolve or default the status.
pub open spec fn status_stage(before: CreateIssueFlow, project: LockedProject, after: CreateIssueFlow, action: CreateIssueAction) -> bool {
    match before.req.workflow_status_id {
        Some(wid) => after.step == (CreateIssueStep::AwaitStatusCheck { project, status_id: wid }) && action
            == (CreateIssueAction::CheckStatus { project_id: before.project_id, status_id: wid }),
        None => match before.req.workflow_status_slug {
            Some(slug) => after.step == (CreateIssueStep::AwaitSlug { project }) && action
                == (CreateIssueAction::ResolveSlug { project_id: before.project_id, slug }),
            None => after.step == (CreateIssueStep::AwaitDefault { project }) && action
                == (CreateIssueAction::DefaultStatus { project_id: before.project_id }),
        },
    }
}

/// What follows a known status: insert the issue.
pub open spec fn insert_stage(before: CreateIssueFlow, project: LockedProject, status_id: u128, after: CreateIssueFlow, action: CreateIssueAction) -> bool {
    after.step == (CreateIssueStep::AwaitInsert { project }) && (action matches CreateIssueAction::Insert(n)
        && new_issue_of(before, project, status_id, n))
}

/// An error ends the creation.
pub open spec fn fails_with(after: CreateIssueFlow, action: CreateIssueAction, e: AppError) -> bool {
    after.step is Finished && action == CreateIssueAction::Respond(Err(e))
}

/// The decision table of the creation of an issue.
pub open spec fn create_issue_next(
    before: CreateIssueFlow,
    event: CreateIssueEvent,
    after: CreateIssueFlow,
    action: CreateIssueAction,
) -> bool {
    match (before.step, event) {
        (CreateIssueStep::AwaitMember, CreateIssueEvent::MemberChecked(Some(true))) => after.step is AwaitBegin && action
            is Begin,
        (CreateIssueStep::AwaitMember, CreateIssueEvent::MemberChecked(Some(false))) => fails_with(after, action, AppError::Forbidden),
        (CreateIssueStep::AwaitBegin, CreateIssueEvent::Began(true)) => after.step is AwaitProject && action
            == (CreateIssueAction::LockProject { project_id: before.project_id }),
        (CreateIssueStep::AwaitProject, CreateIssueEvent::ProjectLocked(Some(None))) => fails_with(after, action, AppError::NotFound),
        (CreateIssueStep::AwaitProject, CreateIssueEvent::ProjectLocked(Some(Some(p)))) => match before.req.assignee_id {
            Some(a) => after.step == (CreateIssueStep::AwaitAssignee { project: p }) && action
                == (CreateIssueAction::CheckAssignee { project_id: before.project_id, assignee_id: a }),
            None => status_stage(before, p, after, action),
        },
        (CreateIssueStep::AwaitAssignee { project }, CreateIssueEvent::AssigneeChecked(Some(true))) => status_stage(
            before,
            project,
            after,
            action,
        ),
        (CreateIssueStep::AwaitAssignee { .. }, CreateIssueEvent::AssigneeChecked(Some(false))) => fails_with(
            after,
            action,
            AppError::BadRequest(Some("assignee must be a project member")),
        ),
        (CreateIssueStep::AwaitStatusCheck { project, status_id }, CreateIssueEvent::StatusChecked(Some(true))) => insert_stage(
            before,
            project,
            status_id,
            after,
            action,
        ),
        (CreateIssueStep::AwaitStatusCheck { .. }, CreateIssueEvent::StatusChecked(Some(false))) => fails_with(
            after,
            action,
            AppError::BadRequest(Some("workflow_status_id not in project")),
        ),
        (CreateIssueStep::AwaitSlug { project }, CreateIssueEvent::SlugResolved(Some(Some(id)))) => insert_stage(
            before,
            project,
            id,
            after,
            action,
        ),
        (CreateIssueStep::AwaitSlug { .. }, CreateIssueEvent::SlugResolved(Some(None))) => fails_with(
            after,
            action,
            AppError::BadRequest(Some("unknown workflow_status_slug")),
        ),
        (CreateIssueStep::AwaitDefault { project }, CreateIssueEvent::DefaultResolved(Some(Some(id)))) => insert_stage(
            before,
            project,
            id,
            after,
            action,
        ),
        (CreateIssueStep::AwaitDefault { .. }, CreateIssueEvent::DefaultResolved(Some(None))) => fails_with(
            after,
            action,
            AppError::InternalMessage("project has no default workflow status"),
        ),
        (CreateIssueStep::AwaitInsert { project }, CreateIssueEvent::Inserted(Some(row))) => after.step == (CreateIssueStep::AwaitBump {
            project,
            issue_id: row.0,
            title: row.1,
        }) && action == (CreateIssueAction::BumpSeq { project_id: before.project_id }),
        (CreateIssueStep::AwaitBump { project, issue_id, title }, CreateIssueEvent::Bumped(true)) => after.step
            == (CreateIssueStep::AwaitCommit { project, issue_id, title }) && action is Commit,
        (CreateIssueStep::AwaitCommit { project, issue_id, title }, CreateIssueEvent::Committed(true)) => after.step is Finished
            && (action matches CreateIssueAction::Respond(Ok(resp)) && resp.issue_id == issue_id && resp.title == title
            && resp.display_key@ == display_key_of(project.project_key@, project.next_issue_seq as int)),
        _ => fails_with(after, action, AppError::Internal),
    }
}

/// A creation that has passed its first check has a non-blank title.
pub open spec fn create_issue_inv(f: CreateIssueFlow) -> bool {
    !(f.step is Finished) ==> !is_blank(f.req.title@)
}

impl CreateIssueFlow {
    /// Starts the creation of an issue; a blank title is refused at once.
    pub fn start(project_id: u128, user_id: u128, req: CreateIssueRequest) -> (r: (CreateIssueFlow, CreateIssueAction))
        ensures
            r.0.project_id == project_id,
            r.0.user_id == user_id,
            r.0.req == req,
            create_issue_inv(r.0),
            is_blank(req.title@) ==> fails_with(r.0, r.1, AppError::BadRequest(Some("title is required"))),
            !is_blank(req.title@) ==> r.0.step is AwaitMember && r.1 == (CreateIssueAction::CheckMember { project_id, user_id }),
    {
        if blank(req.title.as_str()) {
            return (
                CreateIssueFlow { project_id, user_id, req, step: CreateIssueStep::Finished },
                CreateIssueAction::Respond(Err(AppError::BadRequest(Some("title is required")))),
            );
        }
        (
            CreateIssueFlow { project_id, user_id, req, step: CreateIssueStep::AwaitMember },
            CreateIssueAction::CheckMember { project_id, user_id },
        )
    }

    fn status_action(&mut self, project: LockedProject) -> (action: CreateIssueAction)
        ensures
            final(self).project_id == old(self).project_id,
            final(self).user_id == old(self).user_id,
            final(self).req == old(self).req,
            status_stage(*old(self), project, *final(self), action),
    {
        match self.req.workflow_status_id {
            Some(wid) => {
                self.step = CreateIssueStep::AwaitStatusCheck { project, status_id: wid };
                CreateIssueAction::CheckStatus { project_id: self.project_id, status_id: wid }
            },
            None => match &self.req.workflow_status_slug {
                Some(slug) => {
                    let slug = slug.clone();
                    self.step = CreateIssueStep::AwaitSlug { project };
                    CreateIssueAction::ResolveSlug { project_id: self.project_id, slug }
                },
                None => {
                    self.step = CreateIssueStep::AwaitDefault { project };
                    CreateIssueAction::DefaultStatus { project_id: self.project_id }
                },
            },
        }
    }

    fn insert_action(&mut self, project: LockedProject, status_id: u128) -> (action: CreateIssueAction)
        ensures
            final(self).project_id == old(self).project_id,
            final(self).user_id == old(self).user_id,
            final(self).req == old(self).req,
            insert_stage(*old(self), project, status_id, *final(self), action),
    {
        let priority = match &self.req.priority {
            Some(p) => p.clone(),
            None => "none".to_string(),
        };
        let n = NewIssue {
            org_id: project.org_id,
            project_id: self.project_id,
            key_seq: project.next_issue_seq,
            title: self.req.title.clone(),
            description: match &self.req.description {
                Some(d) => Some(d.clone()),
                None => None,
            },
            reporter_id: self.user_id,
            assignee_id: self.req.assignee_id,
            workflow_status_id: status_id,
            priority,
        };
        self.step = CreateIssueStep::AwaitInsert { project };
        CreateIssueAction::Insert(n)
    }

    /// Takes in what the outside world reports and says what to do next.
    pub fn step(&mut self, event: CreateIssueEvent) -> (action: CreateIssueAction)
        requires
            create_issue_inv(*old(self)),
        ensures
            final(self).project_id == old(self).project_id,
            final(self).user_id == old(self).user_id,
            final(self).req == old(self).req,
            create_issue_inv(*final(self)),
            create_issue_next(*old(self), event, *final(self), action),
    {
        let mut step = CreateIssueStep::Finished;
        std::mem::swap(&mut step, &mut self.step);
        match (step, event) {
            (CreateIssueStep::AwaitMember, CreateIssueEvent::MemberChecked(Some(true))) => {
                self.step = CreateIssueStep::AwaitBegin;
                CreateIssueAction::Begin
            },
            (CreateIssueStep::AwaitMember, CreateIssueEvent::MemberChecked(Some(false))) => {
                CreateIssueAction::Respond(Err(AppError::Forbidden))
            },
            (CreateIssueStep::AwaitBegin, CreateIssueEvent::Began(true)) => {
                self.step = CreateIssueStep::AwaitProject;
                CreateIssueAction::LockProject { project_id: self.project_id }
            },
            (CreateIssueStep::AwaitProject, CreateIssueEvent::ProjectLocked(Some(None))) => {
                CreateIssueAction::Respond(Err(AppError::NotFound))
            },
            (CreateIssueStep::AwaitProject, CreateIssueEvent::ProjectLocked(Some(Some(p)))) => {
                match self.req.assignee_id {
                    Some(a) => {
                        self.step = CreateIssueStep::AwaitAssignee { project: p };
                        CreateIssueAction::CheckAssignee { project_id: self.project_id, assignee_id: a }
                    },
                    None => self.status_action(p),
                }
            },
            (CreateIssueStep::AwaitAssignee { project }, CreateIssueEvent::AssigneeChecked(Some(true))) => {
                self.status_action(project)
            },
            (CreateIssueStep::AwaitAssignee { .. }, CreateIssueEvent::AssigneeChecked(Some(false))) => {
                CreateIssueAction::Respond(Err(AppError::BadRequest(Some("assignee must be a project member"))))
            },
            (CreateIssueStep::AwaitStatusCheck { project, status_id }, CreateIssueEvent::StatusChecked(Some(true))) => {
                self.insert_action(project, status_id)
            },
            (CreateIssueStep::AwaitStatusCheck { .. }, CreateIssueEvent::StatusChecked(Some(false))) => {
                CreateIssueAction::Respond(Err(AppError::BadRequest(Some("workflow_status_id not in project"))))
            },
            (CreateIssueStep::AwaitSlug { project }, CreateIssueEvent::SlugResolved(Some(Some(id)))) => {
                self.insert_action(project, id)
            },
            (CreateIssueStep::AwaitSlug { .. }, CreateIssueEvent::SlugResolved(Some(None))) => {
                CreateIssueAction::Respond(Err(AppError::BadRequest(Some("unknown workflow_status_slug"))))
            },
            (CreateIssueStep::AwaitDefault { project }, CreateIssueEvent::DefaultResolved(Some(Some(id)))) => {
                self.insert_action(project, id)
            },
            (CreateIssueStep::AwaitDefault { .. }, CreateIssueEvent::DefaultResolved(Some(None))) => {
                CreateIssueAction::Respond(Err(AppError::InternalMessage("project has no default workflow status")))
            },
            (CreateIssueStep::AwaitInsert { project }, CreateIssueEvent::Inserted(Some(row))) => {
                let (issue_id, title) = row;
                self.step = CreateIssueStep::AwaitBump { project, issue_id, title };
                CreateIssueAction::BumpSeq { project_id: self.project_id }
            },
            (CreateIssueStep::AwaitBump { project, issue_id, title }, CreateIssueEvent::Bumped(true)) => {
                self.step = CreateIssueStep::AwaitCommit { project, issue_id, title };
                CreateIssueAction::Commit
            },
            (CreateIssueStep::AwaitCommit { project, issue_id, title }, CreateIssueEvent::Committed(true)) => {
                let dk = display_key(project.project_key.as_str(), project.next_issue_seq);
                CreateIssueAction::Respond(Ok(CreateIssueResponse { issue_id, display_key: dk, title }))
            },
            _ => CreateIssueAction::Respond(Err(AppError::Internal)),
        }
    }
}

/// An issue is inserted only with a non-blank title, numbered by the locked
/// project's counter, reported by the requester, and in a status that was
/// confirmed to belong to the project, resolved by slug in it, or its default.
pub proof fn lemma_insert_only_when_checked(
    before: CreateIssueFlow,
    event: CreateIssueEvent,
    after: CreateIssueFlow,
    action: CreateIssueAction,
)
    requires
        create_issue_inv(before),
        create_issue_next(before, event, after, action),
        action is Insert,
    ensures
        !is_blank(action->Insert_0.title@),
        action->Insert_0.reporter_id == before.user_id,
        match (before.step, event) {
            (CreateIssueStep::AwaitStatusCheck { project, status_id }, CreateIssueEvent::StatusChecked(Some(true))) =>
                action->Insert_0.workflow_status_id == status_id && action->Insert_0.key_seq == project.next_issue_seq,
            (CreateIssueStep::AwaitSlug { project }, CreateIssueEvent::SlugResolved(Some(Some(id)))) =>
                action->Insert_0.workflow_status_id == id && action->Insert_0.key_seq == project.next_issue_seq,
            (CreateIssueStep::AwaitDefault { project }, CreateIssueEvent::DefaultResolved(Some(Some(id)))) =>
                action->Insert_0.workflow_status_id == id && action->Insert_0.key_seq == project.next_issue_seq,
            _ => false,
        },
{
}

/// A creation reports success only once its transaction committed, after the
/// project's counter was advanced, and the key it reports is the locked project's
/// key with the number read under the lock; the counter is advanced only right
/// after the issue numbered by it was inserted.
pub proof fn lemma_success_only_after_bump_and_commit(
    before: CreateIssueFlow,
    event: CreateIssueEvent,
    after: CreateIssueFlow,
    action: CreateIssueAction,
)
    requires
        create_issue_next(before, event, after, action),
    ensures
        action matches CreateIssueAction::Respond(Ok(resp)) ==> {
            &&& event == CreateIssueEvent::Committed(true)
            &&& before.step matches CreateIssueStep::AwaitCommit { project, .. } && resp.display_key@ == display_key_of(
                project.project_key@,
                project.next_issue_seq as int,
            )
        },
        after.step matches CreateIssueStep::AwaitCommit { project, .. } ==> {
            &&& event == CreateIssueEvent::Bumped(true)
            &&& before.step matches CreateIssueStep::AwaitBump { project: p, .. } && p == project
        },
        action matches CreateIssueAction::BumpSeq { project_id } ==> {
            &&& project_id == before.project_id
            &&& event matches CreateIssueEvent::Inserted(Some(_))
            &&& before.step matches CreateIssueStep::AwaitInsert { project } && (after.step matches CreateIssueStep::AwaitBump {
                project: p,
                ..
            } && p == project)
        },
{
}

/// An issue is inserted with what the request asks for: its title,
/// description and assignee, the requested priority when one is given and
/// `none` only when none is, reported by the requester, in the project asked for.
pub proof fn lemma_insert_carries_request(
    before: CreateIssueFlow,
    event: CreateIssueEvent,
    after: CreateIssueFlow,
    action: CreateIssueAction,
)
    requires
        create_issue_next(before, event, after, action),
        action is Insert,
    ensures
        action->Insert_0.title == before.req.title,
        action->Insert_0.description == before.req.description,
        action->Insert_0.assignee_id == before.req.assignee_id,
        action->Insert_0.reporter_id == before.user_id,
        action->Insert_0.project_id == before.project_id,
        before.req.priority matches Some(p) ==> action->Insert_0.priority@ == p@,
        before.req.priority is None ==> action->Insert_0.priority@ == "none"@,
{
}

} // verus!
