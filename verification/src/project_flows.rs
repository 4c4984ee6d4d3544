use vstd::prelude::*;
use crate::error::AppError;
use crate::projects::{project_detail, shows_project_detail, GetProjectResponse, ProjectWithOrgRow};
use crate::text::{byte_len, str_eq, to_uppercase, trim, trim_str, uppercase, utf8_len};

verus! {

/// The request to create a project in an organization.
pub struct CreateProjectRequest {
    pub project_key: String,
    pub name: String,
    pub description: Option<String>,
}

/// The project created.
pub struct CreateProjectResponse {
    pub project_id: u128,
    pub project_key: String,
    pub name: String,
}

/// The request to rename a project.
pub struct PatchProjectRequest {
    pub name: String,
}

/// The renamed project.
pub struct PatchProjectResponse {
    pub id: u128,
    pub project_key: String,
    pub name: String,
}

/// The confirmation that a project is to be deleted: its name and key, typed again.
pub struct DeleteProjectRequest {
    pub confirm_name: String,
    pub confirm_project_key: String,
}

/// A member of a project, as stored.
pub struct ProjectMemberRow {
    pub user_id: u128,
    pub project_role: String,
    pub email: String,
    pub name: String,
}

/// A member of a project, as listed.
pub struct ProjectMemberItem {
    pub user_id: u128,
    pub name: String,
    pub email: String,
    pub project_role: String,
}

/// The members of a project.
pub struct ListProjectMembersResponse {
    pub items: Vec<ProjectMemberItem>,
}

/// Where a request about one project, reached through its organization, stands.
pub enum ProjectStep {
    AwaitOrg,
    AwaitProject,
    AwaitPermission { row: ProjectWithOrgRow },
    /// Waiting for the write that the request makes.
    AwaitWrite { row: ProjectWithOrgRow },
    Finished,
}

/// What the request about a project does once the project is found.
pub enum ProjectRequest {
    /// Show the project.
    Get,
    /// Note that the caller opened the project.
    RecordView,
    /// Rename the project to the trimmed name (checked at the start).
    Rename { name: String },
    /// Delete the project, once its name and key are confirmed.
    Delete { confirm: DeleteProjectRequest },
}

/// What the outside world reports back; `None` stands for a failed database call.
pub enum ProjectEvent {
    OrgFound(Option<Option<u128>>),
    /// The project, if the caller is a member of it.
    ProjectFound(Option<Option<ProjectWithOrgRow>>),
    PermissionChecked(Option<bool>),
    /// How many rows the view note touched.
    ViewRecorded(Option<u64>),
    /// The project's key, after the rename.
    Renamed(Option<String>),
    /// How many projects were deleted.
    Deleted(Option<u64>),
}

/// The answer to a request about a project.
pub enum ProjectReply {
    Project(GetProjectResponse),
    Renamed(PatchProjectResponse),
    /// `204 No Content` (a view noted, a project deleted).
    Done,
}

/// What the request asks for next.
pub enum ProjectAction {
    FindOrg { org_slug: String },
    /// The project with this key in the organization, if the user is a member of it.
    FindProject { user_id: u128, org_id: u128, project_key: String },
    /// May the user manage the project (project manager or organization admin)?
    CheckPermission { project_id: u128, user_id: u128 },
    RecordView { project_id: u128, user_id: u128 },
    Rename { project_id: u128, name: String },
    Delete { project_id: u128 },
    Respond(Result<ProjectReply, AppError>),
}

/// A request by `user_id` about the project with key `project_key`.
pub struct ProjectFlow {
    pub user_id: u128,
    pub project_key: String,
    pub request: ProjectRequest,
    pub step: ProjectStep,
}

/// The confirmation matches the project: the trimmed names are equal, and so are
/// the upper-cased trimmed confirmation key and the upper-cased project key.
pub open spec fn confirms(c: DeleteProjectRequest, row: ProjectWithOrgRow) -> bool {
    trim(c.confirm_name@) == trim(row.name@) && uppercase(trim(c.confirm_project_key@)) == uppercase(row.project_key@)
}

/// A name a project may be renamed to: not blank, at most 200 bytes once trimmed.
pub open spec fn valid_project_name(name: Seq<char>) -> bool {
    trim(name).len() > 0 && utf8_len(trim(name)) <= 200
}

/// The decision table of a request about a project.
pub open spec fn project_next(before: ProjectFlow, event: ProjectEvent, after: ProjectFlow, action: ProjectAction) -> bool {
    match (before.step, event) {
        (ProjectStep::AwaitOrg, ProjectEvent::OrgFound(Some(None))) => after.step is Finished && action
            == ProjectAction::Respond(Err(AppError::NotFound)),
        (ProjectStep::AwaitOrg, ProjectEvent::OrgFound(Some(Some(org_id)))) => after.step is AwaitProject && (
        action matches ProjectAction::FindProject { user_id, org_id: o, project_key } && user_id == before.user_id && o
            == org_id && project_key@ == before.project_key@),
        (ProjectStep::AwaitProject, ProjectEvent::ProjectFound(Some(None))) => after.step is Finished && action
            == ProjectAction::Respond(Err(AppError::NotFound)),
        (ProjectStep::AwaitProject, ProjectEvent::ProjectFound(Some(Some(row)))) => match before.request {
            ProjectRequest::Get => after.step is Finished && (action matches ProjectAction::Respond(
                Ok(ProjectReply::Project(r)),
            ) && shows_project_detail(r, row)),
            ProjectRequest::RecordView => after.step == (ProjectStep::AwaitWrite { row }) && action
                == (ProjectAction::RecordView { project_id: row.id, user_id: before.user_id }),
            _ => after.step == (ProjectStep::AwaitPermission { row }) && action == (ProjectAction::CheckPermission {
                project_id: row.id,
                user_id: before.user_id,
            }),
        },
        (ProjectStep::AwaitPermission { .. }, ProjectEvent::PermissionChecked(Some(false))) => after.step is Finished
            && action == ProjectAction::Respond(Err(AppError::Forbidden)),
        (ProjectStep::AwaitPermission { row }, ProjectEvent::PermissionChecked(Some(true))) => match before.request {
            ProjectRequest::Rename { name } => after.step == (ProjectStep::AwaitWrite { row }) && (
            action matches ProjectAction::Rename { project_id, name: n } && project_id == row.id && n@ == name@),
            ProjectRequest::Delete { confirm } => if confirms(confirm, row) {
                after.step == (ProjectStep::AwaitWrite { row }) && action == (ProjectAction::Delete { project_id: row.id })
            } else {
                after.step is Finished && action == ProjectAction::Respond(
                    Err(AppError::BadRequest(Some("confirmation does not match project name or key"))),
                )
            },
            _ => after.step is Finished && action == ProjectAction::Respond(Err(AppError::Internal)),
        },
        (ProjectStep::AwaitWrite { .. }, ProjectEvent::ViewRecorded(Some(n))) => after.step is Finished && action
            == ProjectAction::Respond(
            if n == 0 {
                Err(AppError::Forbidden)
            } else {
                Ok(ProjectReply::Done)
            },
        ),
        (ProjectStep::AwaitWrite { row }, ProjectEvent::Renamed(Some(key))) => match before.request {
            ProjectRequest::Rename { name } => after.step is Finished && (action matches ProjectAction::Respond(
                Ok(ProjectReply::Renamed(r)),
            ) && r.id == row.id && r.project_key@ == key@ && r.name@ == name@),
            _ => after.step is Finished && action == ProjectAction::Respond(Err(AppError::Internal)),
        },
        (ProjectStep::AwaitWrite { .. }, ProjectEvent::Deleted(Some(n))) => after.step is Finished && action
            == ProjectAction::Respond(
            if n == 0 {
                Err(AppError::NotFound)
            } else {
                Ok(ProjectReply::Done)
            },
        ),
        _ => after.step is Finished && action == ProjectAction::Respond(Err(AppError::Internal)),
    }
}

/// A rename in progress carries the trimmed name asked for, which is a valid name.
pub open spec fn project_inv(f: ProjectFlow) -> bool {
    f.request matches ProjectRequest::Rename { name } ==> name@ == trim(name@) && valid_project_name(name@)
}

/// Whether the confirmation matches the project.
pub fn confirmation_matches(c: &DeleteProjectRequest, row: &ProjectWithOrgRow) -> (r: bool)
    ensures
        r == confirms(*c, *row),
{
    let name_ok = str_eq(trim_str(c.confirm_name.as_str()), trim_str(row.name.as_str()));
    let confirm_key = to_uppercase(trim_str(c.confirm_project_key.as_str()));
    let key = to_uppercase(row.project_key.as_str());
    let key_ok = str_eq(confirm_key.as_str(), key.as_str());
    name_ok && key_ok
}

impl ProjectFlow {
    /// Starts a request about a project: a rename to an invalid name is refused at
    /// once; else, find the organization.
    pub fn start(org_slug: String, project_key: String, user_id: u128, request: ProjectRequest) -> (r: (
        ProjectFlow,
        ProjectAction,
    ))
        ensures
            r.0.user_id == user_id && r.0.project_key == project_key,
            project_inv(r.0),
            match request {
                ProjectRequest::Rename { name } => if valid_project_name(name@) {
                    (r.0.request matches ProjectRequest::Rename { name: n } && n@ == trim(name@)) && r.0.step is AwaitOrg
                        && r.1 == (ProjectAction::FindOrg { org_slug })
                } else {
                    r.0.step is Finished && r.1 == ProjectAction::Respond(Err(AppError::BadRequest(Some("invalid name"))))
                },
                _ => r.0.request == request && r.0.step is AwaitOrg && r.1 == (ProjectAction::FindOrg { org_slug }),
            },
    {
        let request = match request {
            ProjectRequest::Rename { name } => {
                let t = trim_str(name.as_str());
                if t.unicode_len() == 0 || byte_len(t) > 200 {
                    return (
                        ProjectFlow { user_id, project_key, request: ProjectRequest::Get, step: ProjectStep::Finished },
                        ProjectAction::Respond(Err(AppError::BadRequest(Some("invalid name")))),
                    );
                }
                let trimmed = t.to_string();
                proof {
                    crate::text::lemma_trim_idempotent(name@);
                }
                ProjectRequest::Rename { name: trimmed }
            },
            other => other,
        };
        (ProjectFlow { user_id, project_key, request, step: ProjectStep::AwaitOrg }, ProjectAction::FindOrg { org_slug })
    }

    /// Takes in what the outside world reports and says what to do next.
    pub fn step(&mut self, event: ProjectEvent) -> (action: ProjectAction)
        requires
            project_inv(*old(self)),
        ensures
            final(self).user_id == old(self).user_id && final(self).project_key == old(self).project_key
                && final(self).request == old(self).request,
            project_inv(*final(self)),
            project_next(*old(self), event, *final(self), action),
    {
        let mut step = ProjectStep::Finished;
        std::mem::swap(&mut step, &mut self.step);
        match (step, event) {
            (ProjectStep::AwaitOrg, ProjectEvent::OrgFound(Some(None))) => ProjectAction::Respond(Err(AppError::NotFound)),
            (ProjectStep::AwaitOrg, ProjectEvent::OrgFound(Some(Some(org_id)))) => {
                self.step = ProjectStep::AwaitProject;
                ProjectAction::FindProject { user_id: self.user_id, org_id, project_key: self.project_key.clone() }
            },
            (ProjectStep::AwaitProject, ProjectEvent::ProjectFound(Some(None))) => ProjectAction::Respond(
                Err(AppError::NotFound),
            ),
            (ProjectStep::AwaitProject, ProjectEvent::ProjectFound(Some(Some(row)))) => {
                match &self.request {
                    ProjectRequest::Get => ProjectAction::Respond(Ok(ProjectReply::Project(project_detail(row)))),
                    ProjectRequest::RecordView => {
                        let project_id = row.id;
                        self.step = ProjectStep::AwaitWrite { row };
                        ProjectAction::RecordView { project_id, user_id: self.user_id }
                    },
                    _ => {
                        let project_id = row.id;
                        self.step = ProjectStep::AwaitPermission { row };
                        ProjectAction::CheckPermission { project_id, user_id: self.user_id }
                    },
                }
            },
            (ProjectStep::AwaitPermission { .. }, ProjectEvent::PermissionChecked(Some(false))) => ProjectAction::Respond(
                Err(AppError::Forbidden),
            ),
            (ProjectStep::AwaitPermission { row }, ProjectEvent::PermissionChecked(Some(true))) => {
                match &self.request {
                    ProjectRequest::Rename { name } => {
                        let project_id = row.id;
                        let name = name.clone();
                        self.step = ProjectStep::AwaitWrite { row };
                        ProjectAction::Rename { project_id, name }
                    },
                    ProjectRequest::Delete { confirm } => {
                        if confirmation_matches(confirm, &row) {
                            let project_id = row.id;
                            self.step = ProjectStep::AwaitWrite { row };
                            ProjectAction::Delete { project_id }
                        } else {
                            ProjectAction::Respond(
                                Err(AppError::BadRequest(Some("confirmation does not match project name or key"))),
                            )
                        }
                    },
                    _ => ProjectAction::Respond(Err(AppError::Internal)),
                }
            },
            (ProjectStep::AwaitWrite { .. }, ProjectEvent::ViewRecorded(Some(n))) => {
                if n == 0 {
                    ProjectAction::Respond(Err(AppError::Forbidden))
                } else {
                    ProjectAction::Respond(Ok(ProjectReply::Done))
                }
            },
            (ProjectStep::AwaitWrite { row }, ProjectEvent::Renamed(Some(key))) => {
                match &self.request {
                    ProjectRequest::Rename { name } => ProjectAction::Respond(
                        Ok(ProjectReply::Renamed(PatchProjectResponse { id: row.id, project_key: key, name: name.clone() })),
                    ),
                    _ => ProjectAction::Respond(Err(AppError::Internal)),
                }
            },
            (ProjectStep::AwaitWrite { .. }, ProjectEvent::Deleted(Some(n))) => {
                if n == 0 {
                    ProjectAction::Respond(Err(AppError::NotFound))
                } else {
                    ProjectAction::Respond(Ok(ProjectReply::Done))
                }
            },
            _ => ProjectAction::Respond(Err(AppError::Internal)),
        }
    }
}

/// A project is deleted only by a user allowed to manage it, and only once the
/// typed name and key match it.
pub proof fn lemma_delete_needs_confirmation(before: ProjectFlow, event: ProjectEvent, after: ProjectFlow, action: ProjectAction)
    requires
        project_next(before, event, after, action),
        action is Delete,
    ensures
        before.step matches ProjectStep::AwaitPermission { row } && action->Delete_project_id == row.id && (
        before.request matches ProjectRequest::Delete { confirm } && confirms(confirm, row)),
        event == ProjectEvent::PermissionChecked(Some(true)),
{
}

/// A project key that may be created: 2 to 6 bytes once upper-cased.
pub open spec fn valid_project_key(key: Seq<char>) -> bool {
    2 <= utf8_len(uppercase(key)) <= 6
}

/// Where the creation of a project stands.
pub enum CreateProjectStep {
    AwaitAdmin { project_key: String },
    AwaitInsert,
    AwaitSeed { created: CreateProjectResponse },
    AwaitManager { created: CreateProjectResponse },
    AwaitCommit { created: CreateProjectResponse },
    Finished,
}

/// What the outside world reports back; `None` (or `false`) stands for a failed database call.
pub enum CreateProjectEvent {
    AdminChecked(Option<bool>),
    /// The id, key and name of the inserted project.
    Inserted(Option<(u128, String, String)>),
    Seeded(bool),
    ManagerAdded(bool),
    Committed(bool),
}

/// What the creation asks for next. The insertion, the seeding, the membership
/// and the commit run in one transaction, which an error answer abandons.
pub enum CreateProjectAction {
    /// Is the user an admin of the organization?
    CheckAdmin { org_id: u128, user_id: u128 },
    /// Opens the transaction and inserts the project.
    Insert { org_id: u128, project_key: String, name: String, description: Option<String> },
    /// Inserts the default workflow statuses of the new project.
    SeedStatuses { project_id: u128 },
    /// Makes the user a manager of the new project.
    AddManager { project_id: u128, user_id: u128 },
    Commit,
    /// Answer: `Ok` is `201 Created`.
    Respond(Result<CreateProjectResponse, AppError>),
}

/// The creation of a project in organization `org_id` by `user_id`.
pub struct CreateProjectFlow {
    pub org_id: u128,
    pub user_id: u128,
    pub req: CreateProjectRequest,
    pub step: CreateProjectStep,
}

/// `r` is the project that the insertion reported.
pub open spec fn is_created(r: CreateProjectResponse, inserted: (u128, String, String)) -> bool {
    r.project_id == inserted.0 && r.project_key@ == inserted.1@ && r.name@ == inserted.2@
}

/// The decision table of the creation of a project.
pub open spec fn create_project_next(
    before: CreateProjectFlow,
    event: CreateProjectEvent,
    after: CreateProjectFlow,
    action: CreateProjectAction,
) -> bool {
    match (before.step, event) {
        (CreateProjectStep::AwaitAdmin { .. }, CreateProjectEvent::AdminChecked(Some(false))) => after.step is Finished
            && action == CreateProjectAction::Respond(Err(AppError::Forbidden)),
        (CreateProjectStep::AwaitAdmin { project_key }, CreateProjectEvent::AdminChecked(Some(true))) => after.step is AwaitInsert
            && (action matches CreateProjectAction::Insert { org_id, project_key: k, name, description } && org_id
            == before.org_id && k@ == project_key@ && name@ == before.req.name@ && description == before.req.description),
        (CreateProjectStep::AwaitInsert, CreateProjectEvent::Inserted(None)) => after.step is Finished && action
            == CreateProjectAction::Respond(Err(AppError::BadRequest(None))),
        (CreateProjectStep::AwaitInsert, CreateProjectEvent::Inserted(Some(inserted))) => (after.step matches CreateProjectStep::AwaitSeed {
            created,
        } && is_created(created, inserted)) && action == (CreateProjectAction::SeedStatuses { project_id: inserted.0 }),
        (CreateProjectStep::AwaitSeed { created }, CreateProjectEvent::Seeded(true)) => after.step
            == (CreateProjectStep::AwaitManager { created }) && action == (CreateProjectAction::AddManager {
            project_id: created.project_id,
            user_id: before.user_id,
        }),
        (CreateProjectStep::AwaitManager { created }, CreateProjectEvent::ManagerAdded(true)) => after.step
            == (CreateProjectStep::AwaitCommit { created }) && action == CreateProjectAction::Commit,
        (CreateProjectStep::AwaitCommit { created }, CreateProjectEvent::Committed(true)) => after.step is Finished && action
            == CreateProjectAction::Respond(Ok(created)),
        _ => after.step is Finished && action == CreateProjectAction::Respond(Err(AppError::Internal)),
    }
}

impl CreateProjectFlow {
    /// Starts the creation: a key of the wrong length is refused at once; else,
    /// check that the user is an admin of the organization.
    pub fn start(org_id: u128, user_id: u128, req: CreateProjectRequest) -> (r: (CreateProjectFlow, CreateProjectAction))
        ensures
            r.0.org_id == org_id && r.0.user_id == user_id && r.0.req == req,
            !valid_project_key(req.project_key@) ==> r.0.step is Finished && r.1 == CreateProjectAction::Respond(
                Err(AppError::BadRequest(Some("invalid project_key"))),
            ),
            valid_project_key(req.project_key@) ==> (r.0.step matches CreateProjectStep::AwaitAdmin { project_key }
                && project_key@ == uppercase(req.project_key@)) && r.1 == (CreateProjectAction::CheckAdmin { org_id, user_id }),
    {
        let project_key = to_uppercase(req.project_key.as_str());
        let n = byte_len(project_key.as_str());
        if n < 2 || n > 6 {
            return (
                CreateProjectFlow { org_id, user_id, req, step: CreateProjectStep::Finished },
                CreateProjectAction::Respond(Err(AppError::BadRequest(Some("invalid project_key")))),
            );
        }
        (
            CreateProjectFlow { org_id, user_id, req, step: CreateProjectStep::AwaitAdmin { project_key } },
            CreateProjectAction::CheckAdmin { org_id, user_id },
        )
    }

    /// Takes in what the outside world reports and says what to do next.
    pub fn step(&mut self, event: CreateProjectEvent) -> (action: CreateProjectAction)
        ensures
            final(self).org_id == old(self).org_id && final(self).user_id == old(self).user_id && final(self).req == old(
                self,
            ).req,
            create_project_next(*old(self), event, *final(self), action),
    {
        let mut step = CreateProjectStep::Finished;
        std::mem::swap(&mut step, &mut self.step);
        match (step, event) {
            (CreateProjectStep::AwaitAdmin { .. }, CreateProjectEvent::AdminChecked(Some(false))) => CreateProjectAction::Respond(
                Err(AppError::Forbidden),
            ),
            (CreateProjectStep::AwaitAdmin { project_key }, CreateProjectEvent::AdminChecked(Some(true))) => {
                self.step = CreateProjectStep::AwaitInsert;
                CreateProjectAction::Insert {
                    org_id: self.org_id,
                    project_key,
                    name: self.req.name.clone(),
                    description: match &self.req.description {
                        Some(d) => Some(d.clone()),
                        None => None,
                    },
                }
            },
            (CreateProjectStep::AwaitInsert, CreateProjectEvent::Inserted(None)) => CreateProjectAction::Respond(
                Err(AppError::BadRequest(None)),
            ),
            (CreateProjectStep::AwaitInsert, CreateProjectEvent::Inserted(Some(inserted))) => {
                let (project_id, project_key, name) = inserted;
                self.step = CreateProjectStep::AwaitSeed { created: CreateProjectResponse { project_id, project_key, name } };
                CreateProjectAction::SeedStatuses { project_id }
            },
            (CreateProjectStep::AwaitSeed { created }, CreateProjectEvent::Seeded(true)) => {
                let project_id = created.project_id;
                self.step = CreateProjectStep::AwaitManager { created };
                CreateProjectAction::AddManager { project_id, user_id: self.user_id }
            },
            (CreateProjectStep::AwaitManager { created }, CreateProjectEvent::ManagerAdded(true)) => {
                self.step = CreateProjectStep::AwaitCommit { created };
                CreateProjectAction::Commit
            },
            (CreateProjectStep::AwaitCommit { created }, CreateProjectEvent::Committed(true)) => CreateProjectAction::Respond(
                Ok(created),
            ),
            _ => CreateProjectAction::Respond(Err(AppError::Internal)),
        }
    }
}

/// `item` shows the member `row`.
pub open spec fn shows_member(item: ProjectMemberItem, row: ProjectMemberRow) -> bool {
    item.user_id == row.user_id && item.name@ == row.name@ && item.email@ == row.email@ && item.project_role@
        == row.project_role@
}

/// The listed form of each member, in order.
pub fn member_items(rows: Vec<ProjectMemberRow>) -> (items: Vec<ProjectMemberItem>)
    ensures
        items.len() == rows.len(),
        forall|k: int| 0 <= k < rows.len() ==> shows_member(#[trigger] items@[k], rows@[k]),
{
    let ghost all = rows@;
    let mut rows = rows;
    let mut items: Vec<ProjectMemberItem> = Vec::new();
    while rows.len() > 0
        invariant
            items.len() + rows.len() == all.len(),
            rows@ == all.subrange(items.len() as int, all.len() as int),
            forall|k: int| 0 <= k < items.len() ==> shows_member(#[trigger] items@[k], all[k]),
        decreases rows.len(),
    {
        let r = rows.remove(0);
        assert(r == all[items.len() as int]);
        items.push(ProjectMemberItem { user_id: r.user_id, name: r.name, email: r.email, project_role: r.project_role });
        assert(rows@ =~= all.subrange(items.len() as int, all.len() as int));
    }
    items
}

/// Where the listing of a project's members stands.
pub enum ListMembersStep {
    AwaitOrg,
    AwaitProject,
    AwaitMember { project_id: u128 },
    AwaitRows,
    Finished,
}

/// What the outside world reports back; `None` stands for a failed database call.
pub enum ListMembersEvent {
    OrgFound(Option<Option<u128>>),
    ProjectFound(Option<Option<u128>>),
    MemberChecked(Option<bool>),
    RowsFetched(Option<Vec<ProjectMemberRow>>),
}

/// What the listing asks for next.
pub enum ListMembersAction {
    FindOrg { org_slug: String },
    /// The id of the project with this key in the organization.
    FindProject { org_id: u128, project_key: String },
    /// Is the user a member of the project?
    CheckMember { project_id: u128, user_id: u128 },
    FetchMembers { project_id: u128 },
    /// Answer: `Ok` is `200 OK`.
    Respond(Result<ListProjectMembersResponse, AppError>),
}

/// The listing of the members of the project with key `project_key`, for `user_id`.
pub struct ListMembersFlow {
    pub user_id: u128,
    pub project_key: String,
    pub step: ListMembersStep,
}

/// The decision table of the listing of a project's members.
pub open spec fn list_members_next(before: ListMembersFlow, event: ListMembersEvent, after: ListMembersFlow, action: ListMembersAction) -> bool {
    match (before.step, event) {
        (ListMembersStep::AwaitOrg, ListMembersEvent::OrgFound(Some(None))) => after.step is Finished && action
            == ListMembersAction::Respond(Err(AppError::NotFound)),
        (ListMembersStep::AwaitOrg, ListMembersEvent::OrgFound(Some(Some(org_id)))) => after.step is AwaitProject && (
        action matches ListMembersAction::FindProject { org_id: o, project_key } && o == org_id && project_key@
            == uppercase(before.project_key@)),
        (ListMembersStep::AwaitProject, ListMembersEvent::ProjectFound(Some(None))) => after.step is Finished && action
            == ListMembersAction::Respond(Err(AppError::NotFound)),
        (ListMembersStep::AwaitProject, ListMembersEvent::ProjectFound(Some(Some(project_id)))) => after.step
            == (ListMembersStep::AwaitMember { project_id }) && action == (ListMembersAction::CheckMember {
            project_id,
            user_id: before.user_id,
        }),
        (ListMembersStep::AwaitMember { .. }, ListMembersEvent::MemberChecked(Some(false))) => after.step is Finished
            && action == ListMembersAction::Respond(Err(AppError::Forbidden)),
        (ListMembersStep::AwaitMember { project_id }, ListMembersEvent::MemberChecked(Some(true))) => after.step is AwaitRows
            && action == (ListMembersAction::FetchMembers { project_id }),
        (ListMembersStep::AwaitRows, ListMembersEvent::RowsFetched(Some(rows))) => after.step is Finished && (
        action matches ListMembersAction::Respond(Ok(r)) && r.items.len() == rows.len() && forall|k: int|
            0 <= k < rows.len() ==> shows_member(#[trigger] r.items@[k], rows@[k])),
        _ => after.step is Finished && action == ListMembersAction::Respond(Err(AppError::Internal)),
    }
}

impl ListMembersFlow {
    /// Starts the listing: find the organization.
    pub fn start(org_slug: String, project_key: String, user_id: u128) -> (r: (ListMembersFlow, ListMembersAction))
        ensures
            r.0.user_id == user_id && r.0.project_key == project_key && r.0.step is AwaitOrg,
            r.1 == (ListMembersAction::FindOrg { org_slug }),
    {
        (ListMembersFlow { user_id, project_key, step: ListMembersStep::AwaitOrg }, ListMembersAction::FindOrg { org_slug })
    }

    /// Takes in what the outside world reports and says what to do next.
    pub fn step(&mut self, event: ListMembersEvent) -> (action: ListMembersAction)
        ensures
            final(self).user_id == old(self).user_id && final(self).project_key == old(self).project_key,
            list_members_next(*old(self), event, *final(self), action),
    {
        let mut step = ListMembersStep::Finished;
        std::mem::swap(&mut step, &mut self.step);
        match (step, event) {
            (ListMembersStep::AwaitOrg, ListMembersEvent::OrgFound(Some(None))) => ListMembersAction::Respond(
                Err(AppError::NotFound),
            ),
            (ListMembersStep::AwaitOrg, ListMembersEvent::OrgFound(Some(Some(org_id)))) => {
                self.step = ListMembersStep::AwaitProject;
                ListMembersAction::FindProject { org_id, project_key: to_uppercase(self.project_key.as_str()) }
            },
            (ListMembersStep::AwaitProject, ListMembersEvent::ProjectFound(Some(None))) => ListMembersAction::Respond(
                Err(AppError::NotFound),
            ),
            (ListMembersStep::AwaitProject, ListMembersEvent::ProjectFound(Some(Some(project_id)))) => {
                self.step = ListMembersStep::AwaitMember { project_id };
                ListMembersAction::CheckMember { project_id, user_id: self.user_id }
            },
            (ListMembersStep::AwaitMember { .. }, ListMembersEvent::MemberChecked(Some(false))) => ListMembersAction::Respond(
                Err(AppError::Forbidden),
            ),
            (ListMembersStep::AwaitMember { project_id }, ListMembersEvent::MemberChecked(Some(true))) => {
                self.step = ListMembersStep::AwaitRows;
                ListMembersAction::FetchMembers { project_id }
            },
            (ListMembersStep::AwaitRows, ListMembersEvent::RowsFetched(Some(rows))) => ListMembersAction::Respond(
                Ok(ListProjectMembersResponse { items: member_items(rows) }),
            ),
            _ => ListMembersAction::Respond(Err(AppError::Internal)),
        }
    }
}

} // verus!
