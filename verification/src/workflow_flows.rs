use vstd::prelude::*;
use crate::error::AppError;
use crate::issue_lists::ProjectRef;
use crate::slug::{candidate_slug, slug_candidate, slugify, slugify_workflow_name};
use crate::text::{blank, is_blank, trim, trim_str};
use crate::workflow::{
    group_workflow_statuses, grouped, is_workflow_category, status_item, status_item_shows, workflow_categories,
    ListWorkflowStatusesResponse, WorkflowStatusItem, WorkflowStatusRow,
};

verus! {

/// Where the listing of a project's workflow statuses stands.
pub enum ListStatusesStep {
    AwaitProject,
    AwaitMember { project_id: u128 },
    AwaitRows,
    Finished,
}

/// What the outside world reports back; `None` stands for a failed database call.
pub enum ListStatusesEvent {
    ProjectFound(Option<Option<ProjectRef>>),
    MemberChecked(Option<bool>),
    RowsFetched(Option<Vec<WorkflowStatusRow>>),
}

/// What the listing asks for next.
pub enum ListStatusesAction {
    FindProject { org_slug: String, project_key: String },
    CheckMember { project_id: u128, user_id: u128 },
    /// The project's statuses, in board order.
    FetchStatuses { project_id: u128 },
    Respond(Result<ListWorkflowStatusesResponse, AppError>),
}

/// The listing of a project's workflow statuses for `user_id`.
pub struct ListStatusesFlow {
    pub user_id: u128,
    pub step: ListStatusesStep,
}

/// The decision table of the listing of workflow statuses.
pub open spec fn list_statuses_next(before: ListStatusesFlow, event: ListStatusesEvent, after: ListStatusesFlow, action: ListStatusesAction) -> bool {
    match (before.step, event) {
        (ListStatusesStep::AwaitProject, ListStatusesEvent::ProjectFound(Some(None))) => after.step is Finished && action
            == ListStatusesAction::Respond(Err(AppError::NotFound)),
        (ListStatusesStep::AwaitProject, ListStatusesEvent::ProjectFound(Some(Some(p)))) => after.step
            == (ListStatusesStep::AwaitMember { project_id: p.id }) && action == (ListStatusesAction::CheckMember {
            project_id: p.id,
            user_id: before.user_id,
        }),
        (ListStatusesStep::AwaitMember { .. }, ListStatusesEvent::MemberChecked(Some(false))) => after.step is Finished
            && action == ListStatusesAction::Respond(Err(AppError::Forbidden)),
        (ListStatusesStep::AwaitMember { project_id }, ListStatusesEvent::MemberChecked(Some(true))) => after.step is AwaitRows
            && action == (ListStatusesAction::FetchStatuses { project_id }),
        (ListStatusesStep::AwaitRows, ListStatusesEvent::RowsFetched(Some(rows))) => after.step is Finished && (
        action matches ListStatusesAction::Respond(Ok(r)) && grouped(r.groups@, rows@)),
        _ => after.step is Finished && action == ListStatusesAction::Respond(Err(AppError::Internal)),
    }
}

impl ListStatusesFlow {
    /// Starts the listing: first, find the project.
    pub fn start(org_slug: String, project_key: String, user_id: u128) -> (r: (ListStatusesFlow, ListStatusesAction))
        ensures
            r.0.user_id == user_id && r.0.step is AwaitProject,
            r.1 == (ListStatusesAction::FindProject { org_slug, project_key }),
    {
        (ListStatusesFlow { user_id, step: ListStatusesStep::AwaitProject }, ListStatusesAction::FindProject { org_slug, project_key })
    }

    /// Takes in what the outside world reports and says what to do next.
    pub fn step(&mut self, event: ListStatusesEvent) -> (action: ListStatusesAction)
        ensures
            final(self).user_id == old(self).user_id,
            list_statuses_next(*old(self), event, *final(self), action),
    {
        let mut step = ListStatusesStep::Finished;
        std::mem::swap(&mut step, &mut self.step);
        match (step, event) {
            (ListStatusesStep::AwaitProject, ListStatusesEvent::ProjectFound(Some(None))) => ListStatusesAction::Respond(
                Err(AppError::NotFound),
            ),
            (ListStatusesStep::AwaitProject, ListStatusesEvent::ProjectFound(Some(Some(p)))) => {
                self.step = ListStatusesStep::AwaitMember { project_id: p.id };
                ListStatusesAction::CheckMember { project_id: p.id, user_id: self.user_id }
            },
            (ListStatusesStep::AwaitMember { .. }, ListStatusesEvent::MemberChecked(Some(false))) => ListStatusesAction::Respond(
                Err(AppError::Forbidden),
            ),
            (ListStatusesStep::AwaitMember { project_id }, ListStatusesEvent::MemberChecked(Some(true))) => {
                self.step = ListStatusesStep::AwaitRows;
                ListStatusesAction::FetchStatuses { project_id }
            },
            (ListStatusesStep::AwaitRows, ListStatusesEvent::RowsFetched(Some(rows))) => ListStatusesAction::Respond(
                Ok(group_workflow_statuses(&rows)),
            ),
            _ => ListStatusesAction::Respond(Err(AppError::Internal)),
        }
    }
}

/// The request to add a workflow status to a project.
pub struct CreateWorkflowStatusRequest {
    pub category: String,
    pub name: String,
    pub slug: Option<String>,
}

/// Where the addition of a workflow status stands.
pub enum CreateStatusStep {
    AwaitProject,
    AwaitPermission { project_id: u128 },
    /// Waiting to hear whether `candidate`, the slug tried after `n` taken ones, is taken.
    AwaitSlugCheck { project_id: u128, base: String, n: u32, candidate: String },
    AwaitMaxPosition { project_id: u128, slug: String },
    AwaitInsert,
    Finished,
}

/// What the outside world reports back; `None` stands for a failed database call.
pub enum CreateStatusEvent {
    ProjectFound(Option<Option<ProjectRef>>),
    PermissionChecked(Option<bool>),
    SlugChecked(Option<bool>),
    /// The highest position in the category, if the category has any status.
    MaxPosition(Option<Option<i32>>),
    Inserted(Option<WorkflowStatusRow>),
}

/// The status to insert.
pub struct NewWorkflowStatus {
    pub project_id: u128,
    pub category: String,
    pub name: String,
    pub slug: String,
    pub position: i32,
    pub is_default: bool,
}

/// What the addition asks for next.
pub enum CreateStatusAction {
    FindProject { org_slug: String, project_key: String },
    /// May the user manage the project's workflow (project manager or organization admin)?
    CheckPermission { project_id: u128, user_id: u128 },
    /// Is this slug used in the project?
    CheckSlug { project_id: u128, slug: String },
    /// The highest position of the project's statuses in the category.
    FindMaxPosition { project_id: u128, category: String },
    Insert(NewWorkflowStatus),
    /// Answer: `Ok` is `201 Created`.
    Respond(Result<WorkflowStatusItem, AppError>),
}

/// The addition of a workflow status by `user_id`.
pub struct CreateStatusFlow {
    pub user_id: u128,
    pub req: CreateWorkflowStatusRequest,
    pub step: CreateStatusStep,
}

/// The slug from which the candidates start: that of the requested slug, else that of the name.
pub open spec fn base_slug(req: CreateWorkflowStatusRequest) -> Seq<char> {
    match req.slug {
        Some(s) => slugify(s@),
        None => slugify(req.name@),
    }
}

/// The position after the highest one of the category; 0 in an empty category.
pub open spec fn next_position(max: Option<i32>) -> int {
    match max {
        Some(m) => m + 1,
        None => 0,
    }
}

/// The decision table of the addition of a workflow status.
pub open spec fn create_status_next(before: CreateStatusFlow, event: CreateStatusEvent, after: CreateStatusFlow, action: CreateStatusAction) -> bool {
    match (before.step, event) {
        (CreateStatusStep::AwaitProject, CreateStatusEvent::ProjectFound(Some(None))) => after.step is Finished && action
            == CreateStatusAction::Respond(Err(AppError::NotFound)),
        (CreateStatusStep::AwaitProject, CreateStatusEvent::ProjectFound(Some(Some(p)))) => after.step
            == (CreateStatusStep::AwaitPermission { project_id: p.id }) && action == (CreateStatusAction::CheckPermission {
            project_id: p.id,
            user_id: before.user_id,
        }),
        (CreateStatusStep::AwaitPermission { .. }, CreateStatusEvent::PermissionChecked(Some(false))) => after.step is Finished
            && action == CreateStatusAction::Respond(Err(AppError::Forbidden)),
        (CreateStatusStep::AwaitPermission { project_id }, CreateStatusEvent::PermissionChecked(Some(true))) => (after.step matches CreateStatusStep::AwaitSlugCheck {
            project_id: p2,
            base,
            n,
            candidate,
        } && p2 == project_id && base@ == base_slug(before.req) && n == 0 && candidate@ == base@) && (action matches CreateStatusAction::CheckSlug {
            project_id: p3,
            slug,
        } && p3 == project_id && slug@ == base_slug(before.req)),
        (CreateStatusStep::AwaitSlugCheck { project_id, base, n, .. }, CreateStatusEvent::SlugChecked(Some(true))) => if n
            < u32::MAX {
            (after.step matches CreateStatusStep::AwaitSlugCheck { project_id: p2, base: b2, n: n2, candidate } && p2 == project_id
                && b2 == base && n2 == n + 1 && candidate@ == slug_candidate(base@, (n + 1) as nat)) && (action matches CreateStatusAction::CheckSlug {
                project_id: p3,
                slug,
            } && p3 == project_id && slug@ == slug_candidate(base@, (n + 1) as nat))
        } else {
            after.step is Finished && action == CreateStatusAction::Respond(Err(AppError::Internal))
        },
        (CreateStatusStep::AwaitSlugCheck { project_id, candidate, .. }, CreateStatusEvent::SlugChecked(Some(false))) => after.step
            == (CreateStatusStep::AwaitMaxPosition { project_id, slug: candidate }) && action
            == (CreateStatusAction::FindMaxPosition { project_id, category: before.req.category }),
        (CreateStatusStep::AwaitMaxPosition { project_id, slug }, CreateStatusEvent::MaxPosition(Some(max))) => if next_position(max)
            <= i32::MAX {
            after.step is AwaitInsert && (action matches CreateStatusAction::Insert(n) && n.project_id == project_id && n.category
                == before.req.category && n.name@ == trim(before.req.name@) && n.slug == slug && n.position == next_position(max)
                && !n.is_default)
        } else {
            after.step is Finished && action == CreateStatusAction::Respond(Err(AppError::Internal))
        },
        (CreateStatusStep::AwaitInsert, CreateStatusEvent::Inserted(Some(row))) => after.step is Finished && (
        action matches CreateStatusAction::Respond(Ok(item)) && status_item_shows(item, row)),
        _ => after.step is Finished && action == CreateStatusAction::Respond(Err(AppError::Internal)),
    }
}

/// An addition in progress has a known category and a non-blank name; the slug
/// it tries is the `n`th candidate of its base.
pub open spec fn create_status_inv(f: CreateStatusFlow) -> bool {
    &&& !(f.step is Finished) ==> workflow_categories().contains(f.req.category@) && !is_blank(f.req.name@)
    &&& f.step matches CreateStatusStep::AwaitSlugCheck { base, n, candidate, .. } ==> candidate@ == slug_candidate(
        base@,
        n as nat,
    )
}

impl CreateStatusFlow {
    /// Starts the addition: an unknown category or a blank name is refused at once; else, find the project.
    pub fn start(org_slug: String, project_key: String, user_id: u128, req: CreateWorkflowStatusRequest) -> (r: (
        CreateStatusFlow,
        CreateStatusAction,
    ))
        ensures
            r.0.user_id == user_id && r.0.req == req,
            create_status_inv(r.0),
            !workflow_categories().contains(req.category@) ==> r.0.step is Finished && r.1 == CreateStatusAction::Respond(
                Err(AppError::BadRequest(Some("invalid category"))),
            ),
            workflow_categories().contains(req.category@) && is_blank(req.name@) ==> r.0.step is Finished && r.1
                == CreateStatusAction::Respond(Err(AppError::BadRequest(Some("name is required")))),
            workflow_categories().contains(req.category@) && !is_blank(req.name@) ==> r.0.step is AwaitProject && r.1
                == (CreateStatusAction::FindProject { org_slug, project_key }),
    {
        if !is_workflow_category(req.category.as_str()) {
            return (
                CreateStatusFlow { user_id, req, step: CreateStatusStep::Finished },
                CreateStatusAction::Respond(Err(AppError::BadRequest(Some("invalid category")))),
            );
        }
        if blank(req.name.as_str()) {
            return (
                CreateStatusFlow { user_id, req, step: CreateStatusStep::Finished },
                CreateStatusAction::Respond(Err(AppError::BadRequest(Some("name is required")))),
            );
        }
        (CreateStatusFlow { user_id, req, step: CreateStatusStep::AwaitProject }, CreateStatusAction::FindProject {
            org_slug,
            project_key,
        })
    }

    /// Takes in what the outside world reports and says what to do next.
    pub fn step(&mut self, event: CreateStatusEvent) -> (action: CreateStatusAction)
        requires
            create_status_inv(*old(self)),
        ensures
            final(self).user_id == old(self).user_id && final(self).req == old(self).req,
            create_status_inv(*final(self)),
            create_status_next(*old(self), event, *final(self), action),
    {
        let mut step = CreateStatusStep::Finished;
        std::mem::swap(&mut step, &mut self.step);
        match (step, event) {
            (CreateStatusStep::AwaitProject, CreateStatusEvent::ProjectFound(Some(None))) => CreateStatusAction::Respond(
                Err(AppError::NotFound),
            ),
            (CreateStatusStep::AwaitProject, CreateStatusEvent::ProjectFound(Some(Some(p)))) => {
                self.step = CreateStatusStep::AwaitPermission { project_id: p.id };
                CreateStatusAction::CheckPermission { project_id: p.id, user_id: self.user_id }
            },
            (CreateStatusStep::AwaitPermission { .. }, CreateStatusEvent::PermissionChecked(Some(false))) => CreateStatusAction::Respond(
                Err(AppError::Forbidden),
            ),
            (CreateStatusStep::AwaitPermission { project_id }, CreateStatusEvent::PermissionChecked(Some(true))) => {
                let base = match &self.req.slug {
                    Some(s) => slugify_workflow_name(s.as_str()),
                    None => slugify_workflow_name(self.req.name.as_str()),
                };
                let candidate = base.clone();
                let slug = base.clone();
                self.step = CreateStatusStep::AwaitSlugCheck { project_id, base, n: 0, candidate };
                CreateStatusAction::CheckSlug { project_id, slug }
            },
            (CreateStatusStep::AwaitSlugCheck { project_id, base, n, .. }, CreateStatusEvent::SlugChecked(Some(true))) => {
                if n < 4294967295 {
                    let candidate = candidate_slug(base.as_str(), n + 1);
                    let slug = candidate.clone();
                    self.step = CreateStatusStep::AwaitSlugCheck { project_id, base, n: n + 1, candidate };
                    CreateStatusAction::CheckSlug { project_id, slug }
                } else {
                    CreateStatusAction::Respond(Err(AppError::Internal))
                }
            },
            (CreateStatusStep::AwaitSlugCheck { project_id, candidate, .. }, CreateStatusEvent::SlugChecked(Some(false))) => {
                self.step = CreateStatusStep::AwaitMaxPosition { project_id, slug: candidate };
                CreateStatusAction::FindMaxPosition { project_id, category: self.req.category.clone() }
            },
            (CreateStatusStep::AwaitMaxPosition { project_id, slug }, CreateStatusEvent::MaxPosition(Some(max))) => {
                let position = match max {
                    Some(m) => {
                        if m == 2147483647 {
                            return CreateStatusAction::Respond(Err(AppError::Internal));
                        }
                        m + 1
                    },
                    None => 0,
                };
                let name = trim_str(self.req.name.as_str()).to_string();
                self.step = CreateStatusStep::AwaitInsert;
                CreateStatusAction::Insert(NewWorkflowStatus {
                    project_id,
                    category: self.req.category.clone(),
                    name,
                    slug,
                    position,
                    is_default: false,
                })
            },
            (CreateStatusStep::AwaitInsert, CreateStatusEvent::Inserted(Some(row))) => CreateStatusAction::Respond(
                Ok(status_item(&row)),
            ),
            _ => CreateStatusAction::Respond(Err(AppError::Internal)),
        }
    }
}

/// A status is inserted only under a slug that was just reported free, in a
/// known category, with a non-blank name.
pub proof fn lemma_created_slug_was_free(
    before: CreateStatusFlow,
    event: CreateStatusEvent,
    after: CreateStatusFlow,
    action: CreateStatusAction,
)
    requires
        create_status_inv(before),
        create_status_next(before, event, after, action),
        action is Insert,
    ensures
        before.step matches CreateStatusStep::AwaitMaxPosition { slug, .. } && action->Insert_0.slug == slug,
        workflow_categories().contains(action->Insert_0.category@),
        !is_blank(before.req.name@),
{
}

} // verus!
