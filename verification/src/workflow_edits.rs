use vstd::prelude::*;
use crate::error::AppError;
use crate::issue_lists::ProjectRef;
use crate::slug::{slugify, slugify_workflow_name};
use crate::text::{trim, trim_str};
use crate::workflow::{status_item, status_item_shows, WorkflowStatusItem, WorkflowStatusRow};

verus! {

/// The changes asked of a workflow status; each absent field stays as it is.
pub struct PatchWorkflowStatusRequest {
    pub name: Option<String>,
    pub slug: Option<String>,
    pub position: Option<i32>,
    pub is_default: Option<bool>,
}

/// Where the change of a workflow status stands.
pub enum PatchStatusStep {
    AwaitProject,
    AwaitPermission { project_id: u128 },
    AwaitCurrent { project_id: u128 },
    /// Waiting to hear whether the new slug is used by another status of the project.
    AwaitSlugCheck { project_id: u128, slug: String },
    AwaitUpdate { project_id: u128 },
    AwaitDefault,
    AwaitReload,
    Finished,
}

/// What the outside world reports back; `None` (or `false`) stands for a failed database call.
pub enum PatchStatusEvent {
    ProjectFound(Option<Option<ProjectRef>>),
    PermissionChecked(Option<bool>),
    CurrentFound(Option<Option<WorkflowStatusRow>>),
    SlugChecked(Option<bool>),
    Updated(Option<Option<WorkflowStatusRow>>),
    DefaultSet(bool),
    Reloaded(Option<Option<WorkflowStatusRow>>),
}

/// What the change asks for next.
pub enum PatchStatusAction {
    FindProject { org_slug: String, project_key: String },
    CheckPermission { project_id: u128, user_id: u128 },
    FindStatus { status_id: u128 },
    /// Is `slug` used in the project by a status other than `except`?
    CheckSlug { project_id: u128, slug: String, except: u128 },
    /// Sets the given fields of the status; an absent one is kept.
    Update { status_id: u128, name: Option<String>, slug: Option<String>, position: Option<i32> },
    /// In one transaction, makes the status the default of its category in the project.
    MakeDefault { status_id: u128, project_id: u128 },
    Reload { status_id: u128 },
    /// Answer: `Ok` is `200 OK`.
    Respond(Result<WorkflowStatusItem, AppError>),
}

/// The change of workflow status `status_id` by `user_id`.
pub struct PatchStatusFlow {
    pub user_id: u128,
    pub status_id: u128,
    pub req: PatchWorkflowStatusRequest,
    pub step: PatchStatusStep,
}

/// `r` holds the trimmed text of `o`, if any.
pub open spec fn trimmed_opt(o: Option<String>, r: Option<String>) -> bool {
    match (o, r) {
        (Some(a), Some(b)) => b@ == trim(a@),
        (None, None) => true,
        _ => false,
    }
}

/// The update that the change sends, with `slug` as the new slug, if any.
pub open spec fn is_update_of(
    action: PatchStatusAction,
    status_id: u128,
    req: PatchWorkflowStatusRequest,
    slug: Option<Seq<char>>,
) -> bool {
    action matches PatchStatusAction::Update { status_id: s, name, slug: sl, position } && s == status_id && trimmed_opt(
        req.name,
        name,
    ) && position == req.position && match (sl, slug) {
        (Some(a), Some(b)) => a@ == b,
        (None, None) => true,
        _ => false,
    }
}

/// The decision table of the change of a workflow status.
pub open spec fn patch_status_next(before: PatchStatusFlow, event: PatchStatusEvent, after: PatchStatusFlow, action: PatchStatusAction) -> bool {
    match (before.step, event) {
        (PatchStatusStep::AwaitProject, PatchStatusEvent::ProjectFound(Some(None))) => after.step is Finished && action
            == PatchStatusAction::Respond(Err(AppError::NotFound)),
        (PatchStatusStep::AwaitProject, PatchStatusEvent::ProjectFound(Some(Some(p)))) => after.step
            == (PatchStatusStep::AwaitPermission { project_id: p.id }) && action == (PatchStatusAction::CheckPermission {
            project_id: p.id,
            user_id: before.user_id,
        }),
        (PatchStatusStep::AwaitPermission { .. }, PatchStatusEvent::PermissionChecked(Some(false))) => after.step is Finished
            && action == PatchStatusAction::Respond(Err(AppError::Forbidden)),
        (PatchStatusStep::AwaitPermission { project_id }, PatchStatusEvent::PermissionChecked(Some(true))) => after.step
            == (PatchStatusStep::AwaitCurrent { project_id }) && action == (PatchStatusAction::FindStatus {
            status_id: before.status_id,
        }),
        (PatchStatusStep::AwaitCurrent { project_id }, PatchStatusEvent::CurrentFound(Some(found))) => match found {
            Some(row) if row.project_id == project_id => match before.req.slug {
                Some(s) => (after.step matches PatchStatusStep::AwaitSlugCheck { project_id: p2, slug } && p2 == project_id
                    && slug@ == slugify(s@)) && (action matches PatchStatusAction::CheckSlug { project_id: p3, slug, except }
                    && p3 == project_id && slug@ == slugify(s@) && except == before.status_id),
                None => after.step == (PatchStatusStep::AwaitUpdate { project_id }) && is_update_of(
                    action,
                    before.status_id,
                    before.req,
                    None,
                ),
            },
            _ => after.step is Finished && action == PatchStatusAction::Respond(Err(AppError::NotFound)),
        },
        (PatchStatusStep::AwaitSlugCheck { .. }, PatchStatusEvent::SlugChecked(Some(true))) => after.step is Finished
            && action == PatchStatusAction::Respond(Err(AppError::BadRequest(Some("slug already in use")))),
        (PatchStatusStep::AwaitSlugCheck { project_id, slug }, PatchStatusEvent::SlugChecked(Some(false))) => after.step
            == (PatchStatusStep::AwaitUpdate { project_id }) && is_update_of(
            action,
            before.status_id,
            before.req,
            Some(slug@),
        ),
        (PatchStatusStep::AwaitUpdate { .. }, PatchStatusEvent::Updated(Some(None))) => after.step is Finished && action
            == PatchStatusAction::Respond(Err(AppError::NotFound)),
        (PatchStatusStep::AwaitUpdate { project_id }, PatchStatusEvent::Updated(Some(Some(row)))) => if before.req.is_default
            == Some(true) {
            after.step is AwaitDefault && action == (PatchStatusAction::MakeDefault {
                status_id: before.status_id,
                project_id,
            })
        } else {
            after.step is Finished && (action matches PatchStatusAction::Respond(Ok(item)) && status_item_shows(item, row))
        },
        (PatchStatusStep::AwaitDefault, PatchStatusEvent::DefaultSet(true)) => after.step is AwaitReload && action
            == (PatchStatusAction::Reload { status_id: before.status_id }),
        (PatchStatusStep::AwaitReload, PatchStatusEvent::Reloaded(Some(Some(row)))) => after.step is Finished && (
        action matches PatchStatusAction::Respond(Ok(item)) && status_item_shows(item, row)),
        _ => after.step is Finished && action == PatchStatusAction::Respond(Err(AppError::Internal)),
    }
}

/// A change waiting on its slug check carries the slugified requested slug.
pub open spec fn patch_status_inv(f: PatchStatusFlow) -> bool {
    f.step matches PatchStatusStep::AwaitSlugCheck { slug, .. } ==> f.req.slug is Some && slug@ == slugify(
        f.req.slug->0@,
    )
}

fn trimmed_copy(o: &Option<String>) -> (r: Option<String>)
    ensures
        trimmed_opt(*o, r),
{
    match o {
        Some(n) => Some(trim_str(n.as_str()).to_string()),
        None => None,
    }
}

impl PatchStatusFlow {
    /// Starts the change: find the project.
    pub fn start(org_slug: String, project_key: String, status_id: u128, user_id: u128, req: PatchWorkflowStatusRequest) -> (r: (
        PatchStatusFlow,
        PatchStatusAction,
    ))
        ensures
            r.0.user_id == user_id && r.0.status_id == status_id && r.0.req == req,
            r.0.step is AwaitProject,
            patch_status_inv(r.0),
            r.1 == (PatchStatusAction::FindProject { org_slug, project_key }),
    {
        (PatchStatusFlow { user_id, status_id, req, step: PatchStatusStep::AwaitProject }, PatchStatusAction::FindProject {
            org_slug,
            project_key,
        })
    }

    /// Takes in what the outside world reports and says what to do next.
    pub fn step(&mut self, event: PatchStatusEvent) -> (action: PatchStatusAction)
        requires
            patch_status_inv(*old(self)),
        ensures
            patch_status_inv(*final(self)),
            final(self).user_id == old(self).user_id && final(self).status_id == old(self).status_id && final(self).req
                == old(self).req,
            patch_status_next(*old(self), event, *final(self), action),
    {
        let mut step = PatchStatusStep::Finished;
        std::mem::swap(&mut step, &mut self.step);
        match (step, event) {
            (PatchStatusStep::AwaitProject, PatchStatusEvent::ProjectFound(Some(None))) => PatchStatusAction::Respond(
                Err(AppError::NotFound),
            ),
            (PatchStatusStep::AwaitProject, PatchStatusEvent::ProjectFound(Some(Some(p)))) => {
                self.step = PatchStatusStep::AwaitPermission { project_id: p.id };
                PatchStatusAction::CheckPermission { project_id: p.id, user_id: self.user_id }
            },
            (PatchStatusStep::AwaitPermission { .. }, PatchStatusEvent::PermissionChecked(Some(false))) => PatchStatusAction::Respond(
                Err(AppError::Forbidden),
            ),
            (PatchStatusStep::AwaitPermission { project_id }, PatchStatusEvent::PermissionChecked(Some(true))) => {
                self.step = PatchStatusStep::AwaitCurrent { project_id };
                PatchStatusAction::FindStatus { status_id: self.status_id }
            },
            (PatchStatusStep::AwaitCurrent { project_id }, PatchStatusEvent::CurrentFound(Some(found))) => {
                match found {
                    Some(row) => {
                        if row.project_id != project_id {
                            return PatchStatusAction::Respond(Err(AppError::NotFound));
                        }
                        match &self.req.slug {
                            Some(s) => {
                                let slug = slugify_workflow_name(s.as_str());
                                let asked = slug.clone();
                                self.step = PatchStatusStep::AwaitSlugCheck { project_id, slug };
                                PatchStatusAction::CheckSlug { project_id, slug: asked, except: self.status_id }
                            },
                            None => {
                                self.step = PatchStatusStep::AwaitUpdate { project_id };
                                PatchStatusAction::Update {
                                    status_id: self.status_id,
                                    name: trimmed_copy(&self.req.name),
                                    slug: None,
                                    position: self.req.position,
                                }
                            },
                        }
                    },
                    None => PatchStatusAction::Respond(Err(AppError::NotFound)),
                }
            },
            (PatchStatusStep::AwaitSlugCheck { .. }, PatchStatusEvent::SlugChecked(Some(true))) => PatchStatusAction::Respond(
                Err(AppError::BadRequest(Some("slug already in use"))),
            ),
            (PatchStatusStep::AwaitSlugCheck { project_id, slug }, PatchStatusEvent::SlugChecked(Some(false))) => {
                self.step = PatchStatusStep::AwaitUpdate { project_id };
                PatchStatusAction::Update {
                    status_id: self.status_id,
                    name: trimmed_copy(&self.req.name),
                    slug: Some(slug),
                    position: self.req.position,
                }
            },
            (PatchStatusStep::AwaitUpdate { .. }, PatchStatusEvent::Updated(Some(None))) => PatchStatusAction::Respond(
                Err(AppError::NotFound),
            ),
            (PatchStatusStep::AwaitUpdate { project_id }, PatchStatusEvent::Updated(Some(Some(row)))) => {
                let make_default = match self.req.is_default {
                    Some(d) => d,
                    None => false,
                };
                if make_default {
                    self.step = PatchStatusStep::AwaitDefault;
                    PatchStatusAction::MakeDefault { status_id: self.status_id, project_id }
                } else {
                    PatchStatusAction::Respond(Ok(status_item(&row)))
                }
            },
            (PatchStatusStep::AwaitDefault, PatchStatusEvent::DefaultSet(true)) => {
                self.step = PatchStatusStep::AwaitReload;
                PatchStatusAction::Reload { status_id: self.status_id }
            },
            (PatchStatusStep::AwaitReload, PatchStatusEvent::Reloaded(Some(Some(row)))) => PatchStatusAction::Respond(
                Ok(status_item(&row)),
            ),
            _ => PatchStatusAction::Respond(Err(AppError::Internal)),
        }
    }
}

/// A status is given a new slug only once that slug, the slugified request,
/// was reported free of other statuses of the project.
pub proof fn lemma_patched_slug_was_free(
    before: PatchStatusFlow,
    event: PatchStatusEvent,
    after: PatchStatusFlow,
    action: PatchStatusAction,
)
    requires
        patch_status_inv(before),
        patch_status_next(before, event, after, action),
        action matches PatchStatusAction::Update { slug: Some(_), .. },
    ensures
        before.step matches PatchStatusStep::AwaitSlugCheck { slug, .. } && action->Update_slug->0@ == slug@,
        event == PatchStatusEvent::SlugChecked(Some(false)),
        before.req.slug is Some && action->Update_slug->0@ == slugify(before.req.slug->0@),
{
}

/// Where a workflow status is to go to: the status that takes over its issues.
pub struct DeleteWorkflowStatusQuery {
    pub reassign_to: u128,
}

/// Where the removal of a workflow status stands.
pub enum DeleteStatusStep {
    AwaitProject,
    AwaitPermission { project_id: u128 },
    AwaitCurrent { project_id: u128 },
    AwaitTargetCheck,
    AwaitReassign,
    AwaitCount,
    AwaitDelete,
    AwaitCommit,
    Finished,
}

/// What the outside world reports back; `None` (or `false`) stands for a failed database call.
pub enum DeleteStatusEvent {
    ProjectFound(Option<Option<ProjectRef>>),
    PermissionChecked(Option<bool>),
    CurrentFound(Option<Option<WorkflowStatusRow>>),
    /// Whether the target status belongs to the project.
    TargetChecked(Option<bool>),
    Reassigned(bool),
    /// How many issues are still on the status.
    Counted(Option<i64>),
    /// How many statuses were deleted.
    Deleted(Option<u64>),
    Committed(bool),
}

/// What the removal asks for next. The moves, the count and the deletion run in
/// one transaction, which an error answer abandons.
pub enum DeleteStatusAction {
    FindProject { org_slug: String, project_key: String },
    CheckPermission { project_id: u128, user_id: u128 },
    FindStatus { status_id: u128 },
    CheckTarget { project_id: u128, status_id: u128 },
    /// Opens the transaction and moves the issues of `from` to `to`.
    Reassign { from: u128, to: u128 },
    CountIssues { status_id: u128 },
    Delete { status_id: u128 },
    Commit,
    /// Answer: `Ok` is `204 No Content`.
    Respond(Result<(), AppError>),
}

/// The removal of workflow status `status_id` by `user_id`.
pub struct DeleteStatusFlow {
    pub user_id: u128,
    pub status_id: u128,
    pub reassign_to: u128,
    pub step: DeleteStatusStep,
}

/// The decision table of the removal of a workflow status.
pub open spec fn delete_status_next(before: DeleteStatusFlow, event: DeleteStatusEvent, after: DeleteStatusFlow, action: DeleteStatusAction) -> bool {
    match (before.step, event) {
        (DeleteStatusStep::AwaitProject, DeleteStatusEvent::ProjectFound(Some(None))) => after.step is Finished && action
            == DeleteStatusAction::Respond(Err(AppError::NotFound)),
        (DeleteStatusStep::AwaitProject, DeleteStatusEvent::ProjectFound(Some(Some(p)))) => after.step
            == (DeleteStatusStep::AwaitPermission { project_id: p.id }) && action == (DeleteStatusAction::CheckPermission {
            project_id: p.id,
            user_id: before.user_id,
        }),
        (DeleteStatusStep::AwaitPermission { .. }, DeleteStatusEvent::PermissionChecked(Some(false))) => after.step is Finished
            && action == DeleteStatusAction::Respond(Err(AppError::Forbidden)),
        (DeleteStatusStep::AwaitPermission { project_id }, DeleteStatusEvent::PermissionChecked(Some(true))) => after.step
            == (DeleteStatusStep::AwaitCurrent { project_id }) && action == (DeleteStatusAction::FindStatus {
            status_id: before.status_id,
        }),
        (DeleteStatusStep::AwaitCurrent { project_id }, DeleteStatusEvent::CurrentFound(Some(found))) => match found {
            Some(row) if row.project_id == project_id => if before.reassign_to == before.status_id {
                after.step is Finished && action == DeleteStatusAction::Respond(
                    Err(AppError::BadRequest(Some("reassign_to must differ from deleted status"))),
                )
            } else {
                after.step is AwaitTargetCheck && action == (DeleteStatusAction::CheckTarget {
                    project_id,
                    status_id: before.reassign_to,
                })
            },
            _ => after.step is Finished && action == DeleteStatusAction::Respond(Err(AppError::NotFound)),
        },
        (DeleteStatusStep::AwaitTargetCheck, DeleteStatusEvent::TargetChecked(Some(false))) => after.step is Finished
            && action == DeleteStatusAction::Respond(Err(AppError::BadRequest(Some("reassign_to not in project")))),
        (DeleteStatusStep::AwaitTargetCheck, DeleteStatusEvent::TargetChecked(Some(true))) => after.step is AwaitReassign
            && action == (DeleteStatusAction::Reassign { from: before.status_id, to: before.reassign_to }),
        (DeleteStatusStep::AwaitReassign, DeleteStatusEvent::Reassigned(true)) => after.step is AwaitCount && action
            == (DeleteStatusAction::CountIssues { status_id: before.status_id }),
        (DeleteStatusStep::AwaitCount, DeleteStatusEvent::Counted(Some(n))) => if n > 0 {
            after.step is Finished && action == DeleteStatusAction::Respond(
                Err(AppError::InternalMessage("issues still on status")),
            )
        } else {
            after.step is AwaitDelete && action == (DeleteStatusAction::Delete { status_id: before.status_id })
        },
        (DeleteStatusStep::AwaitDelete, DeleteStatusEvent::Deleted(Some(n))) => if n == 0 {
            after.step is Finished && action == DeleteStatusAction::Respond(Err(AppError::NotFound))
        } else {
            after.step is AwaitCommit && action == DeleteStatusAction::Commit
        },
        (DeleteStatusStep::AwaitCommit, DeleteStatusEvent::Committed(true)) => after.step is Finished && action
            == DeleteStatusAction::Respond(Ok(())),
        _ => after.step is Finished && action == DeleteStatusAction::Respond(Err(AppError::Internal)),
    }
}

/// From the target check on, the status that takes over differs from the one removed.
pub open spec fn delete_status_inv(f: DeleteStatusFlow) -> bool {
    &&& (f.step is AwaitTargetCheck || f.step is AwaitReassign || f.step is AwaitCount || f.step is AwaitDelete
        || f.step is AwaitCommit) ==> f.reassign_to != f.status_id
}

impl DeleteStatusFlow {
    /// Starts the removal: find the project.
    pub fn start(org_slug: String, project_key: String, status_id: u128, user_id: u128, q: DeleteWorkflowStatusQuery) -> (r: (
        DeleteStatusFlow,
        DeleteStatusAction,
    ))
        ensures
            r.0.user_id == user_id && r.0.status_id == status_id && r.0.reassign_to == q.reassign_to,
            r.0.step is AwaitProject,
            delete_status_inv(r.0),
            r.1 == (DeleteStatusAction::FindProject { org_slug, project_key }),
    {
        (
            DeleteStatusFlow { user_id, status_id, reassign_to: q.reassign_to, step: DeleteStatusStep::AwaitProject },
            DeleteStatusAction::FindProject { org_slug, project_key },
        )
    }

    /// Takes in what the outside world reports and says what to do next.
    pub fn step(&mut self, event: DeleteStatusEvent) -> (action: DeleteStatusAction)
        requires
            delete_status_inv(*old(self)),
        ensures
            final(self).user_id == old(self).user_id && final(self).status_id == old(self).status_id
                && final(self).reassign_to == old(self).reassign_to,
            delete_status_inv(*final(self)),
            delete_status_next(*old(self), event, *final(self), action),
    {
        let mut step = DeleteStatusStep::Finished;
        std::mem::swap(&mut step, &mut self.step);
        match (step, event) {
            (DeleteStatusStep::AwaitProject, DeleteStatusEvent::ProjectFound(Some(None))) => DeleteStatusAction::Respond(
                Err(AppError::NotFound),
            ),
            (DeleteStatusStep::AwaitProject, DeleteStatusEvent::ProjectFound(Some(Some(p)))) => {
                self.step = DeleteStatusStep::AwaitPermission { project_id: p.id };
                DeleteStatusAction::CheckPermission { project_id: p.id, user_id: self.user_id }
            },
            (DeleteStatusStep::AwaitPermission { .. }, DeleteStatusEvent::PermissionChecked(Some(false))) => DeleteStatusAction::Respond(
                Err(AppError::Forbidden),
            ),
            (DeleteStatusStep::AwaitPermission { project_id }, DeleteStatusEvent::PermissionChecked(Some(true))) => {
                self.step = DeleteStatusStep::AwaitCurrent { project_id };
                DeleteStatusAction::FindStatus { status_id: self.status_id }
            },
            (DeleteStatusStep::AwaitCurrent { project_id }, DeleteStatusEvent::CurrentFound(Some(found))) => {
                match found {
                    Some(row) => {
                        if row.project_id != project_id {
                            DeleteStatusAction::Respond(Err(AppError::NotFound))
                        } else if self.reassign_to == self.status_id {
                            DeleteStatusAction::Respond(
                                Err(AppError::BadRequest(Some("reassign_to must differ from deleted status"))),
                            )
                        } else {
                            self.step = DeleteStatusStep::AwaitTargetCheck;
                            DeleteStatusAction::CheckTarget { project_id, status_id: self.reassign_to }
                        }
                    },
                    None => DeleteStatusAction::Respond(Err(AppError::NotFound)),
                }
            },
            (DeleteStatusStep::AwaitTargetCheck, DeleteStatusEvent::TargetChecked(Some(false))) => DeleteStatusAction::Respond(
                Err(AppError::BadRequest(Some("reassign_to not in project"))),
            ),
            (DeleteStatusStep::AwaitTargetCheck, DeleteStatusEvent::TargetChecked(Some(true))) => {
                self.step = DeleteStatusStep::AwaitReassign;
                DeleteStatusAction::Reassign { from: self.status_id, to: self.reassign_to }
            },
            (DeleteStatusStep::AwaitReassign, DeleteStatusEvent::Reassigned(true)) => {
                self.step = DeleteStatusStep::AwaitCount;
                DeleteStatusAction::CountIssues { status_id: self.status_id }
            },
            (DeleteStatusStep::AwaitCount, DeleteStatusEvent::Counted(Some(n))) => {
                if n > 0 {
                    DeleteStatusAction::Respond(Err(AppError::InternalMessage("issues still on status")))
                } else {
                    self.step = DeleteStatusStep::AwaitDelete;
                    DeleteStatusAction::Delete { status_id: self.status_id }
                }
            },
            (DeleteStatusStep::AwaitDelete, DeleteStatusEvent::Deleted(Some(n))) => {
                if n == 0 {
                    DeleteStatusAction::Respond(Err(AppError::NotFound))
                } else {
                    self.step = DeleteStatusStep::AwaitCommit;
                    DeleteStatusAction::Commit
                }
            },
            (DeleteStatusStep::AwaitCommit, DeleteStatusEvent::Committed(true)) => DeleteStatusAction::Respond(Ok(())),
            _ => DeleteStatusAction::Respond(Err(AppError::Internal)),
        }
    }
}

/// A status is deleted only after its issues were moved to another status and
/// none was counted left on it; the removal succeeds only after that deletion.
pub proof fn lemma_delete_only_when_emptied(
    before: DeleteStatusFlow,
    event: DeleteStatusEvent,
    after: DeleteStatusFlow,
    action: DeleteStatusAction,
)
    requires
        delete_status_inv(before),
        delete_status_next(before, event, after, action),
    ensures
        action is Delete ==> before.step is AwaitCount && (event matches DeleteStatusEvent::Counted(Some(n)) && n <= 0)
            && before.reassign_to != before.status_id && action->Delete_status_id == before.status_id,
        action == DeleteStatusAction::Respond(Ok(())) ==> before.step is AwaitCommit,
{
}

} // verus!
