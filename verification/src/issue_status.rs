use vstd::prelude::*;
use crate::error::AppError;

verus! {

/// The request to move an issue to another workflow status.
pub struct UpdateIssueStatusRequest {
    pub workflow_status_id: Option<u128>,
    /// Without `workflow_status_id`: the first status of this category in the issue's project.
    pub category: Option<String>,
}

/// The answer to a status change.
pub struct UpdateIssueStatusResponse {
    pub issue_id: u128,
    pub workflow_status_id: u128,
    pub status: String,
}

/// Where a status change stands.
pub enum UpdateStatusStep {
    AwaitIssue,
    AwaitMember { project_id: u128 },
    AwaitCategory { project_id: u128 },
    AwaitBelongs { status_id: u128 },
    AwaitUpdate { status_id: u128 },
    AwaitSlug { status_id: u128 },
    Finished,
}

/// What the outside world reports back; `None` (or `false` for `Updated`)
/// stands for a failed database call.
pub enum UpdateStatusEvent {
    ProjectFound(Option<Option<u128>>),
    MemberChecked(Option<bool>),
    CategoryResolved(Option<Option<u128>>),
    BelongsChecked(Option<bool>),
    Updated(bool),
    /// The slug of the status, if the status is found.
    SlugFound(Option<Option<String>>),
}

/// What the status change asks for next.
pub enum UpdateStatusAction {
    /// The project of the issue.
    FindIssueProject { issue_id: u128 },
    CheckMember { project_id: u128, user_id: u128 },
    /// The first status of the category in the project, by position.
    FirstStatusInCategory { project_id: u128, category: String },
    CheckStatusBelongs { project_id: u128, status_id: u128 },
    SetStatus { issue_id: u128, status_id: u128 },
    /// The slug of the status.
    FindSlug { status_id: u128 },
    Respond(Result<UpdateIssueStatusResponse, AppError>),
}

/// A change of the status of `issue_id` by `user_id`.
pub struct UpdateStatusFlow {
    pub issue_id: u128,
    pub user_id: u128,
    pub req: UpdateIssueStatusRequest,
    pub step: UpdateStatusStep,
}

/// Ends with an error.
pub open spec fn status_fails(after: UpdateStatusFlow, action: UpdateStatusAction, e: AppError) -> bool {
    after.step is Finished && action == UpdateStatusAction::Respond(Err(e))
}

/// Checks that the chosen status belongs to the project.
pub open spec fn check_belongs(after: UpdateStatusFlow, action: UpdateStatusAction, project_id: u128, status_id: u128) -> bool {
    after.step == (UpdateStatusStep::AwaitBelongs { status_id }) && action == (UpdateStatusAction::CheckStatusBelongs {
        project_id,
        status_id,
    })
}

/// The decision table of a status change.
pub open spec fn update_status_next(before: UpdateStatusFlow, event: UpdateStatusEvent, after: UpdateStatusFlow, action: UpdateStatusAction) -> bool {
    match (before.step, event) {
        (UpdateStatusStep::AwaitIssue, UpdateStatusEvent::ProjectFound(Some(None))) => status_fails(after, action, AppError::NotFound),
        (UpdateStatusStep::AwaitIssue, UpdateStatusEvent::ProjectFound(Some(Some(p)))) => after.step
            == (UpdateStatusStep::AwaitMember { project_id: p }) && action == (UpdateStatusAction::CheckMember {
            project_id: p,
            user_id: before.user_id,
        }),
        (UpdateStatusStep::AwaitMember { .. }, UpdateStatusEvent::MemberChecked(Some(false))) => status_fails(after, action, AppError::Forbidden),
        (UpdateStatusStep::AwaitMember { project_id }, UpdateStatusEvent::MemberChecked(Some(true))) => match before.req.workflow_status_id {
            Some(w) => check_belongs(after, action, project_id, w),
            None => match before.req.category {
                Some(c) => after.step == (UpdateStatusStep::AwaitCategory { project_id }) && action
                    == (UpdateStatusAction::FirstStatusInCategory { project_id, category: c }),
                None => status_fails(after, action, AppError::BadRequest(Some("workflow_status_id or category required"))),
            },
        },
        (UpdateStatusStep::AwaitCategory { .. }, UpdateStatusEvent::CategoryResolved(Some(None))) => status_fails(
            after,
            action,
            AppError::BadRequest(Some("unknown category for project")),
        ),
        (UpdateStatusStep::AwaitCategory { project_id }, UpdateStatusEvent::CategoryResolved(Some(Some(w)))) => check_belongs(
            after,
            action,
            project_id,
            w,
        ),
        (UpdateStatusStep::AwaitBelongs { .. }, UpdateStatusEvent::BelongsChecked(Some(false))) => status_fails(
            after,
            action,
            AppError::BadRequest(Some("status not in project")),
        ),
        (UpdateStatusStep::AwaitBelongs { status_id }, UpdateStatusEvent::BelongsChecked(Some(true))) => after.step
            == (UpdateStatusStep::AwaitUpdate { status_id }) && action == (UpdateStatusAction::SetStatus {
            issue_id: before.issue_id,
            status_id,
        }),
        (UpdateStatusStep::AwaitUpdate { status_id }, UpdateStatusEvent::Updated(true)) => after.step
            == (UpdateStatusStep::AwaitSlug { status_id }) && action == (UpdateStatusAction::FindSlug { status_id }),
        (UpdateStatusStep::AwaitSlug { status_id }, UpdateStatusEvent::SlugFound(Some(Some(slug)))) => after.step is Finished
            && action == UpdateStatusAction::Respond(
            Ok(UpdateIssueStatusResponse { issue_id: before.issue_id, workflow_status_id: status_id, status: slug }),
        ),
        _ => status_fails(after, action, AppError::Internal),
    }
}

impl UpdateStatusFlow {
    /// Starts a status change: first, the project of the issue.
    pub fn start(issue_id: u128, user_id: u128, req: UpdateIssueStatusRequest) -> (r: (UpdateStatusFlow, UpdateStatusAction))
        ensures
            r.0.issue_id == issue_id && r.0.user_id == user_id && r.0.req == req,
            r.0.step is AwaitIssue,
            r.1 == (UpdateStatusAction::FindIssueProject { issue_id }),
    {
        (UpdateStatusFlow { issue_id, user_id, req, step: UpdateStatusStep::AwaitIssue }, UpdateStatusAction::FindIssueProject {
            issue_id,
        })
    }

    /// Takes in what the outside world reports and says what to do next.
    pub fn step(&mut self, event: UpdateStatusEvent) -> (action: UpdateStatusAction)
        ensures
            final(self).issue_id == old(self).issue_id && final(self).user_id == old(self).user_id
                && final(self).req == old(self).req,
            update_status_next(*old(self), event, *final(self), action),
    {
        let mut step = UpdateStatusStep::Finished;
        std::mem::swap(&mut step, &mut self.step);
        match (step, event) {
            (UpdateStatusStep::AwaitIssue, UpdateStatusEvent::ProjectFound(Some(None))) => UpdateStatusAction::Respond(
                Err(AppError::NotFound),
            ),
            (UpdateStatusStep::AwaitIssue, UpdateStatusEvent::ProjectFound(Some(Some(p)))) => {
                self.step = UpdateStatusStep::AwaitMember { project_id: p };
                UpdateStatusAction::CheckMember { project_id: p, user_id: self.user_id }
            },
            (UpdateStatusStep::AwaitMember { .. }, UpdateStatusEvent::MemberChecked(Some(false))) => UpdateStatusAction::Respond(
                Err(AppError::Forbidden),
            ),
            (UpdateStatusStep::AwaitMember { project_id }, UpdateStatusEvent::MemberChecked(Some(true))) => {
                match self.req.workflow_status_id {
                    Some(w) => {
                        self.step = UpdateStatusStep::AwaitBelongs { status_id: w };
                        UpdateStatusAction::CheckStatusBelongs { project_id, status_id: w }
                    },
                    None => match &self.req.category {
                        Some(c) => {
                            let category = c.clone();
                            self.step = UpdateStatusStep::AwaitCategory { project_id };
                            UpdateStatusAction::FirstStatusInCategory { project_id, category }
                        },
                        None => UpdateStatusAction::Respond(
                            Err(AppError::BadRequest(Some("workflow_status_id or category required"))),
                        ),
                    },
                }
            },
            (UpdateStatusStep::AwaitCategory { .. }, UpdateStatusEvent::CategoryResolved(Some(None))) => UpdateStatusAction::Respond(
                Err(AppError::BadRequest(Some("unknown category for project"))),
            ),
            (UpdateStatusStep::AwaitCategory { project_id }, UpdateStatusEvent::CategoryResolved(Some(Some(w)))) => {
                self.step = UpdateStatusStep::AwaitBelongs { status_id: w };
                UpdateStatusAction::CheckStatusBelongs { project_id, status_id: w }
            },
            (UpdateStatusStep::AwaitBelongs { .. }, UpdateStatusEvent::BelongsChecked(Some(false))) => UpdateStatusAction::Respond(
                Err(AppError::BadRequest(Some("status not in project"))),
            ),
            (UpdateStatusStep::AwaitBelongs { status_id }, UpdateStatusEvent::BelongsChecked(Some(true))) => {
                self.step = UpdateStatusStep::AwaitUpdate { status_id };
                UpdateStatusAction::SetStatus { issue_id: self.issue_id, status_id }
            },
            (UpdateStatusStep::AwaitUpdate { status_id }, UpdateStatusEvent::Updated(true)) => {
                self.step = UpdateStatusStep::AwaitSlug { status_id };
                UpdateStatusAction::FindSlug { status_id }
            },
            (UpdateStatusStep::AwaitSlug { status_id }, UpdateStatusEvent::SlugFound(Some(Some(slug)))) => {
                UpdateStatusAction::Respond(
                    Ok(UpdateIssueStatusResponse { issue_id: self.issue_id, workflow_status_id: status_id, status: slug }),
                )
            },
            _ => UpdateStatusAction::Respond(Err(AppError::Internal)),
        }
    }
}

/// The request to move an issue on the board.
pub struct UpdateIssueBoardPositionRequest {
    pub workflow_status_id: u128,
    pub position: i32,
}

/// The answer to a board move.
pub struct UpdateIssueBoardPositionResponse {
    pub issue_id: u128,
    pub workflow_status_id: u128,
    pub status: String,
    pub position: i32,
}

/// Where a board move stands.
pub enum BoardMoveStep {
    AwaitIssue,
    AwaitMember { project_id: u128 },
    AwaitBelongs,
    AwaitUpdate,
    AwaitSlug,
    Finished,
}

/// What the outside world reports back; `None` (or `false` for `Updated`)
/// stands for a failed database call.
pub enum BoardMoveEvent {
    ProjectFound(Option<Option<u128>>),
    MemberChecked(Option<bool>),
    BelongsChecked(Option<bool>),
    Updated(bool),
    SlugFound(Option<Option<String>>),
}

/// What the board move asks for next.
pub enum BoardMoveAction {
    FindIssueProject { issue_id: u128 },
    CheckMember { project_id: u128, user_id: u128 },
    CheckStatusBelongs { project_id: u128, status_id: u128 },
    /// Set the issue's status and its position on the board.
    SetStatusAndPosition { issue_id: u128, status_id: u128, position: i32 },
    FindSlug { status_id: u128 },
    Respond(Result<UpdateIssueBoardPositionResponse, AppError>),
}

/// A move of `issue_id` on the board by `user_id`.
pub struct BoardMoveFlow {
    pub issue_id: u128,
    pub user_id: u128,
    pub req: UpdateIssueBoardPositionRequest,
    pub step: BoardMoveStep,
}

/// The decision table of a board move.
pub open spec fn board_move_next(before: BoardMoveFlow, event: BoardMoveEvent, after: BoardMoveFlow, action: BoardMoveAction) -> bool {
    match (before.step, event) {
        (BoardMoveStep::AwaitIssue, BoardMoveEvent::ProjectFound(Some(None))) => after.step is Finished && action
            == BoardMoveAction::Respond(Err(AppError::NotFound)),
        (BoardMoveStep::AwaitIssue, BoardMoveEvent::ProjectFound(Some(Some(p)))) => after.step
            == (BoardMoveStep::AwaitMember { project_id: p }) && action == (BoardMoveAction::CheckMember {
            project_id: p,
            user_id: before.user_id,
        }),
        (BoardMoveStep::AwaitMember { .. }, BoardMoveEvent::MemberChecked(Some(false))) => after.step is Finished && action
            == BoardMoveAction::Respond(Err(AppError::Forbidden)),
        (BoardMoveStep::AwaitMember { project_id }, BoardMoveEvent::MemberChecked(Some(true))) => after.step is AwaitBelongs
            && action == (BoardMoveAction::CheckStatusBelongs { project_id, status_id: before.req.workflow_status_id }),
        (BoardMoveStep::AwaitBelongs, BoardMoveEvent::BelongsChecked(Some(false))) => after.step is Finished && action
            == BoardMoveAction::Respond(Err(AppError::BadRequest(Some("status not in project")))),
        (BoardMoveStep::AwaitBelongs, BoardMoveEvent::BelongsChecked(Some(true))) => after.step is AwaitUpdate && action
            == (BoardMoveAction::SetStatusAndPosition {
            issue_id: before.issue_id,
            status_id: before.req.workflow_status_id,
            position: before.req.position,
        }),
        (BoardMoveStep::AwaitUpdate, BoardMoveEvent::Updated(true)) => after.step is AwaitSlug && action
            == (BoardMoveAction::FindSlug { status_id: before.req.workflow_status_id }),
        (BoardMoveStep::AwaitSlug, BoardMoveEvent::SlugFound(Some(Some(slug)))) => after.step is Finished && action
            == BoardMoveAction::Respond(
            Ok(UpdateIssueBoardPositionResponse {
                issue_id: before.issue_id,
                workflow_status_id: before.req.workflow_status_id,
                status: slug,
                position: before.req.position,
            }),
        ),
        _ => after.step is Finished && action == BoardMoveAction::Respond(Err(AppError::Internal)),
    }
}

impl BoardMoveFlow {
    /// Starts a board move: first, the project of the issue.
    pub fn start(issue_id: u128, user_id: u128, req: UpdateIssueBoardPositionRequest) -> (r: (BoardMoveFlow, BoardMoveAction))
        ensures
            r.0.issue_id == issue_id && r.0.user_id == user_id && r.0.req == req,
            r.0.step is AwaitIssue,
            r.1 == (BoardMoveAction::FindIssueProject { issue_id }),
    {
        (BoardMoveFlow { issue_id, user_id, req, step: BoardMoveStep::AwaitIssue }, BoardMoveAction::FindIssueProject { issue_id })
    }

    /// Takes in what the outside world reports and says what to do next.
    pub fn step(&mut self, event: BoardMoveEvent) -> (action: BoardMoveAction)
        ensures
            final(self).issue_id == old(self).issue_id && final(self).user_id == old(self).user_id
                && final(self).req == old(self).req,
            board_move_next(*old(self), event, *final(self), action),
    {
        let mut step = BoardMoveStep::Finished;
        std::mem::swap(&mut step, &mut self.step);
        match (step, event) {
            (BoardMoveStep::AwaitIssue, BoardMoveEvent::ProjectFound(Some(None))) => BoardMoveAction::Respond(Err(AppError::NotFound)),
            (BoardMoveStep::AwaitIssue, BoardMoveEvent::ProjectFound(Some(Some(p)))) => {
                self.step = BoardMoveStep::AwaitMember { project_id: p };
                BoardMoveAction::CheckMember { project_id: p, user_id: self.user_id }
            },
            (BoardMoveStep::AwaitMember { .. }, BoardMoveEvent::MemberChecked(Some(false))) => BoardMoveAction::Respond(
                Err(AppError::Forbidden),
            ),
            (BoardMoveStep::AwaitMember { project_id }, BoardMoveEvent::MemberChecked(Some(true))) => {
                self.step = BoardMoveStep::AwaitBelongs;
                BoardMoveAction::CheckStatusBelongs { project_id, status_id: self.req.workflow_status_id }
            },
            (BoardMoveStep::AwaitBelongs, BoardMoveEvent::BelongsChecked(Some(false))) => BoardMoveAction::Respond(
                Err(AppError::BadRequest(Some("status not in project"))),
            ),
            (BoardMoveStep::AwaitBelongs, BoardMoveEvent::BelongsChecked(Some(true))) => {
                self.step = BoardMoveStep::AwaitUpdate;
                BoardMoveAction::SetStatusAndPosition {
                    issue_id: self.issue_id,
                    status_id: self.req.workflow_status_id,
                    position: self.req.position,
                }
            },
            (BoardMoveStep::AwaitUpdate, BoardMoveEvent::Updated(true)) => {
                self.step = BoardMoveStep::AwaitSlug;
                BoardMoveAction::FindSlug { status_id: self.req.workflow_status_id }
            },
            (BoardMoveStep::AwaitSlug, BoardMoveEvent::SlugFound(Some(Some(slug)))) => BoardMoveAction::Respond(
                Ok(UpdateIssueBoardPositionResponse {
                    issue_id: self.issue_id,
                    workflow_status_id: self.req.workflow_status_id,
                    status: slug,
                    position: self.req.position,
                }),
            ),
            _ => BoardMoveAction::Respond(Err(AppError::Internal)),
        }
    }
}

} // verus!
