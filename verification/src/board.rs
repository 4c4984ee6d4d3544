use vstd::prelude::*;
use crate::error::AppError;
use crate::issue_lists::{items_show, summaries_to_items, IssueListItem, IssueSummaryRow, ProjectRef};
use crate::workflow::WorkflowStatusRow;

verus! {

broadcast use vstd::seq_lib::group_seq_properties;

/// A column of the board: one workflow status.
pub struct BoardColumnDef {
    pub id: u128,
    pub name: String,
    pub slug: String,
    pub category: String,
    pub position: i32,
}

/// The issues on one column, keyed by the column's workflow status id.
pub struct BoardColumn {
    pub status_id: u128,
    pub items: Vec<IssueListItem>,
}

/// A project's board: its columns and the issues on each.
pub struct BoardResponse {
    pub column_definitions: Vec<BoardColumnDef>,
    /// One entry per key, keys distinct.
    pub items_by_column: Vec<BoardColumn>,
}

/// `d` shows the workflow status `w`.
pub open spec fn column_def_shows(d: BoardColumnDef, w: WorkflowStatusRow) -> bool {
    &&& d.id == w.id
    &&& d.name == w.name
    &&& d.slug == w.slug
    &&& d.category == w.category
    &&& d.position == w.position
}

/// The rows in the column of a status, in order.
pub open spec fn rows_with_status(rows: Seq<IssueSummaryRow>, id: u128) -> Seq<IssueSummaryRow> {
    rows.filter(|r: IssueSummaryRow| r.workflow_status_id == id)
}

/// Some column has this key.
pub open spec fn has_column(cols: Seq<BoardColumn>, id: u128) -> bool {
    exists|k: int| 0 <= k < cols.len() && #[trigger] cols[k].status_id == id
}

/// `key` is the id of one of the statuses or the status of one of the rows.
pub open spec fn key_known(defs: Seq<WorkflowStatusRow>, rows: Seq<IssueSummaryRow>, key: u128) -> bool {
    (exists|i: int| 0 <= i < defs.len() && #[trigger] defs[i].id == key)
        || (exists|i: int| 0 <= i < rows.len() && #[trigger] rows[i].workflow_status_id == key)
}

/// `b` is the board of the statuses `defs` and the issue rows `rows`: one
/// column definition per status in order; one entry per status and per status
/// that an issue is in, each holding the issues in that status in order.
pub open spec fn board_of(b: BoardResponse, project_key: Seq<char>, defs: Seq<WorkflowStatusRow>, rows: Seq<IssueSummaryRow>) -> bool {
    let cols = b.items_by_column@;
    &&& b.column_definitions@.len() == defs.len()
    &&& forall|i: int| 0 <= i < defs.len() ==> column_def_shows(#[trigger] b.column_definitions@[i], defs[i])
    &&& forall|i: int, j: int| 0 <= i < j < cols.len() ==> cols[i].status_id != cols[j].status_id
    &&& forall|i: int| 0 <= i < defs.len() ==> has_column(cols, #[trigger] defs[i].id)
    &&& forall|i: int| 0 <= i < rows.len() ==> has_column(cols, #[trigger] rows[i].workflow_status_id)
    &&& forall|k: int| 0 <= k < cols.len() ==> key_known(defs, rows, (#[trigger] cols[k]).status_id)
    &&& forall|k: int| 0 <= k < cols.len() ==> items_show((#[trigger] cols[k]).items@, project_key, rows_with_status(rows, cols[k].status_id))
}

/// The column `k` of `cols` shows the issue row `rows[i]`.
pub open spec fn column_holds(cols: Seq<BoardColumn>, rows: Seq<IssueSummaryRow>, k: int, i: int) -> bool {
    rows_with_status(rows, cols[k].status_id).contains(rows[i])
}

/// On a board, every issue stands in exactly one column, and that column is
/// the one of the issue's workflow status.
pub proof fn lemma_board_places_each_issue_once(
    b: BoardResponse,
    project_key: Seq<char>,
    defs: Seq<WorkflowStatusRow>,
    rows: Seq<IssueSummaryRow>,
    i: int,
)
    requires
        board_of(b, project_key, defs, rows),
        0 <= i < rows.len(),
    ensures
        exists|k: int|
            0 <= k < b.items_by_column@.len() && #[trigger] column_holds(b.items_by_column@, rows, k, i)
                && b.items_by_column@[k].status_id == rows[i].workflow_status_id,
        forall|k1: int, k2: int|
            0 <= k1 < b.items_by_column@.len() && 0 <= k2 < b.items_by_column@.len()
                && #[trigger] column_holds(b.items_by_column@, rows, k1, i)
                && #[trigger] column_holds(b.items_by_column@, rows, k2, i) ==> k1 == k2,
{
    let cols = b.items_by_column@;
    let id = rows[i].workflow_status_id;
    assert(has_column(cols, rows[i].workflow_status_id));
    let k = choose|k: int| 0 <= k < cols.len() && #[trigger] cols[k].status_id == id;
    let pred = |r: IssueSummaryRow| r.workflow_status_id == id;
    rows.lemma_filter_contains(pred, i);
    assert(column_holds(cols, rows, k, i));
    assert forall|k1: int, k2: int|
        0 <= k1 < cols.len() && 0 <= k2 < cols.len() && #[trigger] column_holds(cols, rows, k1, i)
            && #[trigger] column_holds(cols, rows, k2, i) implies k1 == k2 by {
        let p1 = |r: IssueSummaryRow| r.workflow_status_id == cols[k1].status_id;
        let p2 = |r: IssueSummaryRow| r.workflow_status_id == cols[k2].status_id;
        let j1 = choose|j: int| 0 <= j < rows.filter(p1).len() && rows.filter(p1)[j] == rows[i];
        let j2 = choose|j: int| 0 <= j < rows.filter(p2).len() && rows.filter(p2)[j] == rows[i];
        rows.lemma_filter_pred(p1, j1);
        rows.lemma_filter_pred(p2, j2);
        assert(cols[k1].status_id == cols[k2].status_id);
    }
}

fn has_key(keys: &Vec<u128>, id: u128) -> (r: bool)
    ensures
        r == keys@.contains(id),
{
    let mut i: usize = 0;
    while i < keys.len()
        invariant
            i <= keys.len(),
            forall|j: int| 0 <= j < i ==> keys@[j] != id,
        decreases keys.len() - i,
    {
        if keys[i] == id {
            assert(keys@[i as int] == id);
            return true;
        }
        i = i + 1;
    }
    false
}

fn rows_in_column(rows: &Vec<IssueSummaryRow>, id: u128) -> (r: Vec<IssueSummaryRow>)
    ensures
        r@ == rows_with_status(rows@, id),
{
    let ghost pred = |r: IssueSummaryRow| r.workflow_status_id == id;
    let mut out: Vec<IssueSummaryRow> = Vec::new();
    let mut i: usize = 0;
    while i < rows.len()
        invariant
            i <= rows.len(),
            pred == (|r: IssueSummaryRow| r.workflow_status_id == id),
            out@ == rows@.take(i as int).filter(pred),
        decreases rows.len() - i,
    {
        proof {
            rows@.take(i as int).lemma_filter_push(rows@[i as int], pred);
            assert(rows@.take(i + 1) =~= rows@.take(i as int).push(rows@[i as int]));
        }
        if rows[i].workflow_status_id == id {
            out.push(IssueSummaryRow {
                id: rows[i].id,
                key_seq: rows[i].key_seq,
                title: rows[i].title.clone(),
                status_slug: rows[i].status_slug.clone(),
                workflow_status_id: rows[i].workflow_status_id,
                status_name: rows[i].status_name.clone(),
                status_category: rows[i].status_category.clone(),
                is_blocked: rows[i].is_blocked,
            });
        }
        i = i + 1;
    }
    assert(rows@.take(rows.len() as int) =~= rows@);
    out
}

/// Builds a project's board from its statuses (in board order) and its issue rows.
pub fn build_board_response(
    project_key: &str,
    defs: &Vec<WorkflowStatusRow>,
    rows: &Vec<IssueSummaryRow>,
) -> (b: BoardResponse)
    ensures
        board_of(b, project_key@, defs@, rows@),
{
    let mut column_definitions: Vec<BoardColumnDef> = Vec::new();
    let mut keys: Vec<u128> = Vec::new();
    let mut i: usize = 0;
    while i < defs.len()
        invariant
            i <= defs.len(),
            column_definitions@.len() == i,
            forall|j: int| 0 <= j < i ==> column_def_shows(#[trigger] column_definitions@[j], defs@[j]),
            forall|a: int, c: int| 0 <= a < c < keys@.len() ==> keys@[a] != keys@[c],
            forall|j: int| 0 <= j < i ==> keys@.contains(#[trigger] defs@[j].id),
            forall|k: int| 0 <= k < keys@.len() ==> key_known(defs@, rows@, #[trigger] keys@[k]),
        decreases defs.len() - i,
    {
        let w = &defs[i];
        column_definitions.push(BoardColumnDef {
            id: w.id,
            name: w.name.clone(),
            slug: w.slug.clone(),
            category: w.category.clone(),
            position: w.position,
        });
        assert(key_known(defs@, rows@, defs@[i as int].id));
        if !has_key(&keys, w.id) {
            keys.push(w.id);
            assert(keys@[keys@.len() - 1] == defs@[i as int].id);
        }
        assert(keys@.contains(defs@[i as int].id));
        i = i + 1;
    }
    let mut r: usize = 0;
    while r < rows.len()
        invariant
            r <= rows.len(),
            forall|a: int, c: int| 0 <= a < c < keys@.len() ==> keys@[a] != keys@[c],
            forall|j: int| 0 <= j < defs@.len() ==> keys@.contains(#[trigger] defs@[j].id),
            forall|j: int| 0 <= j < r ==> keys@.contains(#[trigger] rows@[j].workflow_status_id),
            forall|k: int| 0 <= k < keys@.len() ==> key_known(defs@, rows@, #[trigger] keys@[k]),
        decreases rows.len() - r,
    {
        let id = rows[r].workflow_status_id;
        assert(key_known(defs@, rows@, rows@[r as int].workflow_status_id));
        if !has_key(&keys, id) {
            keys.push(id);
            assert(keys@[keys@.len() - 1] == rows@[r as int].workflow_status_id);
        }
        assert(keys@.contains(rows@[r as int].workflow_status_id));
        r = r + 1;
    }
    let mut cols: Vec<BoardColumn> = Vec::new();
    let mut k: usize = 0;
    while k < keys.len()
        invariant
            k <= keys.len(),
            cols@.len() == k,
            forall|j: int| 0 <= j < k ==> (#[trigger] cols@[j]).status_id == keys@[j],
            forall|j: int| 0 <= j < k ==> items_show((#[trigger] cols@[j]).items@, project_key@, rows_with_status(rows@, cols@[j].status_id)),
        decreases keys.len() - k,
    {
        let in_col = rows_in_column(rows, keys[k]);
        let items = summaries_to_items(project_key, &in_col);
        cols.push(BoardColumn { status_id: keys[k], items });
        k = k + 1;
    }
    let b = BoardResponse { column_definitions, items_by_column: cols };
    assert forall|k: int| 0 <= k < b.items_by_column@.len() implies key_known(defs@, rows@, (#[trigger] b.items_by_column@[k]).status_id) by {
        assert(b.items_by_column@[k].status_id == keys@[k]);
    }
    assert forall|i: int| 0 <= i < defs@.len() implies has_column(b.items_by_column@, #[trigger] defs@[i].id) by {
        assert(keys@.contains(defs@[i].id));
        let k = choose|k: int| 0 <= k < keys@.len() && keys@[k] == defs@[i].id;
        assert(b.items_by_column@[k].status_id == defs@[i].id);
    }
    assert forall|i: int| 0 <= i < rows@.len() implies has_column(b.items_by_column@, #[trigger] rows@[i].workflow_status_id) by {
        assert(keys@.contains(rows@[i].workflow_status_id));
        let k = choose|k: int| 0 <= k < keys@.len() && keys@[k] == rows@[i].workflow_status_id;
        assert(b.items_by_column@[k].status_id == rows@[i].workflow_status_id);
    }
    b
}

} // verus!

verus! {

/// Where the building of a board stands.
pub enum BoardStep {
    /// (By project key only) waiting for the project.
    AwaitProject,
    /// Waiting for the membership check of `project`.
    AwaitMember { project_id: u128, project_key: Option<String> },
    /// (By project id only) waiting for the project's key.
    AwaitProjectKey { project_id: u128 },
    AwaitRows { project_id: u128, project_key: String },
    AwaitStatuses { project_key: String, rows: Vec<IssueSummaryRow> },
    Finished,
}

/// What the outside world reports back; `None` stands for a failed database call.
pub enum BoardEvent {
    ProjectFound(Option<Option<ProjectRef>>),
    MemberChecked(Option<bool>),
    ProjectKeyFound(Option<Option<String>>),
    RowsFetched(Option<Vec<IssueSummaryRow>>),
    StatusesFetched(Option<Vec<WorkflowStatusRow>>),
}

/// The order in which a board lists the issues of a column.
#[derive(Debug, Clone, Copy, PartialEq, Eq, Structural)]
pub enum BoardOrder {
    /// By issue number (the board addressed by project id).
    KeySeq,
    /// By board position (the board addressed by project key).
    BoardOrder,
}

/// What the building of a board asks for next.
pub enum BoardAction {
    FindProject { org_slug: String, project_key: String },
    CheckMember { project_id: u128, user_id: u128 },
    FindProjectKey { project_id: u128 },
    /// The project's issues, in the given order.
    FetchRows { project_id: u128, order: BoardOrder },
    /// The project's workflow statuses, in board order.
    FetchStatuses { project_id: u128 },
    Respond(Result<BoardResponse, AppError>),
}

/// The building of a project's board for `user_id`.
pub struct BoardFlow {
    pub user_id: u128,
    pub order: BoardOrder,
    pub step: BoardStep,
}

/// The decision table of the building of a board.
pub open spec fn board_next(before: BoardFlow, event: BoardEvent, after: BoardFlow, action: BoardAction) -> bool {
    match (before.step, event) {
        (BoardStep::AwaitProject, BoardEvent::ProjectFound(Some(None))) => after.step is Finished && action
            == BoardAction::Respond(Err(AppError::NotFound)),
        (BoardStep::AwaitProject, BoardEvent::ProjectFound(Some(Some(p)))) => after.step == (BoardStep::AwaitMember {
            project_id: p.id,
            project_key: Some(p.project_key),
        }) && action == (BoardAction::CheckMember { project_id: p.id, user_id: before.user_id }),
        (BoardStep::AwaitMember { .. }, BoardEvent::MemberChecked(Some(false))) => after.step is Finished && action
            == BoardAction::Respond(Err(AppError::Forbidden)),
        (BoardStep::AwaitMember { project_id, project_key: None }, BoardEvent::MemberChecked(Some(true))) => after.step
            == (BoardStep::AwaitProjectKey { project_id }) && action == (BoardAction::FindProjectKey { project_id }),
        (BoardStep::AwaitMember { project_id, project_key: Some(k) }, BoardEvent::MemberChecked(Some(true))) => after.step
            == (BoardStep::AwaitRows { project_id, project_key: k }) && action == (BoardAction::FetchRows {
            project_id,
            order: before.order,
        }),
        (BoardStep::AwaitProjectKey { .. }, BoardEvent::ProjectKeyFound(Some(None))) => after.step is Finished && action
            == BoardAction::Respond(Err(AppError::NotFound)),
        (BoardStep::AwaitProjectKey { project_id }, BoardEvent::ProjectKeyFound(Some(Some(k)))) => after.step
            == (BoardStep::AwaitRows { project_id, project_key: k }) && action == (BoardAction::FetchRows {
            project_id,
            order: before.order,
        }),
        (BoardStep::AwaitRows { project_id, project_key }, BoardEvent::RowsFetched(Some(rows))) => after.step
            == (BoardStep::AwaitStatuses { project_key, rows }) && action == (BoardAction::FetchStatuses { project_id }),
        (BoardStep::AwaitStatuses { project_key, rows }, BoardEvent::StatusesFetched(Some(defs))) => after.step is Finished
            && (action matches BoardAction::Respond(Ok(b)) && board_of(b, project_key@, defs@, rows@)),
        _ => after.step is Finished && action == BoardAction::Respond(Err(AppError::Internal)),
    }
}

impl BoardFlow {
    /// Starts building the board of the project `project_id` (issues by number).
    pub fn start_by_id(project_id: u128, user_id: u128) -> (r: (BoardFlow, BoardAction))
        ensures
            r.0.user_id == user_id && r.0.order == BoardOrder::KeySeq,
            r.0.step == (BoardStep::AwaitMember { project_id, project_key: None }),
            r.1 == (BoardAction::CheckMember { project_id, user_id }),
    {
        (
            BoardFlow { user_id, order: BoardOrder::KeySeq, step: BoardStep::AwaitMember { project_id, project_key: None } },
            BoardAction::CheckMember { project_id, user_id },
        )
    }

    /// Starts building the board of the project with this key (issues by board position).
    pub fn start_by_key(org_slug: String, project_key: String, user_id: u128) -> (r: (BoardFlow, BoardAction))
        ensures
            r.0.user_id == user_id && r.0.order == BoardOrder::BoardOrder,
            r.0.step is AwaitProject,
            r.1 == (BoardAction::FindProject { org_slug, project_key }),
    {
        (
            BoardFlow { user_id, order: BoardOrder::BoardOrder, step: BoardStep::AwaitProject },
            BoardAction::FindProject { org_slug, project_key },
        )
    }

    /// Takes in what the outside world reports and says what to do next.
    pub fn step(&mut self, event: BoardEvent) -> (action: BoardAction)
        ensures
            final(self).user_id == old(self).user_id && final(self).order == old(self).order,
            board_next(*old(self), event, *final(self), action),
    {
        let mut step = BoardStep::Finished;
        std::mem::swap(&mut step, &mut self.step);
        match (step, event) {
            (BoardStep::AwaitProject, BoardEvent::ProjectFound(Some(None))) => BoardAction::Respond(Err(AppError::NotFound)),
            (BoardStep::AwaitProject, BoardEvent::ProjectFound(Some(Some(p)))) => {
                let project_id = p.id;
                self.step = BoardStep::AwaitMember { project_id, project_key: Some(p.project_key) };
                BoardAction::CheckMember { project_id, user_id: self.user_id }
            },
            (BoardStep::AwaitMember { .. }, BoardEvent::MemberChecked(Some(false))) => BoardAction::Respond(Err(AppError::Forbidden)),
            (BoardStep::AwaitMember { project_id, project_key }, BoardEvent::MemberChecked(Some(true))) => {
                match project_key {
                    None => {
                        self.step = BoardStep::AwaitProjectKey { project_id };
                        BoardAction::FindProjectKey { project_id }
                    },
                    Some(k) => {
                        self.step = BoardStep::AwaitRows { project_id, project_key: k };
                        BoardAction::FetchRows { project_id, order: self.order }
                    },
                }
            },
            (BoardStep::AwaitProjectKey { .. }, BoardEvent::ProjectKeyFound(Some(None))) => BoardAction::Respond(Err(AppError::NotFound)),
            (BoardStep::AwaitProjectKey { project_id }, BoardEvent::ProjectKeyFound(Some(Some(k)))) => {
                self.step = BoardStep::AwaitRows { project_id, project_key: k };
                BoardAction::FetchRows { project_id, order: self.order }
            },
            (BoardStep::AwaitRows { project_id, project_key }, BoardEvent::RowsFetched(Some(rows))) => {
                self.step = BoardStep::AwaitStatuses { project_key, rows };
                BoardAction::FetchStatuses { project_id }
            },
            (BoardStep::AwaitStatuses { project_key, rows }, BoardEvent::StatusesFetched(Some(defs))) => {
                let b = build_board_response(project_key.as_str(), &defs, &rows);
                BoardAction::Respond(Ok(b))
            },
            _ => BoardAction::Respond(Err(AppError::Internal)),
        }
    }
}

} // verus!
