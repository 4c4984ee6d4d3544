use vstd::prelude::*;
use crate::error::AppError;
use crate::ids::{parse_uuid, uuid_parse};
use crate::issue_key::{display_key, display_key_of};
use crate::paging::{limit_or_default, more_after, offset_or_default, page_limit, page_offset};
use crate::text::str_eq;

verus! {

/// Pagination and filters of a project's issue list.
pub struct ListIssuesQuery {
    /// Filter by `workflow_status_id` (UUID).
    pub status: Option<String>,
    pub q: Option<String>,
    /// A user UUID, or `me` for the current user.
    pub assignee: Option<String>,
    pub limit: Option<i64>,
    pub offset: Option<i64>,
}

/// A row of a project's issue list.
pub struct IssueSummaryRow {
    pub id: u128,
    pub key_seq: i32,
    pub title: String,
    pub status_slug: String,
    pub workflow_status_id: u128,
    pub status_name: String,
    pub status_category: String,
    pub is_blocked: bool,
}

/// An entry of a project's issue list.
pub struct IssueListItem {
    pub issue_id: u128,
    pub display_key: String,
    pub title: String,
    /// Workflow status slug.
    pub status: String,
    pub workflow_status_id: u128,
    pub status_name: String,
    pub status_category: String,
    /// Another issue has a `blocks` relation to this issue.
    pub is_blocked: bool,
}

/// `item` shows `row` of the project keyed `project_key`.
pub open spec fn list_item_shows(item: IssueListItem, project_key: Seq<char>, row: IssueSummaryRow) -> bool {
    &&& item.issue_id == row.id
    &&& item.display_key@ == display_key_of(project_key, row.key_seq as int)
    &&& item.title == row.title
    &&& item.status == row.status_slug
    &&& item.workflow_status_id == row.workflow_status_id
    &&& item.status_name == row.status_name
    &&& item.status_category == row.status_category
    &&& item.is_blocked == row.is_blocked
}

/// The list entry that shows a row.
pub fn summary_to_list_item(project_key: &str, r: &IssueSummaryRow) -> (item: IssueListItem)
    ensures
        list_item_shows(item, project_key@, *r),
{
    IssueListItem {
        issue_id: r.id,
        display_key: display_key(project_key, r.key_seq),
        title: r.title.clone(),
        status: r.status_slug.clone(),
        workflow_status_id: r.workflow_status_id,
        status_name: r.status_name.clone(),
        status_category: r.status_category.clone(),
        is_blocked: r.is_blocked,
    }
}

/// The entries that show rows, in order.
pub open spec fn items_show(items: Seq<IssueListItem>, project_key: Seq<char>, rows: Seq<IssueSummaryRow>) -> bool {
    &&& items.len() == rows.len()
    &&& forall|i: int| 0 <= i < rows.len() ==> list_item_shows(#[trigger] items[i], project_key, rows[i])
}

/// The list entries that show the rows.
pub fn summaries_to_items(project_key: &str, rows: &Vec<IssueSummaryRow>) -> (items: Vec<IssueListItem>)
    ensures
        items_show(items@, project_key@, rows@),
{
    let mut items: Vec<IssueListItem> = Vec::new();
    let mut i: usize = 0;
    while i < rows.len()
        invariant
            i <= rows.len(),
            items@.len() == i,
            forall|k: int| 0 <= k < i ==> list_item_shows(#[trigger] items@[k], project_key@, rows@[k]),
        decreases rows.len() - i,
    {
        items.push(summary_to_list_item(project_key, &rows[i]));
        i = i + 1;
    }
    items
}

/// The filters and page of a project's issue list, as read from its query.
pub struct IssueListFilters {
    pub status: Option<u128>,
    pub assignee: Option<u128>,
    pub q: Option<String>,
    pub limit: i64,
    pub offset: i64,
}

/// The text of an optional string.
pub open spec fn opt_text(o: Option<String>) -> Option<Seq<char>> {
    match o {
        Some(s) => Some(s@),
        None => None,
    }
}

/// The filters that a query asks for: a status given as a UUID (ignored when it
/// is not one); an assignee given as `me` (the requester) or a UUID (ignored
/// when it is not one); the search text; 50 rows unless asked, between 1 and
/// 200; offset 0 unless asked, never negative.
pub open spec fn filters_of(f: IssueListFilters, q: ListIssuesQuery, user_id: u128) -> bool {
    &&& f.status == (match opt_text(q.status) {
        Some(s) => uuid_parse(s),
        None => None,
    })
    &&& f.assignee == (match opt_text(q.assignee) {
        Some(a) => if a == "me"@ {
            Some(user_id)
        } else {
            uuid_parse(a)
        },
        None => None,
    })
    &&& f.q == q.q
    &&& f.limit == page_limit(q.limit, 1, 200)
    &&& f.offset == page_offset(q.offset)
}

/// Reads the filters and page of a project's issue list from its query.
pub fn list_filters(q: &ListIssuesQuery, user_id: u128) -> (f: IssueListFilters)
    ensures
        filters_of(f, *q, user_id),
{
    let status = match &q.status {
        Some(s) => parse_uuid(s.as_str()),
        None => None,
    };
    let assignee = match &q.assignee {
        Some(a) => if str_eq(a.as_str(), "me") {
            Some(user_id)
        } else {
            parse_uuid(a.as_str())
        },
        None => None,
    };
    let qf = match &q.q {
        Some(s) => Some(s.clone()),
        None => None,
    };
    IssueListFilters {
        status,
        assignee,
        q: qf,
        limit: limit_or_default(q.limit, 1, 200),
        offset: offset_or_default(q.offset),
    }
}

/// A project's issue list.
pub struct ListIssuesResponse {
    pub items: Vec<IssueListItem>,
}

/// Where the listing of a project's issues stands.
pub enum ListIssuesStep {
    AwaitMember,
    AwaitProjectKey,
    AwaitRows { project_key: String },
    Finished,
}

/// What the outside world reports back; `None` stands for a failed database call.
pub enum ListIssuesEvent {
    MemberChecked(Option<bool>),
    ProjectKeyFound(Option<Option<String>>),
    RowsFetched(Option<Vec<IssueSummaryRow>>),
}

/// What the listing asks for next.
pub enum ListIssuesAction {
    CheckMember { project_id: u128, user_id: u128 },
    /// The key of the project.
    FindProjectKey { project_id: u128 },
    /// The filtered page of the project's issues.
    FetchRows { project_id: u128, filters: IssueListFilters },
    Respond(Result<ListIssuesResponse, AppError>),
}

/// The listing of the issues of `project_id` for `user_id`.
pub struct ListIssuesFlow {
    pub project_id: u128,
    pub user_id: u128,
    pub query: ListIssuesQuery,
    pub step: ListIssuesStep,
}

/// The decision table of the listing of a project's issues.
pub open spec fn list_issues_next(before: ListIssuesFlow, event: ListIssuesEvent, after: ListIssuesFlow, action: ListIssuesAction) -> bool {
    match (before.step, event) {
        (ListIssuesStep::AwaitMember, ListIssuesEvent::MemberChecked(Some(true))) => after.step is AwaitProjectKey
            && action == (ListIssuesAction::FindProjectKey { project_id: before.project_id }),
        (ListIssuesStep::AwaitMember, ListIssuesEvent::MemberChecked(Some(false))) => after.step is Finished && action
            == ListIssuesAction::Respond(Err(AppError::Forbidden)),
        (ListIssuesStep::AwaitProjectKey, ListIssuesEvent::ProjectKeyFound(Some(None))) => after.step is Finished && action
            == ListIssuesAction::Respond(Err(AppError::NotFound)),
        (ListIssuesStep::AwaitProjectKey, ListIssuesEvent::ProjectKeyFound(Some(Some(k)))) => after.step
            == (ListIssuesStep::AwaitRows { project_key: k }) && (action matches ListIssuesAction::FetchRows { project_id, filters }
            && project_id == before.project_id && filters_of(filters, before.query, before.user_id)),
        (ListIssuesStep::AwaitRows { project_key }, ListIssuesEvent::RowsFetched(Some(rows))) => after.step is Finished
            && (action matches ListIssuesAction::Respond(Ok(resp)) && items_show(resp.items@, project_key@, rows@)),
        _ => after.step is Finished && action == ListIssuesAction::Respond(Err(AppError::Internal)),
    }
}

impl ListIssuesFlow {
    /// Starts the listing: first, is the requester a member of the project?
    pub fn start(project_id: u128, user_id: u128, query: ListIssuesQuery) -> (r: (ListIssuesFlow, ListIssuesAction))
        ensures
            r.0.project_id == project_id && r.0.user_id == user_id && r.0.query == query,
            r.0.step is AwaitMember,
            r.1 == (ListIssuesAction::CheckMember { project_id, user_id }),
    {
        (ListIssuesFlow { project_id, user_id, query, step: ListIssuesStep::AwaitMember }, ListIssuesAction::CheckMember {
            project_id,
            user_id,
        })
    }

    /// Takes in what the outside world reports and says what to do next.
    pub fn step(&mut self, event: ListIssuesEvent) -> (action: ListIssuesAction)
        ensures
            final(self).project_id == old(self).project_id && final(self).user_id == old(self).user_id
                && final(self).query == old(self).query,
            list_issues_next(*old(self), event, *final(self), action),
    {
        let mut step = ListIssuesStep::Finished;
        std::mem::swap(&mut step, &mut self.step);
        match (step, event) {
            (ListIssuesStep::AwaitMember, ListIssuesEvent::MemberChecked(Some(true))) => {
                self.step = ListIssuesStep::AwaitProjectKey;
                ListIssuesAction::FindProjectKey { project_id: self.project_id }
            },
            (ListIssuesStep::AwaitMember, ListIssuesEvent::MemberChecked(Some(false))) => {
                ListIssuesAction::Respond(Err(AppError::Forbidden))
            },
            (ListIssuesStep::AwaitProjectKey, ListIssuesEvent::ProjectKeyFound(Some(None))) => {
                ListIssuesAction::Respond(Err(AppError::NotFound))
            },
            (ListIssuesStep::AwaitProjectKey, ListIssuesEvent::ProjectKeyFound(Some(Some(k)))) => {
                let filters = list_filters(&self.query, self.user_id);
                self.step = ListIssuesStep::AwaitRows { project_key: k };
                ListIssuesAction::FetchRows { project_id: self.project_id, filters }
            },
            (ListIssuesStep::AwaitRows { project_key }, ListIssuesEvent::RowsFetched(Some(rows))) => {
                let items = summaries_to_items(project_key.as_str(), &rows);
                ListIssuesAction::Respond(Ok(ListIssuesResponse { items }))
            },
            _ => ListIssuesAction::Respond(Err(AppError::Internal)),
        }
    }
}

} // verus!

verus! {

/// A project found by organization slug and project key.
pub struct ProjectRef {
    pub id: u128,
    pub project_key: String,
}

/// A page of a project's issue list, with the total count.
pub struct ListProjectIssuesResponse {
    pub items: Vec<IssueListItem>,
    pub total: i64,
    pub limit: i64,
    pub offset: i64,
    pub has_more: bool,
}

/// Where the listing of a project's issues, by project key, stands.
pub enum ListProjectIssuesStep {
    AwaitProject,
    AwaitMember { project: ProjectRef },
    AwaitCount { project: ProjectRef, filters: IssueListFilters },
    AwaitRows { project: ProjectRef, filters: IssueListFilters, total: i64 },
    Finished,
}

/// What the outside world reports back; `None` stands for a failed database call.
pub enum ListProjectIssuesEvent {
    ProjectFound(Option<Option<ProjectRef>>),
    MemberChecked(Option<bool>),
    Counted(Option<i64>),
    RowsFetched(Option<Vec<IssueSummaryRow>>),
}

/// What the listing asks for next.
pub enum ListProjectIssuesAction {
    /// The project with this key in the organization with this slug.
    FindProject { org_slug: String, project_key: String },
    CheckMember { project_id: u128, user_id: u128 },
    /// The number of the project's issues that pass the filters.
    Count { project_id: u128, filters: IssueListFilters },
    /// The filtered page of the project's issues.
    FetchRows { project_id: u128, filters: IssueListFilters },
    Respond(Result<ListProjectIssuesResponse, AppError>),
}

/// The listing of a project's issues by organization slug and project key.
pub struct ListProjectIssuesFlow {
    pub org_slug: String,
    pub project_key: String,
    pub user_id: u128,
    pub query: ListIssuesQuery,
    pub step: ListProjectIssuesStep,
}

/// The decision table of the listing of a project's issues by key.
pub open spec fn list_project_issues_next(
    before: ListProjectIssuesFlow,
    event: ListProjectIssuesEvent,
    after: ListProjectIssuesFlow,
    action: ListProjectIssuesAction,
) -> bool {
    match (before.step, event) {
        (ListProjectIssuesStep::AwaitProject, ListProjectIssuesEvent::ProjectFound(Some(None))) => after.step is Finished
            && action == ListProjectIssuesAction::Respond(Err(AppError::NotFound)),
        (ListProjectIssuesStep::AwaitProject, ListProjectIssuesEvent::ProjectFound(Some(Some(p)))) => after.step
            == (ListProjectIssuesStep::AwaitMember { project: p }) && action == (ListProjectIssuesAction::CheckMember {
            project_id: p.id,
            user_id: before.user_id,
        }),
        (ListProjectIssuesStep::AwaitMember { .. }, ListProjectIssuesEvent::MemberChecked(Some(false))) => after.step is Finished
            && action == ListProjectIssuesAction::Respond(Err(AppError::Forbidden)),
        (ListProjectIssuesStep::AwaitMember { project }, ListProjectIssuesEvent::MemberChecked(Some(true))) => (after.step matches ListProjectIssuesStep::AwaitCount {
            project: p2,
            filters,
        } && p2 == project && filters_of(filters, before.query, before.user_id)) && (action matches ListProjectIssuesAction::Count {
            project_id,
            filters: f2,
        } && project_id == project.id && filters_of(f2, before.query, before.user_id)),
        (ListProjectIssuesStep::AwaitCount { project, filters }, ListProjectIssuesEvent::Counted(Some(total))) => after.step
            == (ListProjectIssuesStep::AwaitRows { project, filters, total }) && (action matches ListProjectIssuesAction::FetchRows {
            project_id,
            filters: f2,
        } && project_id == project.id && filters_of(f2, before.query, before.user_id)),
        (ListProjectIssuesStep::AwaitRows { project, filters, total }, ListProjectIssuesEvent::RowsFetched(Some(rows))) => after.step is Finished
            && (action matches ListProjectIssuesAction::Respond(Ok(resp)) && items_show(resp.items@, project.project_key@, rows@)
            && resp.total == total && resp.limit == filters.limit && resp.offset == filters.offset && resp.has_more == (
            filters.offset + rows.len() < total)),
        _ => after.step is Finished && action == ListProjectIssuesAction::Respond(Err(AppError::Internal)),
    }
}

/// The filters held by a listing in progress are those its query asks for.
pub open spec fn list_project_issues_inv(f: ListProjectIssuesFlow) -> bool {
    match f.step {
        ListProjectIssuesStep::AwaitCount { filters, .. } => filters_of(filters, f.query, f.user_id),
        ListProjectIssuesStep::AwaitRows { filters, .. } => filters_of(filters, f.query, f.user_id) && filters.offset >= 0,
        _ => true,
    }
}

fn copy_filters(f: &IssueListFilters) -> (r: IssueListFilters)
    ensures
        r == *f,
{
    IssueListFilters {
        status: f.status,
        assignee: f.assignee,
        q: match &f.q {
            Some(s) => Some(s.clone()),
            None => None,
        },
        limit: f.limit,
        offset: f.offset,
    }
}

impl ListProjectIssuesFlow {
    /// Starts the listing: first, find the project.
    pub fn start(org_slug: String, project_key: String, user_id: u128, query: ListIssuesQuery) -> (r: (
        ListProjectIssuesFlow,
        ListProjectIssuesAction,
    ))
        ensures
            r.0.org_slug == org_slug && r.0.project_key == project_key && r.0.user_id == user_id && r.0.query == query,
            r.0.step is AwaitProject,
            r.1 == (ListProjectIssuesAction::FindProject { org_slug, project_key }),
    {
        let a = ListProjectIssuesAction::FindProject { org_slug: org_slug.clone(), project_key: project_key.clone() };
        (ListProjectIssuesFlow { org_slug, project_key, user_id, query, step: ListProjectIssuesStep::AwaitProject }, a)
    }

    /// Takes in what the outside world reports and says what to do next.
    pub fn step(&mut self, event: ListProjectIssuesEvent) -> (action: ListProjectIssuesAction)
        requires
            list_project_issues_inv(*old(self)),
        ensures
            final(self).org_slug == old(self).org_slug && final(self).project_key == old(self).project_key
                && final(self).user_id == old(self).user_id && final(self).query == old(self).query,
            list_project_issues_inv(*final(self)),
            list_project_issues_next(*old(self), event, *final(self), action),
    {
        let mut step = ListProjectIssuesStep::Finished;
        std::mem::swap(&mut step, &mut self.step);
        match (step, event) {
            (ListProjectIssuesStep::AwaitProject, ListProjectIssuesEvent::ProjectFound(Some(None))) => {
                ListProjectIssuesAction::Respond(Err(AppError::NotFound))
            },
            (ListProjectIssuesStep::AwaitProject, ListProjectIssuesEvent::ProjectFound(Some(Some(p)))) => {
                let project_id = p.id;
                self.step = ListProjectIssuesStep::AwaitMember { project: p };
                ListProjectIssuesAction::CheckMember { project_id, user_id: self.user_id }
            },
            (ListProjectIssuesStep::AwaitMember { .. }, ListProjectIssuesEvent::MemberChecked(Some(false))) => {
                ListProjectIssuesAction::Respond(Err(AppError::Forbidden))
            },
            (ListProjectIssuesStep::AwaitMember { project }, ListProjectIssuesEvent::MemberChecked(Some(true))) => {
                let filters = list_filters(&self.query, self.user_id);
                let f2 = copy_filters(&filters);
                let project_id = project.id;
                self.step = ListProjectIssuesStep::AwaitCount { project, filters };
                ListProjectIssuesAction::Count { project_id, filters: f2 }
            },
            (ListProjectIssuesStep::AwaitCount { project, filters }, ListProjectIssuesEvent::Counted(Some(total))) => {
                let f2 = copy_filters(&filters);
                let project_id = project.id;
                self.step = ListProjectIssuesStep::AwaitRows { project, filters, total };
                ListProjectIssuesAction::FetchRows { project_id, filters: f2 }
            },
            (ListProjectIssuesStep::AwaitRows { project, filters, total }, ListProjectIssuesEvent::RowsFetched(Some(rows))) => {
                let items = summaries_to_items(project.project_key.as_str(), &rows);
                let has_more = more_after(filters.offset, items.len(), total);
                ListProjectIssuesAction::Respond(
                    Ok(ListProjectIssuesResponse { items, total, limit: filters.limit, offset: filters.offset, has_more }),
                )
            },
            _ => ListProjectIssuesAction::Respond(Err(AppError::Internal)),
        }
    }
}

} // verus!
