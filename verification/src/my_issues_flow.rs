use vstd::prelude::*;
use crate::error::AppError;
use crate::issue_key::{display_key, display_key_of};
use crate::my_issues::{count_filtered_query, count_query_pieces, cursor_from_row, cursor_of, facet_query, facet_query_pieces, item_rows_query, items_query_result, Facet, ListMyIssuesQuery, MyIssueRow, MyIssueSortBy, MyIssuesCursor, SortDirection};
use crate::paging::{limit_or_default, offset_or_default, page_limit, page_offset};
use crate::sql::SqlQuery;
use crate::text::str_eq;

verus! {

/// The number of issues that have one value of a facet.
pub struct FacetCount {
    pub value: String,
    pub count: i64,
}

/// Counts of issues blocked by, and blocking, other issues.
pub struct RelationsFacetCounts {
    pub blocked: i64,
    pub blocking: i64,
}

/// The facet counts shown beside the "my issues" list.
pub struct MyIssueFacets {
    pub status: Vec<FacetCount>,
    pub priority: Vec<FacetCount>,
    pub relations: RelationsFacetCounts,
}

/// An entry of the "my issues" list.
pub struct MyIssueItem {
    pub id: u128,
    pub project_id: u128,
    pub display_key: String,
    pub title: String,
    pub status: String,
    pub workflow_status_id: u128,
    pub status_name: String,
    pub status_category: String,
    pub is_blocked: bool,
    pub priority: String,
}

/// A page of the "my issues" list.
pub struct ListMyIssuesResponse {
    pub items: Vec<MyIssueItem>,
    pub total: i64,
    pub limit: i64,
    pub offset: i64,
    pub next_cursor: Option<MyIssuesCursor>,
    pub has_more: bool,
    pub sort_by: MyIssueSortBy,
    pub sort_dir: SortDirection,
    pub facets: MyIssueFacets,
}

/// `item` shows `row`.
pub open spec fn item_shows(item: MyIssueItem, row: MyIssueRow) -> bool {
    &&& item.id == row.id
    &&& item.project_id == row.project_id
    &&& item.display_key@ == display_key_of(row.project_key@, row.key_seq as int)
    &&& item.title == row.title
    &&& item.status == row.status
    &&& item.workflow_status_id == row.workflow_status_id
    &&& item.status_name == row.status_name
    &&& item.status_category == row.status_category
    &&& item.is_blocked == row.is_blocked
    &&& item.priority == row.priority
}

/// The list entry that shows a row.
pub fn my_item_from_row(row: &MyIssueRow) -> (item: MyIssueItem)
    ensures
        item_shows(item, *row),
{
    MyIssueItem {
        id: row.id,
        project_id: row.project_id,
        display_key: display_key(row.project_key.as_str(), row.key_seq),
        title: row.title.clone(),
        status: row.status.clone(),
        workflow_status_id: row.workflow_status_id,
        status_name: row.status_name.clone(),
        status_category: row.status_category.clone(),
        is_blocked: row.is_blocked,
        priority: row.priority.clone(),
    }
}

/// The rows shown on a page fetched with one row to spare: all of them, less
/// the last when there are more than `limit`.
pub open spec fn shown_rows(rows: Seq<MyIssueRow>, limit: int) -> Seq<MyIssueRow> {
    if rows.len() > limit {
        rows.drop_last()
    } else {
        rows
    }
}

/// `resp` is the page made of `rows` (fetched with one row to spare).
pub open spec fn page_of(
    resp: ListMyIssuesResponse,
    rows: Seq<MyIssueRow>,
    total: i64,
    limit: i64,
    offset: i64,
    sort_by: MyIssueSortBy,
    sort_dir: SortDirection,
) -> bool {
    let shown = shown_rows(rows, limit as int);
    &&& resp.has_more == (rows.len() > limit)
    &&& resp.items@.len() == shown.len()
    &&& forall|i: int| 0 <= i < shown.len() ==> item_shows(#[trigger] resp.items@[i], shown[i])
    &&& resp.total == total
    &&& resp.limit == limit
    &&& resp.offset == offset
    &&& resp.sort_by == sort_by
    &&& resp.sort_dir == sort_dir
    &&& resp.next_cursor == (if resp.has_more && shown.len() > 0 {
        Some(cursor_of(sort_by, shown.last()))
    } else {
        None
    })
}

/// Builds the page made of `rows`, fetched with one row to spare.
pub fn build_page(
    rows: Vec<MyIssueRow>,
    total: i64,
    limit: i64,
    offset: i64,
    sort_by: MyIssueSortBy,
    sort_dir: SortDirection,
    facets: MyIssueFacets,
) -> (r: ListMyIssuesResponse)
    requires
        limit >= 1,
    ensures
        page_of(r, rows@, total, limit, offset, sort_by, sort_dir),
        r.facets == facets,
{
    let has_more = rows.len() as i128 > limit as i128;
    let mut rows = rows;
    let ghost all = rows@;
    if has_more {
        rows.pop();
    }
    assert(rows@ == shown_rows(all, limit as int));
    let next_cursor = if has_more && rows.len() > 0 {
        Some(cursor_from_row(sort_by, &rows[rows.len() - 1]))
    } else {
        None
    };
    let mut items: Vec<MyIssueItem> = Vec::new();
    let mut i: usize = 0;
    while i < rows.len()
        invariant
            i <= rows.len(),
            items@.len() == i,
            forall|k: int| 0 <= k < i ==> item_shows(#[trigger] items@[k], rows@[k]),
        decreases rows.len() - i,
    {
        items.push(my_item_from_row(&rows[i]));
        i = i + 1;
    }
    ListMyIssuesResponse { items, total, limit, offset, next_cursor, has_more, sort_by, sort_dir, facets }
}

/// Where the "my issues" request stands.
pub enum ListMyIssuesStep {
    /// (With an organization filter) waiting for the organization.
    AwaitOrg,
    /// (With an organization filter) waiting for the caller's membership of it.
    AwaitOrgMember { org_id: u128 },
    /// Waiting for the cursor text to be decoded.
    AwaitCursor,
    /// Waiting for the total count.
    AwaitCount { cursor: Option<MyIssuesCursor> },
    /// Waiting for the facet counts.
    AwaitFacets { cursor: Option<MyIssuesCursor>, total: i64 },
    /// Waiting for the page of rows.
    AwaitRows { total: i64, facets: MyIssueFacets },
    /// The response has been given.
    Finished,
}

/// What the outside world reports back; `None` stands for a failed database call.
pub enum ListMyIssuesEvent {
    /// The id of the organization with the filter's slug, if there is one.
    OrgFound(Option<Option<u128>>),
    /// Whether the caller is a member of that organization.
    OrgMemberChecked(Option<bool>),
    /// The cursor text, decoded (`None` when it is not a valid cursor).
    CursorDecoded(Option<MyIssuesCursor>),
    Counted(Option<i64>),
    /// The rows of the status facet query and of the priority facet query.
    FacetsFetched(Option<(Vec<FacetCount>, Vec<FacetCount>)>),
    RowsFetched(Option<Vec<MyIssueRow>>),
}

/// What the request asks the outside world to do next.
pub enum ListMyIssuesAction {
    /// Look up the organization with this slug.
    FindOrg { org_slug: String },
    /// Check that the user is a member of this organization.
    CheckOrgMember { org_id: u128, user_id: u128 },
    /// Decode this cursor text.
    DecodeCursor(String),
    /// Run this count query.
    Count(SqlQuery),
    /// Run these two facet queries (status, then priority).
    FetchFacets(SqlQuery, SqlQuery),
    /// Run this item query.
    FetchRows(SqlQuery),
    /// Answer the request.
    Respond(Result<ListMyIssuesResponse, AppError>),
}

/// The "my issues" request: its inputs, the page parameters derived from them, and where it stands.
pub struct ListMyIssuesFlow {
    pub user_id: u128,
    pub query: ListMyIssuesQuery,
    pub limit: i64,
    pub offset: i64,
    pub sort_by: MyIssueSortBy,
    pub sort_dir: SortDirection,
    pub step: ListMyIssuesStep,
}

/// The page parameters of a request are those its query asks for, with the defaults.
pub open spec fn params_ok(f: ListMyIssuesFlow) -> bool {
    &&& f.limit == page_limit(f.query.limit, 1, 1000)
    &&& f.offset == page_offset(f.query.offset)
    &&& f.sort_by == (match f.query.sort_by { Some(s) => s, None => MyIssueSortBy::UpdatedAt })
    &&& f.sort_dir == (match f.query.sort_dir { Some(s) => s, None => SortDirection::Desc })
}

/// The cursor that a state carries into the count and facet stages.
pub open spec fn flow_cursor(s: ListMyIssuesStep) -> Option<MyIssuesCursor> {
    match s {
        ListMyIssuesStep::AwaitCount { cursor } => cursor,
        ListMyIssuesStep::AwaitFacets { cursor, .. } => cursor,
        _ => None,
    }
}

/// Where the request goes once any organization filter has been checked: to
/// decoding its cursor, or else to counting.
pub open spec fn begins(user_id: u128, query: ListMyIssuesQuery, step: ListMyIssuesStep, action: ListMyIssuesAction) -> bool {
    match query.cursor {
        Some(c) => step is AwaitCursor && action == ListMyIssuesAction::DecodeCursor(c),
        None => step == (ListMyIssuesStep::AwaitCount { cursor: None }) && (action matches ListMyIssuesAction::Count(q)
            && q@ == count_query_pieces(user_id, query)),
    }
}

/// Among the first `n` rows, row `j` is the last with its value.
pub open spec fn last_with_value(rows: Seq<FacetCount>, n: int, j: int) -> bool {
    &&& 0 <= j < n
    &&& forall|k: int| j < k < n ==> rows[k].value@ != rows[j].value@
}

/// `out` maps each value of the first `n` rows to the count of the last row
/// with that value: no value occurs twice in `out`, every entry is the last row
/// with its value, and every value of those rows has an entry.
pub open spec fn facet_counts_of(out: Seq<FacetCount>, rows: Seq<FacetCount>, n: int) -> bool {
    &&& forall|a: int, b: int| 0 <= a < b < out.len() ==> out[a].value@ != out[b].value@
    &&& forall|a: int|
        0 <= a < out.len() ==> exists|j: int|
            last_with_value(rows, n, j) && rows[j].value@ == (#[trigger] out[a]).value@ && rows[j].count == out[a].count
    &&& forall|j: int|
        0 <= j < n ==> exists|a: int| 0 <= a < out.len() && out[a].value@ == (#[trigger] rows[j]).value@
}

/// The facet counts made of the rows of the two facet queries, each a map from
/// value to count (the last row of a value wins), and no blocked or blocking counts.
pub open spec fn facets_of(f: MyIssueFacets, status: Seq<FacetCount>, priority: Seq<FacetCount>) -> bool {
    &&& facet_counts_of(f.status@, status, status.len() as int)
    &&& facet_counts_of(f.priority@, priority, priority.len() as int)
    &&& f.relations.blocked == 0
    &&& f.relations.blocking == 0
}

/// The index of the entry of `out` with this value, if any.
fn entry_index(out: &Vec<FacetCount>, value: &str) -> (r: Option<usize>)
    ensures
        match r {
            Some(a) => a < out.len() && out@[a as int].value@ == value@,
            None => forall|a: int| 0 <= a < out.len() ==> out@[a].value@ != value@,
        },
{
    let mut a: usize = 0;
    while a < out.len()
        invariant
            a <= out.len(),
            forall|b: int| 0 <= b < a ==> out@[b].value@ != value@,
        decreases out.len() - a,
    {
        if str_eq(out[a].value.as_str(), value) {
            return Some(a);
        }
        a = a + 1;
    }
    None
}

/// Collects facet rows into one entry per value, the last row of a value winning.
pub fn facet_counts(rows: &Vec<FacetCount>) -> (out: Vec<FacetCount>)
    ensures
        facet_counts_of(out@, rows@, rows.len() as int),
{
    let mut out: Vec<FacetCount> = Vec::new();
    let mut n: usize = 0;
    while n < rows.len()
        invariant
            n <= rows.len(),
            facet_counts_of(out@, rows@, n as int),
        decreases rows.len() - n,
    {
        let ghost old_out = out@;
        let entry = FacetCount { value: rows[n].value.clone(), count: rows[n].count };
        assert(last_with_value(rows@, n + 1, n as int));
        match entry_index(&out, rows[n].value.as_str()) {
            Some(idx) => {
                out.set(idx, entry);
                assert forall|a: int| 0 <= a < out@.len() implies exists|j: int|
                    last_with_value(rows@, n + 1, j) && rows@[j].value@ == (#[trigger] out@[a]).value@
                        && rows@[j].count == out@[a].count by {
                    if a == idx {
                        assert(rows@[n as int].value@ == out@[a].value@);
                    } else {
                        let j = choose|j: int|
                            last_with_value(rows@, n as int, j) && rows@[j].value@ == old_out[a].value@
                                && rows@[j].count == old_out[a].count;
                        assert(last_with_value(rows@, n + 1, j));
                    }
                }
                assert forall|j: int| 0 <= j < n + 1 implies exists|a: int|
                    0 <= a < out@.len() && out@[a].value@ == (#[trigger] rows@[j]).value@ by {
                    if j == n {
                        assert(out@[idx as int].value@ == rows@[j].value@);
                    } else {
                        let a = choose|a: int| 0 <= a < old_out.len() && old_out[a].value@ == rows@[j].value@;
                        assert(out@[a].value@ == rows@[j].value@);
                    }
                }
            },
            None => {
                out.push(entry);
                assert forall|a: int| 0 <= a < out@.len() implies exists|j: int|
                    last_with_value(rows@, n + 1, j) && rows@[j].value@ == (#[trigger] out@[a]).value@
                        && rows@[j].count == out@[a].count by {
                    if a == old_out.len() {
                        assert(rows@[n as int].value@ == out@[a].value@);
                    } else {
                        assert(out@[a] == old_out[a]);
                        let j = choose|j: int|
                            last_with_value(rows@, n as int, j) && rows@[j].value@ == old_out[a].value@
                                && rows@[j].count == old_out[a].count;
                        assert(last_with_value(rows@, n + 1, j));
                    }
                }
                assert forall|j: int| 0 <= j < n + 1 implies exists|a: int|
                    0 <= a < out@.len() && out@[a].value@ == (#[trigger] rows@[j]).value@ by {
                    if j == n {
                        assert(out@[old_out.len() as int].value@ == rows@[j].value@);
                    } else {
                        let a = choose|a: int| 0 <= a < old_out.len() && old_out[a].value@ == rows@[j].value@;
                        assert(out@[a] == old_out[a]);
                    }
                }
            },
        }
        n = n + 1;
    }
    out
}

/// The decision table of the "my issues" request: from where it stands and what
/// is reported, where it goes and what it asks for. A failed database call, or a
/// report that does not fit where the request stands, ends it with `Internal`.
pub open spec fn list_my_issues_next(
    before: ListMyIssuesFlow,
    event: ListMyIssuesEvent,
    after: ListMyIssuesFlow,
    action: ListMyIssuesAction,
) -> bool {
    match (before.step, event) {
        (ListMyIssuesStep::AwaitOrg, ListMyIssuesEvent::OrgFound(Some(None))) => after.step is Finished && action
            == ListMyIssuesAction::Respond(Err(AppError::NotFound)),
        (ListMyIssuesStep::AwaitOrg, ListMyIssuesEvent::OrgFound(Some(Some(org_id)))) => after.step
            == (ListMyIssuesStep::AwaitOrgMember { org_id }) && action == (ListMyIssuesAction::CheckOrgMember {
            org_id,
            user_id: before.user_id,
        }),
        (ListMyIssuesStep::AwaitOrgMember { .. }, ListMyIssuesEvent::OrgMemberChecked(Some(false))) => after.step is Finished
            && action == ListMyIssuesAction::Respond(Err(AppError::Forbidden)),
        (ListMyIssuesStep::AwaitOrgMember { .. }, ListMyIssuesEvent::OrgMemberChecked(Some(true))) => begins(
            before.user_id,
            before.query,
            after.step,
            action,
        ),
        (ListMyIssuesStep::AwaitCursor, ListMyIssuesEvent::CursorDecoded(None)) => after.step is Finished && action
            == ListMyIssuesAction::Respond(Err(AppError::BadRequest(Some("invalid cursor")))),
        (ListMyIssuesStep::AwaitCursor, ListMyIssuesEvent::CursorDecoded(Some(c))) => after.step
            == (ListMyIssuesStep::AwaitCount { cursor: Some(c) }) && (action matches ListMyIssuesAction::Count(q)
            && q@ == count_query_pieces(before.user_id, before.query)),
        (ListMyIssuesStep::AwaitCount { cursor }, ListMyIssuesEvent::Counted(Some(t))) => after.step
            == (ListMyIssuesStep::AwaitFacets { cursor, total: t }) && (action matches ListMyIssuesAction::FetchFacets(qs, qp)
            && qs@ == facet_query_pieces(before.user_id, before.query, Facet::Status)
            && qp@ == facet_query_pieces(before.user_id, before.query, Facet::Priority)),
        (ListMyIssuesStep::AwaitFacets { cursor, total }, ListMyIssuesEvent::FacetsFetched(Some(fr))) => match items_query_result(
            before.user_id,
            before.query,
            before.sort_by,
            before.sort_dir,
            (before.limit + 1) as i64,
            before.offset,
            cursor,
        ) {
            Err(m) => after.step is Finished && action == ListMyIssuesAction::Respond(Err(AppError::BadRequest(Some(m)))),
            Ok(p) => (after.step matches ListMyIssuesStep::AwaitRows { total: t2, facets } && t2 == total && facets_of(
                facets,
                fr.0@,
                fr.1@,
            )) && (action matches ListMyIssuesAction::FetchRows(q) && q@ == p),
        },
        (ListMyIssuesStep::AwaitRows { total, facets }, ListMyIssuesEvent::RowsFetched(Some(rows))) => after.step is Finished
            && (action matches ListMyIssuesAction::Respond(Ok(resp)) && page_of(
            resp,
            rows@,
            total,
            before.limit,
            before.offset,
            before.sort_by,
            before.sort_dir,
        ) && resp.facets == facets),
        _ => after.step is Finished && action == ListMyIssuesAction::Respond(Err(AppError::Internal)),
    }
}

/// The first state and action once any organization filter has been checked.
fn begin(user_id: u128, query: &ListMyIssuesQuery) -> (r: (ListMyIssuesStep, ListMyIssuesAction))
    ensures
        begins(user_id, *query, r.0, r.1),
{
    match &query.cursor {
        Some(c) => (ListMyIssuesStep::AwaitCursor, ListMyIssuesAction::DecodeCursor(c.clone())),
        None => (ListMyIssuesStep::AwaitCount { cursor: None }, ListMyIssuesAction::Count(count_filtered_query(user_id, query))),
    }
}

impl ListMyIssuesFlow {
    /// Starts a "my issues" request.
    pub fn start(user_id: u128, query: ListMyIssuesQuery) -> (r: (ListMyIssuesFlow, ListMyIssuesAction))
        ensures
            r.0.user_id == user_id,
            r.0.query == query,
            params_ok(r.0),
            match (query.cursor, query.offset) {
                (Some(_), Some(_)) => r.0.step is Finished && r.1 == ListMyIssuesAction::Respond(
                    Err(AppError::BadRequest(Some("use either cursor or offset, not both"))),
                ),
                _ => match query.org_slug {
                    Some(o) => r.0.step is AwaitOrg && r.1 == (ListMyIssuesAction::FindOrg { org_slug: o }),
                    None => begins(user_id, query, r.0.step, r.1),
                },
            },
    {
        let limit = limit_or_default(query.limit, 1, 1000);
        let offset = offset_or_default(query.offset);
        let sort_by = match query.sort_by {
            Some(s) => s,
            None => MyIssueSortBy::default_sort(),
        };
        let sort_dir = match query.sort_dir {
            Some(s) => s,
            None => SortDirection::default_direction(),
        };
        if query.cursor.is_some() && query.offset.is_some() {
            let f = ListMyIssuesFlow { user_id, query, limit, offset, sort_by, sort_dir, step: ListMyIssuesStep::Finished };
            return (f, ListMyIssuesAction::Respond(Err(AppError::BadRequest(Some("use either cursor or offset, not both")))));
        }
        if let Some(o) = &query.org_slug {
            let org_slug = o.clone();
            let f = ListMyIssuesFlow { user_id, query, limit, offset, sort_by, sort_dir, step: ListMyIssuesStep::AwaitOrg };
            return (f, ListMyIssuesAction::FindOrg { org_slug });
        }
        let (step, action) = begin(user_id, &query);
        (ListMyIssuesFlow { user_id, query, limit, offset, sort_by, sort_dir, step }, action)
    }

    /// Takes in what the outside world reports and says what to do next.
    pub fn step(&mut self, event: ListMyIssuesEvent) -> (action: ListMyIssuesAction)
        requires
            params_ok(*old(self)),
        ensures
            params_ok(*final(self)),
            final(self).user_id == old(self).user_id,
            final(self).query == old(self).query,
            list_my_issues_next(*old(self), event, *final(self), action),
    {
        let mut step = ListMyIssuesStep::Finished;
        std::mem::swap(&mut step, &mut self.step);
        match step {
            ListMyIssuesStep::AwaitOrg => match event {
                ListMyIssuesEvent::OrgFound(Some(None)) => ListMyIssuesAction::Respond(Err(AppError::NotFound)),
                ListMyIssuesEvent::OrgFound(Some(Some(org_id))) => {
                    self.step = ListMyIssuesStep::AwaitOrgMember { org_id };
                    ListMyIssuesAction::CheckOrgMember { org_id, user_id: self.user_id }
                },
                _ => ListMyIssuesAction::Respond(Err(AppError::Internal)),
            },
            ListMyIssuesStep::AwaitOrgMember { .. } => match event {
                ListMyIssuesEvent::OrgMemberChecked(Some(false)) => ListMyIssuesAction::Respond(Err(AppError::Forbidden)),
                ListMyIssuesEvent::OrgMemberChecked(Some(true)) => {
                    let (next, action) = begin(self.user_id, &self.query);
                    self.step = next;
                    action
                },
                _ => ListMyIssuesAction::Respond(Err(AppError::Internal)),
            },
            ListMyIssuesStep::AwaitCursor => match event {
                ListMyIssuesEvent::CursorDecoded(Some(c)) => {
                    let q = count_filtered_query(self.user_id, &self.query);
                    self.step = ListMyIssuesStep::AwaitCount { cursor: Some(c) };
                    ListMyIssuesAction::Count(q)
                },
                ListMyIssuesEvent::CursorDecoded(None) => ListMyIssuesAction::Respond(
                    Err(AppError::BadRequest(Some("invalid cursor"))),
                ),
                _ => ListMyIssuesAction::Respond(Err(AppError::Internal)),
            },
            ListMyIssuesStep::AwaitCount { cursor } => match event {
                ListMyIssuesEvent::Counted(Some(total)) => {
                    let qs = facet_query(self.user_id, &self.query, Facet::Status);
                    let qp = facet_query(self.user_id, &self.query, Facet::Priority);
                    self.step = ListMyIssuesStep::AwaitFacets { cursor, total };
                    ListMyIssuesAction::FetchFacets(qs, qp)
                },
                _ => ListMyIssuesAction::Respond(Err(AppError::Internal)),
            },
            ListMyIssuesStep::AwaitFacets { cursor, total } => match event {
                ListMyIssuesEvent::FacetsFetched(Some(fr)) => {
                    let (status_rows, priority_rows) = fr;
                    let facets = MyIssueFacets {
                        status: facet_counts(&status_rows),
                        priority: facet_counts(&priority_rows),
                        relations: RelationsFacetCounts { blocked: 0, blocking: 0 },
                    };
                    let cref = match &cursor {
                        Some(c) => Some(c),
                        None => None,
                    };
                    match item_rows_query(
                        self.user_id,
                        &self.query,
                        self.sort_by,
                        self.sort_dir,
                        self.limit + 1,
                        self.offset,
                        cref,
                    ) {
                        Ok(q) => {
                            self.step = ListMyIssuesStep::AwaitRows { total, facets };
                            ListMyIssuesAction::FetchRows(q)
                        },
                        Err(m) => ListMyIssuesAction::Respond(Err(AppError::BadRequest(Some(m)))),
                    }
                },
                _ => ListMyIssuesAction::Respond(Err(AppError::Internal)),
            },
            ListMyIssuesStep::AwaitRows { total, facets } => match event {
                ListMyIssuesEvent::RowsFetched(Some(rows)) => {
                    let resp = build_page(rows, total, self.limit, self.offset, self.sort_by, self.sort_dir, facets);
                    ListMyIssuesAction::Respond(Ok(resp))
                },
                _ => ListMyIssuesAction::Respond(Err(AppError::Internal)),
            },
            ListMyIssuesStep::Finished => ListMyIssuesAction::Respond(Err(AppError::Internal)),
        }
    }
}

} // verus!
