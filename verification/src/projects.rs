use vstd::prelude::*;
use crate::error::AppError;
use crate::paging::{limit_or_default, more_after, offset_or_default, page_limit, page_offset};
use crate::text::{chars_of, lowercase, string_from_chars, to_lowercase, trim, trim_str};

verus! {

/// The listing of the caller's projects: page, search text and organization.
pub struct ListMyProjectsQuery {
    pub limit: Option<i32>,
    pub offset: Option<i32>,
    pub q: Option<String>,
    /// When set, only projects in this organization (the user must be a member of it).
    pub org_slug: Option<String>,
}

/// A project with its organization and the caller's view of it, as stored.
pub struct ProjectWithOrgRow {
    pub id: u128,
    pub project_key: String,
    pub name: String,
    pub description: Option<String>,
    pub org_id: u128,
    /// Microseconds since the Unix epoch.
    pub created_at: i64,
    pub org_name: String,
    pub org_slug: String,
    pub my_role: String,
    pub issue_count: i64,
    pub member_count: i64,
    /// When the caller last opened the project, in microseconds since the Unix epoch.
    pub viewed_at: Option<i64>,
}

/// A project, as listed.
pub struct ProjectItem {
    pub id: u128,
    pub project_key: String,
    pub name: String,
    pub description: Option<String>,
    pub org_id: u128,
    pub org_name: String,
    pub org_slug: String,
    pub issue_count: i64,
    pub member_count: i64,
    pub my_role: String,
    pub created_at: i64,
    pub viewed_at: Option<i64>,
}

/// A page of the caller's projects.
pub struct ListMyProjectsResponse {
    pub items: Vec<ProjectItem>,
    pub total: i64,
    pub limit: i32,
    pub offset: i32,
    pub has_more: bool,
}

/// A project, as shown on its own.
pub struct GetProjectResponse {
    pub id: u128,
    pub project_key: String,
    pub name: String,
    pub description: Option<String>,
    pub org_id: u128,
    pub org_name: String,
    pub org_slug: String,
    pub issue_count: i64,
    pub member_count: i64,
    pub my_role: String,
    pub created_at: i64,
    pub viewed_at: Option<i64>,
}

/// `item` shows the project `row`, field for field.
pub open spec fn shows_project(item: ProjectItem, row: ProjectWithOrgRow) -> bool {
    &&& item.id == row.id && item.org_id == row.org_id
    &&& item.project_key@ == row.project_key@ && item.name@ == row.name@
    &&& item.description == row.description
    &&& item.org_name@ == row.org_name@ && item.org_slug@ == row.org_slug@ && item.my_role@ == row.my_role@
    &&& item.issue_count == row.issue_count && item.member_count == row.member_count
    &&& item.created_at == row.created_at && item.viewed_at == row.viewed_at
}

/// `r` shows the project `row`, field for field.
pub open spec fn shows_project_detail(r: GetProjectResponse, row: ProjectWithOrgRow) -> bool {
    &&& r.id == row.id && r.org_id == row.org_id
    &&& r.project_key@ == row.project_key@ && r.name@ == row.name@
    &&& r.description == row.description
    &&& r.org_name@ == row.org_name@ && r.org_slug@ == row.org_slug@ && r.my_role@ == row.my_role@
    &&& r.issue_count == row.issue_count && r.member_count == row.member_count
    &&& r.created_at == row.created_at && r.viewed_at == row.viewed_at
}

/// The listed form of a project.
pub fn project_item(row: ProjectWithOrgRow) -> (item: ProjectItem)
    ensures
        shows_project(item, row),
{
    ProjectItem {
        id: row.id,
        project_key: row.project_key,
        name: row.name,
        description: row.description,
        org_id: row.org_id,
        org_name: row.org_name,
        org_slug: row.org_slug,
        issue_count: row.issue_count,
        member_count: row.member_count,
        my_role: row.my_role,
        created_at: row.created_at,
        viewed_at: row.viewed_at,
    }
}

/// The shown form of a project.
pub fn project_detail(row: ProjectWithOrgRow) -> (r: GetProjectResponse)
    ensures
        shows_project_detail(r, row),
{
    GetProjectResponse {
        id: row.id,
        project_key: row.project_key,
        name: row.name,
        description: row.description,
        org_id: row.org_id,
        org_name: row.org_name,
        org_slug: row.org_slug,
        issue_count: row.issue_count,
        member_count: row.member_count,
        my_role: row.my_role,
        created_at: row.created_at,
        viewed_at: row.viewed_at,
    }
}

/// The listed form of each project, in order.
pub fn project_items(rows: Vec<ProjectWithOrgRow>) -> (items: Vec<ProjectItem>)
    ensures
        items.len() == rows.len(),
        forall|k: int| 0 <= k < rows.len() ==> shows_project(#[trigger] items@[k], rows@[k]),
{
    let ghost all = rows@;
    let mut rows = rows;
    let mut items: Vec<ProjectItem> = Vec::new();
    while rows.len() > 0
        invariant
            items.len() + rows.len() == all.len(),
            rows@ == all.subrange(items.len() as int, all.len() as int),
            forall|k: int| 0 <= k < items.len() ==> shows_project(#[trigger] items@[k], all[k]),
        decreases rows.len(),
    {
        let r = rows.remove(0);
        assert(r == all[items.len() as int]);
        items.push(project_item(r));
        assert(rows@ =~= all.subrange(items.len() as int, all.len() as int));
    }
    items
}

/// The page size of the project list: 50 unless asked, held within `[1, 100]`.
pub open spec fn project_limit(limit: Option<i32>) -> int {
    page_limit(
        match limit {
            Some(l) => Some(l as i64),
            None => None,
        },
        1,
        100,
    )
}

/// The offset of the project list: 0 unless asked, never negative.
pub open spec fn project_offset(offset: Option<i32>) -> int {
    page_offset(
        match offset {
            Some(o) => Some(o as i64),
            None => None,
        },
    )
}

/// The `LIKE` pattern that the search text makes: `%` for none or blank, else
/// the trimmed text in lower case between two `%`.
pub open spec fn search_pattern(q: Option<String>) -> Seq<char> {
    let s = match q {
        Some(t) => trim(t@),
        None => Seq::empty(),
    };
    if s.len() == 0 {
        seq!['%']
    } else {
        seq!['%'] + lowercase(s) + seq!['%']
    }
}

/// The organization the listing is limited to: the trimmed slug, when not blank.
pub open spec fn org_filter(org_slug: Option<String>) -> Option<Seq<char>> {
    match org_slug {
        Some(s) => if trim(s@).len() == 0 {
            None
        } else {
            Some(trim(s@))
        },
        None => None,
    }
}

/// The `LIKE` pattern of the search text.
pub fn make_search_pattern(q: &Option<String>) -> (r: String)
    ensures
        r@ == search_pattern(*q),
{
    let search: &str = match q {
        Some(t) => trim_str(t.as_str()),
        None => "",
    };
    proof {
        reveal_strlit("");
    }
    let mut v: Vec<char> = Vec::new();
    v.push('%');
    if search.unicode_len() > 0 {
        let lower = to_lowercase(search);
        let c = chars_of(lower.as_str());
        let mut k: usize = 0;
        while k < c.len()
            invariant
                k <= c.len(),
                v@ == seq!['%'] + c@.subrange(0, k as int),
            decreases c.len() - k,
        {
            v.push(c[k]);
            k = k + 1;
            assert(v@ =~= seq!['%'] + c@.subrange(0, k as int));
        }
        assert(c@.subrange(0, c.len() as int) =~= c@);
        v.push('%');
    }
    string_from_chars(v.as_slice())
}

/// The organization the listing is limited to, if any.
pub fn read_org_filter(org_slug: &Option<String>) -> (r: Option<String>)
    ensures
        match org_filter(*org_slug) {
            Some(s) => r matches Some(t) && t@ == s,
            None => r is None,
        },
{
    match org_slug {
        Some(s) => {
            let t = trim_str(s.as_str());
            if t.unicode_len() == 0 {
                None
            } else {
                Some(t.to_string())
            }
        },
        None => None,
    }
}

/// Where the listing of the caller's projects stands.
pub enum ListProjectsStep {
    AwaitOrg,
    AwaitMember { org_id: u128 },
    AwaitCount { org_id: Option<u128> },
    AwaitRows { org_id: Option<u128>, total: i64 },
    Finished,
}

/// What the outside world reports back; `None` stands for a failed database call.
pub enum ListProjectsEvent {
    OrgFound(Option<Option<u128>>),
    MemberChecked(Option<bool>),
    Counted(Option<i64>),
    RowsFetched(Option<Vec<ProjectWithOrgRow>>),
}

/// What the listing asks for next.
pub enum ListProjectsAction {
    FindOrg { org_slug: String },
    CheckOrgMember { org_id: u128, user_id: u128 },
    /// How many projects of the user (in the organization, if given) match the pattern?
    CountProjects { user_id: u128, pattern: String, org_id: Option<u128> },
    /// The page of those projects.
    FetchProjects { user_id: u128, pattern: String, org_id: Option<u128>, limit: i64, offset: i64 },
    /// Answer: `Ok` is `200 OK`.
    Respond(Result<ListMyProjectsResponse, AppError>),
}

/// The listing of `user_id`'s projects.
pub struct ListProjectsFlow {
    pub user_id: u128,
    pub limit: i32,
    pub offset: i32,
    pub pattern: String,
    pub step: ListProjectsStep,
}

/// The count asked for, once the organization filter is known.
pub open spec fn is_count_of(action: ListProjectsAction, f: ListProjectsFlow, org_id: Option<u128>) -> bool {
    action matches ListProjectsAction::CountProjects { user_id, pattern, org_id: o } && user_id == f.user_id && pattern@
        == f.pattern@ && o == org_id
}

/// The decision table of the listing of the caller's projects.
pub open spec fn list_projects_next(before: ListProjectsFlow, event: ListProjectsEvent, after: ListProjectsFlow, action: ListProjectsAction) -> bool {
    match (before.step, event) {
        (ListProjectsStep::AwaitOrg, ListProjectsEvent::OrgFound(Some(None))) => after.step is Finished && action
            == ListProjectsAction::Respond(Err(AppError::NotFound)),
        (ListProjectsStep::AwaitOrg, ListProjectsEvent::OrgFound(Some(Some(org_id)))) => after.step
            == (ListProjectsStep::AwaitMember { org_id }) && action == (ListProjectsAction::CheckOrgMember {
            org_id,
            user_id: before.user_id,
        }),
        (ListProjectsStep::AwaitMember { .. }, ListProjectsEvent::MemberChecked(Some(false))) => after.step is Finished
            && action == ListProjectsAction::Respond(Err(AppError::Forbidden)),
        (ListProjectsStep::AwaitMember { org_id }, ListProjectsEvent::MemberChecked(Some(true))) => after.step
            == (ListProjectsStep::AwaitCount { org_id: Some(org_id) }) && is_count_of(action, before, Some(org_id)),
        (ListProjectsStep::AwaitCount { org_id }, ListProjectsEvent::Counted(Some(total))) => after.step
            == (ListProjectsStep::AwaitRows { org_id, total }) && (action matches ListProjectsAction::FetchProjects {
            user_id,
            pattern,
            org_id: o,
            limit,
            offset,
        } && user_id == before.user_id && pattern@ == before.pattern@ && o == org_id && limit == before.limit && offset
            == before.offset),
        (ListProjectsStep::AwaitRows { total, .. }, ListProjectsEvent::RowsFetched(Some(rows))) => after.step is Finished
            && (action matches ListProjectsAction::Respond(Ok(r)) && r.items.len() == rows.len() && (forall|k: int|
            0 <= k < rows.len() ==> shows_project(#[trigger] r.items@[k], rows@[k])) && r.total == total && r.limit
            == before.limit && r.offset == before.offset && r.has_more == (before.offset + rows.len() < total)),
        _ => after.step is Finished && action == ListProjectsAction::Respond(Err(AppError::Internal)),
    }
}

impl ListProjectsFlow {
    /// Starts the listing: with an organization given, look it up; else count the projects.
    pub fn start(user_id: u128, query: ListMyProjectsQuery) -> (r: (ListProjectsFlow, ListProjectsAction))
        ensures
            r.0.user_id == user_id,
            r.0.limit == project_limit(query.limit),
            r.0.offset == project_offset(query.offset),
            r.0.pattern@ == search_pattern(query.q),
            match org_filter(query.org_slug) {
                Some(slug) => r.0.step is AwaitOrg && (r.1 matches ListProjectsAction::FindOrg { org_slug } && org_slug@
                    == slug),
                None => r.0.step == (ListProjectsStep::AwaitCount { org_id: None }) && is_count_of(r.1, r.0, None),
            },
    {
        let limit_asked: Option<i64> = match query.limit {
            Some(l) => Some(l as i64),
            None => None,
        };
        let offset_asked: Option<i64> = match query.offset {
            Some(o) => Some(o as i64),
            None => None,
        };
        let limit = limit_or_default(limit_asked, 1, 100) as i32;
        let offset_wide = offset_or_default(offset_asked);
        assert(offset_wide <= i32::MAX);
        let offset = offset_wide as i32;
        let pattern = make_search_pattern(&query.q);
        match read_org_filter(&query.org_slug) {
            Some(org_slug) => (
                ListProjectsFlow { user_id, limit, offset, pattern, step: ListProjectsStep::AwaitOrg },
                ListProjectsAction::FindOrg { org_slug },
            ),
            None => {
                let asked = pattern.clone();
                (
                    ListProjectsFlow { user_id, limit, offset, pattern, step: ListProjectsStep::AwaitCount { org_id: None } },
                    ListProjectsAction::CountProjects { user_id, pattern: asked, org_id: None },
                )
            },
        }
    }

    /// Takes in what the outside world reports and says what to do next.
    pub fn step(&mut self, event: ListProjectsEvent) -> (action: ListProjectsAction)
        ensures
            final(self).user_id == old(self).user_id && final(self).limit == old(self).limit && final(self).offset == old(
                self,
            ).offset && final(self).pattern == old(self).pattern,
            list_projects_next(*old(self), event, *final(self), action),
    {
        let mut step = ListProjectsStep::Finished;
        std::mem::swap(&mut step, &mut self.step);
        match (step, event) {
            (ListProjectsStep::AwaitOrg, ListProjectsEvent::OrgFound(Some(None))) => ListProjectsAction::Respond(
                Err(AppError::NotFound),
            ),
            (ListProjectsStep::AwaitOrg, ListProjectsEvent::OrgFound(Some(Some(org_id)))) => {
                self.step = ListProjectsStep::AwaitMember { org_id };
                ListProjectsAction::CheckOrgMember { org_id, user_id: self.user_id }
            },
            (ListProjectsStep::AwaitMember { .. }, ListProjectsEvent::MemberChecked(Some(false))) => ListProjectsAction::Respond(
                Err(AppError::Forbidden),
            ),
            (ListProjectsStep::AwaitMember { org_id }, ListProjectsEvent::MemberChecked(Some(true))) => {
                self.step = ListProjectsStep::AwaitCount { org_id: Some(org_id) };
                ListProjectsAction::CountProjects {
                    user_id: self.user_id,
                    pattern: self.pattern.clone(),
                    org_id: Some(org_id),
                }
            },
            (ListProjectsStep::AwaitCount { org_id }, ListProjectsEvent::Counted(Some(total))) => {
                self.step = ListProjectsStep::AwaitRows { org_id, total };
                ListProjectsAction::FetchProjects {
                    user_id: self.user_id,
                    pattern: self.pattern.clone(),
                    org_id,
                    limit: self.limit as i64,
                    offset: self.offset as i64,
                }
            },
            (ListProjectsStep::AwaitRows { total, .. }, ListProjectsEvent::RowsFetched(Some(rows))) => {
                let items = project_items(rows);
                let has_more = more_after(self.offset as i64, items.len(), total);
                ListProjectsAction::Respond(
                    Ok(ListMyProjectsResponse { items, total, limit: self.limit, offset: self.offset, has_more }),
                )
            },
            _ => ListProjectsAction::Respond(Err(AppError::Internal)),
        }
    }
}

} // verus!
