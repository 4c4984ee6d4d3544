use vstd::prelude::*;
use crate::sql::{text, SqlArg, SqlArgView, SqlPieceView, SqlQuery};
use crate::text::{chars_of, ends_with, find_char, first_index_of, is_blank, str_eq, string_from_chars, trim, trim_bounds};

verus! {

/// The column by which the "my issues" list is sorted.
#[derive(Debug, Clone, Copy, PartialEq, Eq, Structural)]
pub enum MyIssueSortBy {
    CreatedAt,
    UpdatedAt,
    KeySeq,
    Title,
    Status,
    Priority,
}

/// The direction of a sort.
#[derive(Debug, Clone, Copy, PartialEq, Eq, Structural)]
pub enum SortDirection {
    Asc,
    Desc,
}

/// The SQL column of a sort key.
pub open spec fn sort_column(s: MyIssueSortBy) -> Seq<char> {
    match s {
        MyIssueSortBy::CreatedAt => "i.created_at"@,
        MyIssueSortBy::UpdatedAt => "i.updated_at"@,
        MyIssueSortBy::KeySeq => "i.key_seq"@,
        MyIssueSortBy::Title => "i.title"@,
        MyIssueSortBy::Status => "pws.slug"@,
        MyIssueSortBy::Priority => "i.priority"@,
    }
}

impl MyIssueSortBy {
    /// Sorting by last update is the default.
    pub fn default_sort() -> (r: MyIssueSortBy)
        ensures
            r == MyIssueSortBy::UpdatedAt,
    {
        MyIssueSortBy::UpdatedAt
    }

    /// The SQL column that this key sorts by.
    pub fn as_sql(self) -> (r: &'static str)
        ensures
            r@ == sort_column(self),
    {
        match self {
            MyIssueSortBy::CreatedAt => "i.created_at",
            MyIssueSortBy::UpdatedAt => "i.updated_at",
            MyIssueSortBy::KeySeq => "i.key_seq",
            MyIssueSortBy::Title => "i.title",
            MyIssueSortBy::Status => "pws.slug",
            MyIssueSortBy::Priority => "i.priority",
        }
    }
}

impl SortDirection {
    /// Descending is the default.
    pub fn default_direction() -> (r: SortDirection)
        ensures
            r == SortDirection::Desc,
    {
        SortDirection::Desc
    }

    /// `ASC` or `DESC`.
    pub fn as_sql(self) -> (r: &'static str)
        ensures
            r@ == (match self {
                SortDirection::Asc => "ASC"@,
                SortDirection::Desc => "DESC"@,
            }),
    {
        match self {
            SortDirection::Asc => "ASC",
            SortDirection::Desc => "DESC",
        }
    }

    /// The comparison that selects the rows after a cursor: `>` ascending, `<` descending.
    pub fn comparison_sql(self) -> (r: &'static str)
        ensures
            r@ == (match self {
                SortDirection::Asc => ">"@,
                SortDirection::Desc => "<"@,
            }),
    {
        match self {
            SortDirection::Asc => ">",
            SortDirection::Desc => "<",
        }
    }
}

/// Where the next page of "my issues" starts: the last row's id and sort value.
pub struct MyIssuesCursor {
    pub id: u128,
    pub sort_text: Option<String>,
    pub sort_int: Option<i32>,
    /// Microseconds since the Unix epoch.
    pub sort_timestamp: Option<i64>,
}

/// A row of the "my issues" list, as the database returns it.
pub struct MyIssueRow {
    pub id: u128,
    pub project_id: u128,
    pub project_key: String,
    pub key_seq: i32,
    pub title: String,
    /// The workflow status slug.
    pub status: String,
    pub workflow_status_id: u128,
    pub status_name: String,
    pub status_category: String,
    pub is_blocked: bool,
    pub priority: String,
    /// Microseconds since the Unix epoch.
    pub created_at: i64,
    /// Microseconds since the Unix epoch.
    pub updated_at: i64,
}

/// The query of the "my issues" list.
pub struct ListMyIssuesQuery {
    pub limit: Option<i64>,
    pub offset: Option<i64>,
    pub cursor: Option<String>,
    pub q: Option<String>,
    pub status: Option<String>,
    pub priority: Option<String>,
    pub sort_by: Option<MyIssueSortBy>,
    pub sort_dir: Option<SortDirection>,
    pub filter_type: Option<String>,
    /// Comma-separated: `blocked`, `blocking`.
    pub relations: Option<String>,
    /// When set, only issues in projects of this organization.
    pub org_slug: Option<String>,
}

/// The cursor that a row leaves for the next page: its id and the value it is sorted by.
pub open spec fn cursor_of(sort_by: MyIssueSortBy, row: MyIssueRow) -> MyIssuesCursor {
    match sort_by {
        MyIssueSortBy::CreatedAt => MyIssuesCursor { id: row.id, sort_text: None, sort_int: None, sort_timestamp: Some(row.created_at) },
        MyIssueSortBy::UpdatedAt => MyIssuesCursor { id: row.id, sort_text: None, sort_int: None, sort_timestamp: Some(row.updated_at) },
        MyIssueSortBy::KeySeq => MyIssuesCursor { id: row.id, sort_text: None, sort_int: Some(row.key_seq), sort_timestamp: None },
        MyIssueSortBy::Title => MyIssuesCursor { id: row.id, sort_text: Some(row.title), sort_int: None, sort_timestamp: None },
        MyIssueSortBy::Status => MyIssuesCursor { id: row.id, sort_text: Some(row.status), sort_int: None, sort_timestamp: None },
        MyIssueSortBy::Priority => MyIssuesCursor { id: row.id, sort_text: Some(row.priority), sort_int: None, sort_timestamp: None },
    }
}

/// The cursor that `row` leaves for the next page.
pub fn cursor_from_row(sort_by: MyIssueSortBy, row: &MyIssueRow) -> (c: MyIssuesCursor)
    ensures
        c == cursor_of(sort_by, *row),
{
    match sort_by {
        MyIssueSortBy::CreatedAt => MyIssuesCursor { id: row.id, sort_text: None, sort_int: None, sort_timestamp: Some(row.created_at) },
        MyIssueSortBy::UpdatedAt => MyIssuesCursor { id: row.id, sort_text: None, sort_int: None, sort_timestamp: Some(row.updated_at) },
        MyIssueSortBy::KeySeq => MyIssuesCursor { id: row.id, sort_text: None, sort_int: Some(row.key_seq), sort_timestamp: None },
        MyIssueSortBy::Title => MyIssuesCursor { id: row.id, sort_text: Some(row.title.clone()), sort_int: None, sort_timestamp: None },
        MyIssueSortBy::Status => MyIssuesCursor { id: row.id, sort_text: Some(row.status.clone()), sort_int: None, sort_timestamp: None },
        MyIssueSortBy::Priority => MyIssuesCursor { id: row.id, sort_text: Some(row.priority.clone()), sort_int: None, sort_timestamp: None },
    }
}

/// The pieces that restrict a query to rows strictly after `(value, id)` in the sort order.
pub open spec fn after_cursor_pieces(col: Seq<char>, cmp: Seq<char>, value: SqlArgView, id: u128) -> Seq<SqlPieceView> {
    seq![
        SqlPieceView::Sql(" AND (("@), SqlPieceView::Sql(col), SqlPieceView::Sql(" "@), SqlPieceView::Sql(cmp),
        SqlPieceView::Sql(" "@), SqlPieceView::Bind(value), SqlPieceView::Sql(") OR ("@), SqlPieceView::Sql(col),
        SqlPieceView::Sql(" = "@), SqlPieceView::Bind(value), SqlPieceView::Sql(" AND i.id "@),
        SqlPieceView::Sql(cmp), SqlPieceView::Sql(" "@), SqlPieceView::Bind(SqlArgView::Uuid(id)),
        SqlPieceView::Sql("))"@)
    ]
}

/// The cursor's value for a sort key, if it carries one of the right kind.
pub open spec fn cursor_value(sort_by: MyIssueSortBy, c: MyIssuesCursor) -> Option<SqlArgView> {
    match sort_by {
        MyIssueSortBy::KeySeq => match c.sort_int {
            Some(v) => Some(SqlArgView::Int(v)),
            None => None,
        },
        MyIssueSortBy::CreatedAt | MyIssueSortBy::UpdatedAt => match c.sort_timestamp {
            Some(v) => Some(SqlArgView::Timestamp(v)),
            None => None,
        },
        _ => match c.sort_text {
            Some(v) => Some(SqlArgView::Text(v@)),
            None => None,
        },
    }
}

/// The message given when the cursor lacks the value of the sort key.
pub open spec fn missing_cursor_message(sort_by: MyIssueSortBy) -> &'static str {
    match sort_by {
        MyIssueSortBy::KeySeq => "cursor is missing integer sort value",
        MyIssueSortBy::CreatedAt | MyIssueSortBy::UpdatedAt => "cursor is missing timestamp sort value",
        _ => "cursor is missing text sort value",
    }
}

/// The comparison of a direction, as text.
pub open spec fn comparison_of(d: SortDirection) -> Seq<char> {
    match d {
        SortDirection::Asc => ">"@,
        SortDirection::Desc => "<"@,
    }
}

/// The key-sequence column as the cursor filter writes it.
pub open spec fn cursor_column(sort_by: MyIssueSortBy) -> Seq<char> {
    match sort_by {
        MyIssueSortBy::KeySeq => "i.key_seq"@,
        _ => sort_column(sort_by),
    }
}

/// Restricts `q` to the rows after `cursor`; fails, leaving `q` as it was,
/// when the cursor lacks the value of the sort key.
pub fn apply_my_issues_cursor_filter(
    q: &mut SqlQuery,
    sort_by: MyIssueSortBy,
    sort_dir: SortDirection,
    cursor: &MyIssuesCursor,
) -> (r: Result<(), &'static str>)
    ensures
        match cursor_value(sort_by, *cursor) {
            Some(v) => r is Ok && final(q)@ == old(q)@ + after_cursor_pieces(
                cursor_column(sort_by),
                comparison_of(sort_dir),
                v,
                cursor.id,
            ),
            None => r == Err::<(), &'static str>(missing_cursor_message(sort_by)) && final(q)@ == old(q)@,
        },
{
    let comparison = sort_dir.comparison_sql();
    let ghost q0 = q@;
    let col: &'static str;
    let value: SqlArg;
    match sort_by {
        MyIssueSortBy::KeySeq => {
            match cursor.sort_int {
                Some(v) => {
                    col = "i.key_seq";
                    value = SqlArg::Int(v);
                },
                None => {
                    return Err("cursor is missing integer sort value");
                },
            }
        },
        MyIssueSortBy::CreatedAt | MyIssueSortBy::UpdatedAt => {
            match cursor.sort_timestamp {
                Some(v) => {
                    col = sort_by.as_sql();
                    value = SqlArg::Timestamp(v);
                },
                None => {
                    return Err("cursor is missing timestamp sort value");
                },
            }
        },
        _ => {
            match &cursor.sort_text {
                Some(v) => {
                    col = sort_by.as_sql();
                    value = SqlArg::Text(v.clone());
                },
                None => {
                    return Err("cursor is missing text sort value");
                },
            }
        },
    }
    let value2 = match &value {
        SqlArg::Text(s) => SqlArg::Text(s.clone()),
        SqlArg::Int(i) => SqlArg::Int(*i),
        SqlArg::BigInt(i) => SqlArg::BigInt(*i),
        SqlArg::Uuid(u) => SqlArg::Uuid(*u),
        SqlArg::Timestamp(t) => SqlArg::Timestamp(*t),
    };
    assert(value2@ == value@);
    q.push(" AND ((");
    q.push(col);
    q.push(" ");
    q.push(comparison);
    q.push(" ");
    q.push_bind(value);
    q.push(") OR (");
    q.push(col);
    q.push(" = ");
    q.push_bind(value2);
    q.push(" AND i.id ");
    q.push(comparison);
    q.push(" ");
    q.push_bind(SqlArg::Uuid(cursor.id));
    q.push("))");
    assert(q@ =~= q0 + after_cursor_pieces(cursor_column(sort_by), comparison_of(sort_dir), value@, cursor.id));
    Ok(())
}

/// Restricts `q` to the issues that `user_id` created (`filter_type` is
/// `created`) or, otherwise, to those assigned to `user_id`.
pub fn push_my_issues_user_filter(q: &mut SqlQuery, user_id: u128, filter_type: Option<&str>)
    ensures
        final(q)@ == old(q)@ + seq![
            text(
                if filter_type matches Some(f) && f@ == "created"@ {
                    "i.reporter_id = "
                } else {
                    "i.assignee_id = "
                },
            ),
            SqlPieceView::Bind(SqlArgView::Uuid(user_id)),
        ],
{
    let ghost q0 = q@;
    let created = match filter_type {
        Some(f) => str_eq(f, "created"),
        None => false,
    };
    if created {
        q.push("i.reporter_id = ");
    } else {
        q.push("i.assignee_id = ");
    }
    q.push_bind(SqlArg::Uuid(user_id));
    assert(q@ =~= q0 + seq![
        text(if created { "i.reporter_id = " } else { "i.assignee_id = " }),
        SqlPieceView::Bind(SqlArgView::Uuid(user_id)),
    ]);
}

} // verus!

verus! {

/// The comma-separated values of `s` (as `str::split(',')` yields them), each
/// trimmed of white space, the empty ones dropped.
#[verifier::opaque]
pub open spec fn list_values(s: Seq<char>) -> Seq<Seq<char>>
    decreases s.len(),
{
    match first_index_of(s, ',') {
        None => if trim(s).len() > 0 {
            seq![trim(s)]
        } else {
            Seq::empty()
        },
        Some(i) => {
            let head = if trim(s.subrange(0, i)).len() > 0 {
                seq![trim(s.subrange(0, i))]
            } else {
                Seq::<Seq<char>>::empty()
            };
            if 0 <= i < s.len() {
                head + list_values(s.subrange(i + 1, s.len() as int))
            } else {
                head
            }
        },
    }
}

/// The non-empty trimmed value of a segment, as a list of at most one value.
pub open spec fn trimmed_value(seg: Seq<char>) -> Seq<Seq<char>> {
    if trim(seg).len() > 0 {
        seq![trim(seg)]
    } else {
        Seq::empty()
    }
}

proof fn lemma_first_index_exists(s: Seq<char>, c: char, k: int)
    requires
        0 <= k < s.len(),
        s[k] == c,
    ensures
        exists|i: int| 0 <= i < s.len() && s[i] == c && forall|j: int| 0 <= j < i ==> s[j] != c,
    decreases k,
{
    if exists|j: int| 0 <= j < k && s[j] == c {
        let j = choose|j: int| 0 <= j < k && s[j] == c;
        lemma_first_index_exists(s, c, j);
    } else {
        assert(forall|j: int| 0 <= j < k ==> s[j] != c);
    }
}

/// `first_index_of` lies within the sequence when it exists.
proof fn lemma_first_index_in_range(s: Seq<char>, c: char)
    ensures
        first_index_of(s, c) matches Some(i) ==> 0 <= i < s.len() && s[i] == c,
{
    if exists|i: int| 0 <= i < s.len() && s[i] == c {
        let k = choose|i: int| 0 <= i < s.len() && s[i] == c;
        lemma_first_index_exists(s, c, k);
    }
}

proof fn lemma_list_values_unfold(s: Seq<char>)
    ensures
        match first_index_of(s, ',') {
            None => list_values(s) == trimmed_value(s),
            Some(i) => list_values(s) == trimmed_value(s.subrange(0, i)) + list_values(
                s.subrange(i + 1, s.len() as int),
            ),
        },
{
    lemma_first_index_in_range(s, ',');
    reveal(list_values);
}

fn push_trimmed(out: &mut Vec<String>, seg: &Vec<char>)
    ensures
        final(out)@.map_values(|x: String| x@) == old(out)@.map_values(|x: String| x@) + trimmed_value(seg@),
{
    let ghost old_out = out@.map_values(|x: String| x@);
    let (a, b) = trim_bounds(seg);
    if a < b {
        let piece = sub_vec(seg, a, b);
        out.push(string_from_chars(piece.as_slice()));
        assert(out@.map_values(|x: String| x@) =~= old_out.push(trim(seg@)));
        assert(old_out + seq![trim(seg@)] =~= old_out.push(trim(seg@)));
    } else {
        assert(out@.map_values(|x: String| x@) =~= old_out + Seq::<Seq<char>>::empty());
    }
}

fn sub_vec(v: &Vec<char>, from: usize, to: usize) -> (r: Vec<char>)
    requires
        from <= to <= v.len(),
    ensures
        r@ == v@.subrange(from as int, to as int),
{
    let mut r: Vec<char> = Vec::new();
    let mut i = from;
    while i < to
        invariant
            from <= i <= to <= v.len(),
            r@ == v@.subrange(from as int, i as int),
        decreases to - i,
    {
        r.push(v[i]);
        i = i + 1;
        assert(r@ =~= v@.subrange(from as int, i as int));
    }
    r
}

/// Splits a comma-separated filter value into its trimmed, non-empty values.
pub fn split_list(s: &str) -> (r: Vec<String>)
    ensures
        r@.map_values(|x: String| x@) == list_values(s@),
{
    let v = chars_of(s);
    let mut out: Vec<String> = Vec::new();
    let mut pos: usize = 0;
    assert(v@.subrange(0, v.len() as int) =~= v@);
    assert(out@.map_values(|x: String| x@) =~= Seq::<Seq<char>>::empty());
    loop
        invariant
            pos <= v.len(),
            v@ == s@,
            list_values(s@) == out@.map_values(|x: String| x@) + list_values(v@.subrange(pos as int, v.len() as int)),
        decreases v.len() - pos,
    {
        let rest = sub_vec(&v, pos, v.len());
        proof {
            lemma_list_values_unfold(rest@);
        }
        match find_char(&rest, ',') {
            None => {
                push_trimmed(&mut out, &rest);
                assert(list_values(s@) =~= out@.map_values(|x: String| x@));
                return out;
            },
            Some(i) => {
                let head = sub_vec(&rest, 0, i);
                let ghost before = out@.map_values(|x: String| x@);
                let ghost tail = list_values(rest@.subrange(i + 1, rest@.len() as int));
                push_trimmed(&mut out, &head);
                assert(rest@.subrange(i + 1, rest@.len() as int) =~= v@.subrange(pos + i + 1, v.len() as int));
                assert(list_values(rest@) == trimmed_value(head@) + tail);
                assert(before + (trimmed_value(head@) + tail) =~= (before + trimmed_value(head@)) + tail);
                pos = pos + i + 1;
            },
        }
    }
}

} // verus!

verus! {

/// The view of an optional string.
pub open spec fn opt_view(o: Option<String>) -> Option<Seq<char>> {
    match o {
        Some(s) => Some(s@),
        None => None,
    }
}

/// The bound values of an `IN (…)` list, separated by `, `.
pub open spec fn in_list_pieces(values: Seq<Seq<char>>) -> Seq<SqlPieceView>
    decreases values.len(),
{
    if values.len() == 0 {
        Seq::empty()
    } else if values.len() == 1 {
        seq![SqlPieceView::Bind(SqlArgView::Text(values[0]))]
    } else {
        in_list_pieces(values.drop_last()) + seq![
            SqlPieceView::Sql(", "@),
            SqlPieceView::Bind(SqlArgView::Text(values.last())),
        ]
    }
}

/// `prefix`, the `IN` list of `values`, and `)`; nothing when there are no values.
pub open spec fn in_filter_pieces(prefix: Seq<char>, values: Seq<Seq<char>>) -> Seq<SqlPieceView> {
    if values.len() == 0 {
        Seq::empty()
    } else {
        seq![SqlPieceView::Sql(prefix)] + in_list_pieces(values) + seq![SqlPieceView::Sql(")"@)]
    }
}

/// The filter on a comma-separated list, unless absent or excluded.
pub open spec fn list_filter_pieces(prefix: Seq<char>, list: Option<Seq<char>>, excluded: bool) -> Seq<SqlPieceView> {
    match list {
        Some(s) if !excluded => in_filter_pieces(prefix, list_values(s)),
        _ => Seq::empty(),
    }
}

/// The text search on title and description, unless the search is absent or blank.
pub open spec fn search_pieces(search: Option<Seq<char>>) -> Seq<SqlPieceView> {
    match search {
        Some(s) if !is_blank(s) => seq![
            SqlPieceView::Sql(" AND (i.title ILIKE '%' || "@),
            SqlPieceView::Bind(SqlArgView::Text(s)),
            SqlPieceView::Sql(" || '%' OR COALESCE(i.description, '') ILIKE '%' || "@),
            SqlPieceView::Bind(SqlArgView::Text(s)),
            SqlPieceView::Sql(" || '%')"@),
        ],
        _ => Seq::empty(),
    }
}

/// The issue is the target of a `blocks` relation.
pub const BLOCKED_SQL: &'static str = " AND EXISTS (SELECT 1 FROM issue_relations ir WHERE ir.target_issue_id = i.id AND ir.relation_type = 'blocks')";

/// The issue is the source of a `blocks` relation.
pub const BLOCKING_SQL: &'static str = " AND EXISTS (SELECT 1 FROM issue_relations ir WHERE ir.source_issue_id = i.id AND ir.relation_type = 'blocks')";

/// The issue is the target or the source of a `blocks` relation.
pub const BLOCKED_OR_BLOCKING_SQL: &'static str = " AND (EXISTS (SELECT 1 FROM issue_relations ir WHERE ir.target_issue_id = i.id AND ir.relation_type = 'blocks') OR EXISTS (SELECT 1 FROM issue_relations ir WHERE ir.source_issue_id = i.id AND ir.relation_type = 'blocks'))";

/// The relations filter: `blocked` keeps the issues that another issue blocks,
/// `blocking` those that block another issue, both together either kind; other
/// values are ignored.
pub open spec fn relations_pieces(relations: Option<Seq<char>>) -> Seq<SqlPieceView> {
    match relations {
        Some(s) => {
            let blocked = list_values(s).contains("blocked"@);
            let blocking = list_values(s).contains("blocking"@);
            if blocked && blocking {
                seq![SqlPieceView::Sql(BLOCKED_OR_BLOCKING_SQL@)]
            } else if blocked {
                seq![SqlPieceView::Sql(BLOCKED_SQL@)]
            } else if blocking {
                seq![SqlPieceView::Sql(BLOCKING_SQL@)]
            } else {
                Seq::empty()
            }
        },
        None => Seq::empty(),
    }
}

/// The organization filter: only issues of projects of the organization with this slug.
pub open spec fn org_pieces(org_slug: Option<Seq<char>>) -> Seq<SqlPieceView> {
    match org_slug {
        Some(s) => seq![
            SqlPieceView::Sql(" AND i.project_id IN (SELECT p.id FROM projects p JOIN organizations o ON o.id = p.org_id WHERE o.slug = "@),
            SqlPieceView::Bind(SqlArgView::Text(s)),
            SqlPieceView::Sql(")"@),
        ],
        None => Seq::empty(),
    }
}

/// The filters of the "my issues" list: status list, priority list, text search,
/// relations and organization; `exclude` leaves out the list of the facet being counted.
#[verifier::opaque]
pub open spec fn filters_pieces(query: ListMyIssuesQuery, exclude: Option<Seq<char>>) -> Seq<SqlPieceView> {
    list_search_pieces(query, exclude) + relations_pieces(opt_view(query.relations)) + org_pieces(opt_view(query.org_slug))
}

/// The status list, priority list and text search filters; `exclude` leaves out
/// the list of the facet being counted.
#[verifier::opaque]
pub open spec fn list_search_pieces(query: ListMyIssuesQuery, exclude: Option<Seq<char>>) -> Seq<SqlPieceView> {
    list_filter_pieces(" AND i.status IN ("@, opt_view(query.status), exclude == Some("status"@))
        + list_filter_pieces(" AND i.priority IN ("@, opt_view(query.priority), exclude == Some("priority"@))
        + search_pieces(opt_view(query.q))
}

/// Whether one of `values` is `w`.
fn has_value(values: &Vec<String>, w: &str) -> (r: bool)
    ensures
        r == values@.map_values(|x: String| x@).contains(w@),
{
    let ghost vs = values@.map_values(|x: String| x@);
    let mut i: usize = 0;
    while i < values.len()
        invariant
            i <= values.len(),
            vs == values@.map_values(|x: String| x@),
            forall|j: int| 0 <= j < i ==> vs[j] != w@,
        decreases values.len() - i,
    {
        if str_eq(values[i].as_str(), w) {
            assert(vs[i as int] == w@);
            return true;
        }
        i = i + 1;
    }
    false
}

/// Adds the relations filter of `relations` to `q`.
fn push_relations_filter(q: &mut SqlQuery, relations: &Option<String>)
    ensures
        final(q)@ == old(q)@ + relations_pieces(opt_view(*relations)),
{
    let ghost q0 = q@;
    match relations {
        Some(s) => {
            let values = split_list(s.as_str());
            let blocked = has_value(&values, "blocked");
            let blocking = has_value(&values, "blocking");
            proof {
                reveal_strlit("blocked");
                reveal_strlit("blocking");
            }
            if blocked && blocking {
                q.push(BLOCKED_OR_BLOCKING_SQL);
            } else if blocked {
                q.push(BLOCKED_SQL);
            } else if blocking {
                q.push(BLOCKING_SQL);
            }
            assert(q@ =~= q0 + relations_pieces(opt_view(*relations)));
        },
        None => {
            assert(q@ =~= q0 + relations_pieces(opt_view(*relations)));
        },
    }
}

/// Adds the organization filter of `org_slug` to `q`.
fn push_org_filter(q: &mut SqlQuery, org_slug: &Option<String>)
    ensures
        final(q)@ == old(q)@ + org_pieces(opt_view(*org_slug)),
{
    let ghost q0 = q@;
    if let Some(s) = org_slug {
        q.push(" AND i.project_id IN (SELECT p.id FROM projects p JOIN organizations o ON o.id = p.org_id WHERE o.slug = ");
        q.push_bind(SqlArg::Text(s.clone()));
        q.push(")");
    }
    assert(q@ =~= q0 + org_pieces(opt_view(*org_slug)));
}

fn push_in_filter(q: &mut SqlQuery, prefix: &'static str, values: &Vec<String>)
    ensures
        final(q)@ == old(q)@ + in_filter_pieces(prefix@, values@.map_values(|x: String| x@)),
{
    let ghost vs = values@.map_values(|x: String| x@);
    let ghost q0 = q@;
    if values.len() == 0 {
        assert(q@ =~= q0 + Seq::<SqlPieceView>::empty());
        return;
    }
    q.push(prefix);
    let mut i: usize = 0;
    while i < values.len()
        invariant
            0 < values.len(),
            i <= values.len(),
            vs == values@.map_values(|x: String| x@),
            i == 0 ==> q@ == q0 + seq![text(prefix)],
            i > 0 ==> q@ == q0 + seq![text(prefix)] + in_list_pieces(vs.take(i as int)),
        decreases values.len() - i,
    {
        let ghost before = q@;
        if i > 0 {
            q.push(", ");
        }
        q.push_bind(SqlArg::Text(values[i].clone()));
        proof {
            let t = vs.take(i + 1);
            assert(t.drop_last() =~= vs.take(i as int));
            assert(t.last() == values@[i as int]@);
            if i == 0 {
                assert(q@ =~= q0 + seq![text(prefix)] + in_list_pieces(t));
            } else {
                assert(q@ =~= q0 + seq![text(prefix)] + in_list_pieces(t));
            }
        }
        i = i + 1;
    }
    q.push(")");
    assert(vs.take(values.len() as int) =~= vs);
    assert(q@ =~= q0 + in_filter_pieces(prefix@, vs));
}

/// Adds the status, priority, search, relations and organization filters of `query` to `q`, leaving out
/// the list named by `exclude_facet`.
pub fn apply_my_issues_filters(q: &mut SqlQuery, query: &ListMyIssuesQuery, exclude_facet: Option<&str>)
    ensures
        final(q)@ == old(q)@ + filters_pieces(*query, opt_str_view(exclude_facet)),
{
    reveal(filters_pieces);
    let ghost q0 = q@;
    push_list_search_filters(q, query, exclude_facet);
    let ghost q1 = q@;
    push_relations_filter(q, &query.relations);
    let ghost q2 = q@;
    push_org_filter(q, &query.org_slug);
    proof {
        let a = list_search_pieces(*query, opt_str_view(exclude_facet));
        let d = relations_pieces(opt_view(query.relations));
        let e = org_pieces(opt_view(query.org_slug));
        assert(q@ =~= q0 + (a + d + e));
    }
}

fn push_list_search_filters(q: &mut SqlQuery, query: &ListMyIssuesQuery, exclude_facet: Option<&str>)
    ensures
        final(q)@ == old(q)@ + list_search_pieces(*query, opt_str_view(exclude_facet)),
{
    reveal(list_search_pieces);
    let ghost q0 = q@;
    let ex_status = match exclude_facet {
        Some(f) => str_eq(f, "status"),
        None => false,
    };
    let ex_priority = match exclude_facet {
        Some(f) => str_eq(f, "priority"),
        None => false,
    };
    if !ex_status {
        if let Some(s) = &query.status {
            let values = split_list(s.as_str());
            push_in_filter(q, " AND i.status IN (", &values);
        }
    }
    let ghost q1 = q@;
    assert(q1 == q0 + list_filter_pieces(" AND i.status IN ("@, opt_view(query.status), ex_status));
    if !ex_priority {
        if let Some(s) = &query.priority {
            let values = split_list(s.as_str());
            push_in_filter(q, " AND i.priority IN (", &values);
        }
    }
    let ghost q2 = q@;
    assert(q2 == q1 + list_filter_pieces(" AND i.priority IN ("@, opt_view(query.priority), ex_priority));
    if let Some(search) = &query.q {
        if !crate::text::blank(search.as_str()) {
            q.push(" AND (i.title ILIKE '%' || ");
            q.push_bind(SqlArg::Text(search.clone()));
            q.push(" || '%' OR COALESCE(i.description, '') ILIKE '%' || ");
            q.push_bind(SqlArg::Text(search.clone()));
            q.push(" || '%')");
        }
    }
    assert(q@ =~= q2 + search_pieces(opt_view(query.q)));
    assert(q@ =~= q0 + list_search_pieces(*query, opt_str_view(exclude_facet)));
}

/// The view of an optional string slice.
pub open spec fn opt_str_view(o: Option<&str>) -> Option<Seq<char>> {
    match o {
        Some(s) => Some(s@),
        None => None,
    }
}

} // verus!

verus! {

/// The user filter: issues the user reported (`filter_type` is `created`), else issues assigned to the user.
pub open spec fn user_filter_pieces(user_id: u128, filter_type: Option<Seq<char>>) -> Seq<SqlPieceView> {
    seq![
        SqlPieceView::Sql(
            if filter_type == Some("created"@) {
                "i.reporter_id = "@
            } else {
                "i.assignee_id = "@
            },
        ),
        SqlPieceView::Bind(SqlArgView::Uuid(user_id)),
    ]
}

proof fn lemma_user_filter(user_id: u128, filter_type: Option<&str>)
    ensures
        seq![
            text(
                if filter_type matches Some(f) && f@ == "created"@ {
                    "i.reporter_id = "
                } else {
                    "i.assignee_id = "
                },
            ),
            SqlPieceView::Bind(SqlArgView::Uuid(user_id)),
        ] == user_filter_pieces(user_id, opt_str_view(filter_type)),
{
}

/// The query that counts the issues of the "my issues" list.
pub open spec fn count_query_pieces(user_id: u128, query: ListMyIssuesQuery) -> Seq<SqlPieceView> {
    seq![SqlPieceView::Sql("SELECT COUNT(*) FROM issues i WHERE "@)] + user_filter_pieces(
        user_id,
        opt_view(query.filter_type),
    ) + filters_pieces(query, None)
}

/// Builds the query that counts the issues of the "my issues" list.
pub fn count_filtered_query(user_id: u128, query: &ListMyIssuesQuery) -> (q: SqlQuery)
    ensures
        q@ == count_query_pieces(user_id, *query),
{
    let mut q = SqlQuery::new("SELECT COUNT(*) FROM issues i WHERE ");
    let ft = match &query.filter_type {
        Some(f) => Some(f.as_str()),
        None => None,
    };
    proof {
        lemma_user_filter(user_id, ft);
        assert(opt_str_view(ft) == opt_view(query.filter_type));
    }
    push_my_issues_user_filter(&mut q, user_id, ft);
    apply_my_issues_filters(&mut q, query, None);
    q
}

/// Which facet a facet query counts.
#[derive(Debug, Clone, Copy, PartialEq, Eq, Structural)]
pub enum Facet {
    Status,
    Priority,
}

/// The query that counts the issues of the list per value of a facet, with the
/// filter on that facet left out.
pub open spec fn facet_query_pieces(user_id: u128, query: ListMyIssuesQuery, facet: Facet) -> Seq<SqlPieceView> {
    match facet {
        Facet::Status => seq![SqlPieceView::Sql("SELECT i.status as value, COUNT(*) as count FROM issues i WHERE "@)]
            + user_filter_pieces(user_id, opt_view(query.filter_type)) + filters_pieces(query, Some("status"@))
            + seq![SqlPieceView::Sql(" GROUP BY i.status"@)],
        Facet::Priority => seq![SqlPieceView::Sql("SELECT i.priority as value, COUNT(*) as count FROM issues i WHERE "@)]
            + user_filter_pieces(user_id, opt_view(query.filter_type)) + filters_pieces(query, Some("priority"@))
            + seq![SqlPieceView::Sql(" GROUP BY i.priority"@)],
    }
}

/// Builds the query that counts issues per value of a facet.
pub fn facet_query(user_id: u128, query: &ListMyIssuesQuery, facet: Facet) -> (q: SqlQuery)
    ensures
        q@ == facet_query_pieces(user_id, *query, facet),
{
    let ft = match &query.filter_type {
        Some(f) => Some(f.as_str()),
        None => None,
    };
    proof {
        lemma_user_filter(user_id, ft);
        assert(opt_str_view(ft) == opt_view(query.filter_type));
    }
    match facet {
        Facet::Status => {
            let mut q = SqlQuery::new("SELECT i.status as value, COUNT(*) as count FROM issues i WHERE ");
            push_my_issues_user_filter(&mut q, user_id, ft);
            apply_my_issues_filters(&mut q, query, Some("status"));
            q.push(" GROUP BY i.status");
            q
        },
        Facet::Priority => {
            let mut q = SqlQuery::new("SELECT i.priority as value, COUNT(*) as count FROM issues i WHERE ");
            push_my_issues_user_filter(&mut q, user_id, ft);
            apply_my_issues_filters(&mut q, query, Some("priority"));
            q.push(" GROUP BY i.priority");
            q
        },
    }
}

/// The sort and page suffix of the item query: order by the sort column then by
/// id, both in the sort direction; at most `limit_plus_one` rows; `OFFSET` only
/// without a cursor.
pub open spec fn order_pieces(
    sort_by: MyIssueSortBy,
    sort_dir: SortDirection,
    limit_plus_one: i64,
    offset: i64,
    has_cursor: bool,
) -> Seq<SqlPieceView> {
    let dir = match sort_dir {
        SortDirection::Asc => "ASC"@,
        SortDirection::Desc => "DESC"@,
    };
    seq![
        SqlPieceView::Sql(" ORDER BY "@), SqlPieceView::Sql(sort_column(sort_by)), SqlPieceView::Sql(" "@),
        SqlPieceView::Sql(dir), SqlPieceView::Sql(", i.id "@), SqlPieceView::Sql(dir),
        SqlPieceView::Sql(" LIMIT "@), SqlPieceView::Bind(SqlArgView::BigInt(limit_plus_one))
    ] + if has_cursor {
        Seq::empty()
    } else {
        seq![SqlPieceView::Sql(" OFFSET "@), SqlPieceView::Bind(SqlArgView::BigInt(offset))]
    }
}

/// The opening of the item query.
pub open spec fn items_select() -> Seq<char> {
    "SELECT i.id, p.project_key, i.key_seq, i.title, i.status, i.priority, i.created_at, i.updated_at FROM issues i JOIN projects p ON p.id = i.project_id WHERE "@
}

/// The query that fetches a page of the "my issues" list, or the message that
/// refuses the cursor.
pub open spec fn items_query_result(
    user_id: u128,
    query: ListMyIssuesQuery,
    sort_by: MyIssueSortBy,
    sort_dir: SortDirection,
    limit_plus_one: i64,
    offset: i64,
    cursor: Option<MyIssuesCursor>,
) -> Result<Seq<SqlPieceView>, &'static str> {
    let base = seq![SqlPieceView::Sql(items_select())] + user_filter_pieces(user_id, opt_view(query.filter_type))
        + filters_pieces(query, None);
    match cursor {
        None => Ok(base + order_pieces(sort_by, sort_dir, limit_plus_one, offset, false)),
        Some(c) => match cursor_value(sort_by, c) {
            None => Err(missing_cursor_message(sort_by)),
            Some(v) => Ok(base + after_cursor_pieces(cursor_column(sort_by), comparison_of(sort_dir), v, c.id)
                + order_pieces(sort_by, sort_dir, limit_plus_one, offset, true)),
        },
    }
}

/// Builds the query that fetches a page of the "my issues" list.
pub fn item_rows_query(
    user_id: u128,
    query: &ListMyIssuesQuery,
    sort_by: MyIssueSortBy,
    sort_dir: SortDirection,
    limit_plus_one: i64,
    offset: i64,
    cursor: Option<&MyIssuesCursor>,
) -> (r: Result<SqlQuery, &'static str>)
    ensures
        match items_query_result(user_id, *query, sort_by, sort_dir, limit_plus_one, offset,
            match cursor { Some(c) => Some(*c), None => None }) {
            Ok(p) => r matches Ok(q) && q@ == p,
            Err(m) => r == Err::<SqlQuery, &'static str>(m),
        },
{
    let mut q = SqlQuery::new(
        "SELECT i.id, p.project_key, i.key_seq, i.title, i.status, i.priority, i.created_at, i.updated_at FROM issues i JOIN projects p ON p.id = i.project_id WHERE ",
    );
    let ft = match &query.filter_type {
        Some(f) => Some(f.as_str()),
        None => None,
    };
    proof {
        lemma_user_filter(user_id, ft);
        assert(opt_str_view(ft) == opt_view(query.filter_type));
    }
    push_my_issues_user_filter(&mut q, user_id, ft);
    apply_my_issues_filters(&mut q, query, None);
    let ghost base = q@;
    let mut has_cursor = false;
    if let Some(c) = cursor {
        match apply_my_issues_cursor_filter(&mut q, sort_by, sort_dir, c) {
            Ok(()) => {
                has_cursor = true;
            },
            Err(m) => {
                return Err(m);
            },
        }
    }
    let ghost mid = q@;
    push_order(&mut q, sort_by, sort_dir, limit_plus_one, offset, has_cursor);
    Ok(q)
}

fn push_order(
    q: &mut SqlQuery,
    sort_by: MyIssueSortBy,
    sort_dir: SortDirection,
    limit_plus_one: i64,
    offset: i64,
    has_cursor: bool,
)
    ensures
        final(q)@ == old(q)@ + order_pieces(sort_by, sort_dir, limit_plus_one, offset, has_cursor),
{
    let ghost mid = q@;
    q.push(" ORDER BY ");
    q.push(sort_by.as_sql());
    q.push(" ");
    q.push(sort_dir.as_sql());
    q.push(", i.id ");
    q.push(sort_dir.as_sql());
    q.push(" LIMIT ");
    q.push_bind(SqlArg::BigInt(limit_plus_one));
    if !has_cursor {
        q.push(" OFFSET ");
        q.push_bind(SqlArg::BigInt(offset));
    }
    assert(q@ =~= mid + order_pieces(sort_by, sort_dir, limit_plus_one, offset, has_cursor));
}

} // verus!

verus! {

/// Two queries that ask for the same list except, perhaps, for the status list.
pub open spec fn same_but_status(a: ListMyIssuesQuery, b: ListMyIssuesQuery) -> bool {
    &&& a.limit == b.limit && a.offset == b.offset && a.cursor == b.cursor && a.q == b.q
    &&& a.priority == b.priority && a.sort_by == b.sort_by && a.sort_dir == b.sort_dir
    &&& a.filter_type == b.filter_type && a.relations == b.relations && a.org_slug == b.org_slug
}

/// Two queries that ask for the same list except, perhaps, for the priority list.
pub open spec fn same_but_priority(a: ListMyIssuesQuery, b: ListMyIssuesQuery) -> bool {
    &&& a.limit == b.limit && a.offset == b.offset && a.cursor == b.cursor && a.q == b.q
    &&& a.status == b.status && a.sort_by == b.sort_by && a.sort_dir == b.sort_dir
    &&& a.filter_type == b.filter_type && a.relations == b.relations && a.org_slug == b.org_slug
}

/// The counts of a facet ignore the list's own filter on that facet: queries that
/// differ only in their status list give the same status facet query, and queries
/// that differ only in their priority list give the same priority facet query.
pub proof fn lemma_facets_ignore_own_filter(user_id: u128, a: ListMyIssuesQuery, b: ListMyIssuesQuery)
    ensures
        same_but_status(a, b) ==> facet_query_pieces(user_id, a, Facet::Status) == facet_query_pieces(user_id, b, Facet::Status),
        same_but_priority(a, b) ==> facet_query_pieces(user_id, a, Facet::Priority) == facet_query_pieces(
            user_id,
            b,
            Facet::Priority,
        ),
{
    reveal(filters_pieces);
    reveal(list_search_pieces);
    reveal_strlit("status");
    reveal_strlit("priority");
    assert("status"@ != "priority"@) by {
        assert("status"@.len() != "priority"@.len());
    }
    if same_but_status(a, b) {
        assert(filters_pieces(a, Some("status"@)) =~= filters_pieces(b, Some("status"@)));
    }
    if same_but_priority(a, b) {
        assert(filters_pieces(a, Some("priority"@)) =~= filters_pieces(b, Some("priority"@)));
    }
}

/// The pieces hold a literal piece that ends with `clause`, directly followed by
/// the bound text `s`.
pub open spec fn binds_text_after(p: Seq<SqlPieceView>, clause: Seq<char>, s: Seq<char>) -> bool {
    exists|k: int|
        0 <= k && k + 1 < p.len() && (#[trigger] p[k] matches SqlPieceView::Sql(t) && ends_with(t, clause))
            && p[k + 1] == SqlPieceView::Bind(SqlArgView::Text(s))
}

proof fn lemma_binds_in_context(x: Seq<SqlPieceView>, a: Seq<SqlPieceView>, y: Seq<SqlPieceView>, clause: Seq<char>, s: Seq<char>)
    requires
        binds_text_after(a, clause, s),
    ensures
        binds_text_after(x + a + y, clause, s),
{
    let k = choose|k: int|
        0 <= k && k + 1 < a.len() && (#[trigger] a[k] matches SqlPieceView::Sql(t) && ends_with(t, clause))
            && a[k + 1] == SqlPieceView::Bind(SqlArgView::Text(s));
    let p = x + a + y;
    assert(p[x.len() + k] == a[k]);
    assert(p[x.len() + k + 1] == a[k + 1]);
}

/// The title clause of the text search.
pub open spec fn title_search_clause() -> Seq<char> {
    "(i.title ILIKE '%' || "@
}

/// The description clause of the text search, alternative to the title one.
pub open spec fn description_search_clause() -> Seq<char> {
    " OR COALESCE(i.description, '') ILIKE '%' || "@
}

proof fn lemma_search_in_filters(query: ListMyIssuesQuery, exclude: Option<Seq<char>>, s: Seq<char>)
    requires
        query.q matches Some(t) && t@ == s,
        !is_blank(s),
    ensures
        binds_text_after(filters_pieces(query, exclude), title_search_clause(), s),
        binds_text_after(filters_pieces(query, exclude), description_search_clause(), s),
{
    reveal(filters_pieces);
    reveal(list_search_pieces);
    reveal_strlit(" AND (i.title ILIKE '%' || ");
    reveal_strlit("(i.title ILIKE '%' || ");
    reveal_strlit(" || '%' OR COALESCE(i.description, '') ILIKE '%' || ");
    reveal_strlit(" OR COALESCE(i.description, '') ILIKE '%' || ");
    let sp = search_pieces(opt_view(query.q));
    let t1 = " AND (i.title ILIKE '%' || "@;
    let t2 = " || '%' OR COALESCE(i.description, '') ILIKE '%' || "@;
    assert(t1.subrange(t1.len() - title_search_clause().len(), t1.len() as int) =~= title_search_clause());
    assert(t2.subrange(t2.len() - description_search_clause().len(), t2.len() as int) =~= description_search_clause());
    assert(sp[0] == SqlPieceView::Sql(t1));
    assert(binds_text_after(sp, title_search_clause(), s)) by {
        assert(sp[0] matches SqlPieceView::Sql(t) && ends_with(t, title_search_clause()));
    }
    assert(binds_text_after(sp, description_search_clause(), s)) by {
        assert(sp[2] matches SqlPieceView::Sql(t) && ends_with(t, description_search_clause()));
    }
    let a = list_filter_pieces(" AND i.status IN ("@, opt_view(query.status), exclude == Some("status"@))
        + list_filter_pieces(" AND i.priority IN ("@, opt_view(query.priority), exclude == Some("priority"@));
    let y = relations_pieces(opt_view(query.relations)) + org_pieces(opt_view(query.org_slug));
    lemma_binds_in_context(a, sp, y, title_search_clause(), s);
    lemma_binds_in_context(a, sp, y, description_search_clause(), s);
    assert(filters_pieces(query, exclude) =~= a + sp + y);
}

/// A non-blank text search reaches every query of the list: the count, both facet
/// counts and the page of items each test the search text against the title
/// and, as an alternative, against the description.
pub proof fn lemma_search_covers_title_and_description(
    user_id: u128,
    query: ListMyIssuesQuery,
    s: Seq<char>,
    sort_by: MyIssueSortBy,
    sort_dir: SortDirection,
    limit_plus_one: i64,
    offset: i64,
    cursor: Option<MyIssuesCursor>,
)
    requires
        query.q matches Some(t) && t@ == s,
        !is_blank(s),
    ensures
        binds_text_after(count_query_pieces(user_id, query), title_search_clause(), s),
        binds_text_after(count_query_pieces(user_id, query), description_search_clause(), s),
        binds_text_after(facet_query_pieces(user_id, query, Facet::Status), title_search_clause(), s),
        binds_text_after(facet_query_pieces(user_id, query, Facet::Status), description_search_clause(), s),
        binds_text_after(facet_query_pieces(user_id, query, Facet::Priority), title_search_clause(), s),
        binds_text_after(facet_query_pieces(user_id, query, Facet::Priority), description_search_clause(), s),
        items_query_result(user_id, query, sort_by, sort_dir, limit_plus_one, offset, cursor) matches Ok(p) ==> {
            &&& binds_text_after(p, title_search_clause(), s)
            &&& binds_text_after(p, description_search_clause(), s)
        },
{
    let uf = user_filter_pieces(user_id, opt_view(query.filter_type));
    let none = Seq::<SqlPieceView>::empty();
    lemma_search_in_filters(query, None, s);
    lemma_search_in_filters(query, Some("status"@), s);
    lemma_search_in_filters(query, Some("priority"@), s);
    let clauses = seq![title_search_clause(), description_search_clause()];
    assert forall|c: int| 0 <= c < 2 implies binds_text_after(count_query_pieces(user_id, query), #[trigger] clauses[c], s) by {
        let f = filters_pieces(query, None);
        lemma_binds_in_context(seq![SqlPieceView::Sql("SELECT COUNT(*) FROM issues i WHERE "@)] + uf, f, none, clauses[c], s);
        assert(seq![SqlPieceView::Sql("SELECT COUNT(*) FROM issues i WHERE "@)] + uf + f + none =~= count_query_pieces(user_id, query));
    }
    assert(binds_text_after(count_query_pieces(user_id, query), clauses[0], s));
    assert(binds_text_after(count_query_pieces(user_id, query), clauses[1], s));
    assert forall|c: int| 0 <= c < 2 implies binds_text_after(facet_query_pieces(user_id, query, Facet::Status), #[trigger] clauses[c], s) by {
        let f = filters_pieces(query, Some("status"@));
        let head = seq![SqlPieceView::Sql("SELECT i.status as value, COUNT(*) as count FROM issues i WHERE "@)] + uf;
        let tail = seq![SqlPieceView::Sql(" GROUP BY i.status"@)];
        lemma_binds_in_context(head, f, tail, clauses[c], s);
        assert(head + f + tail =~= facet_query_pieces(user_id, query, Facet::Status));
    }
    assert(binds_text_after(facet_query_pieces(user_id, query, Facet::Status), clauses[0], s));
    assert(binds_text_after(facet_query_pieces(user_id, query, Facet::Status), clauses[1], s));
    assert forall|c: int| 0 <= c < 2 implies binds_text_after(facet_query_pieces(user_id, query, Facet::Priority), #[trigger] clauses[c], s) by {
        let f = filters_pieces(query, Some("priority"@));
        let head = seq![SqlPieceView::Sql("SELECT i.priority as value, COUNT(*) as count FROM issues i WHERE "@)] + uf;
        let tail = seq![SqlPieceView::Sql(" GROUP BY i.priority"@)];
        lemma_binds_in_context(head, f, tail, clauses[c], s);
        assert(head + f + tail =~= facet_query_pieces(user_id, query, Facet::Priority));
    }
    assert(binds_text_after(facet_query_pieces(user_id, query, Facet::Priority), clauses[0], s));
    assert(binds_text_after(facet_query_pieces(user_id, query, Facet::Priority), clauses[1], s));
    if let Ok(p) = items_query_result(user_id, query, sort_by, sort_dir, limit_plus_one, offset, cursor) {
        let head = seq![SqlPieceView::Sql(items_select())] + uf;
        let f = filters_pieces(query, None);
        let tail = p.subrange((head + f).len() as int, p.len() as int);
        assert(p =~= head + f + tail);
        lemma_binds_in_context(head, f, tail, clauses[0], s);
        lemma_binds_in_context(head, f, tail, clauses[1], s);
    }
}

/// Whether the comparison piece `op` holds between `a` and `b`.
pub open spec fn comparison_holds(op: SqlPieceView, a: int, b: int) -> bool {
    if op == SqlPieceView::Sql(">"@) {
        a > b
    } else if op == SqlPieceView::Sql("<"@) {
        a < b
    } else {
        false
    }
}

/// The row with sort value `a` and id `aid` comes strictly after the row with
/// sort value `v` and id `id` when rows are ordered by sort value and then by
/// id, both in the direction `dir`.
pub open spec fn comes_after(dir: SortDirection, a: int, aid: int, v: int, id: int) -> bool {
    match dir {
        SortDirection::Asc => a > v || (a == v && aid > id),
        SortDirection::Desc => a < v || (a == v && aid < id),
    }
}

/// Past a cursor, the list continues its own order. The cursor filter compares
/// the sort column with the cursor's value, and on a tie of that same value the
/// id with the cursor's id; read with those two comparisons, it keeps exactly the
/// rows that come after the cursor row when ordered by sort value then id in the
/// sort direction, which is the order the items query asks for.
pub proof fn lemma_cursor_continues_order(sort_by: MyIssueSortBy, sort_dir: SortDirection, v: SqlArgView, id: u128, limit_plus_one: i64, offset: i64)
    ensures
        ({
            let p = after_cursor_pieces(cursor_column(sort_by), comparison_of(sort_dir), v, id);
            &&& p.len() == 15
            &&& p[1] == SqlPieceView::Sql(sort_column(sort_by)) && p[5] == SqlPieceView::Bind(v)
            &&& p[7] == SqlPieceView::Sql(sort_column(sort_by)) && p[8] == SqlPieceView::Sql(" = "@)
            &&& p[9] == SqlPieceView::Bind(v)
            &&& p[10] == SqlPieceView::Sql(" AND i.id "@) && p[13] == SqlPieceView::Bind(SqlArgView::Uuid(id))
            &&& forall|a: int, aid: int, cv: int, cid: int|
                #![trigger comes_after(sort_dir, a, aid, cv, cid)]
                comes_after(sort_dir, a, aid, cv, cid) <==> (comparison_holds(p[3], a, cv) || (a == cv
                    && comparison_holds(p[11], aid, cid)))
        }),
        ({
            let o = order_pieces(sort_by, sort_dir, limit_plus_one, offset, true);
            let d = match sort_dir {
                SortDirection::Asc => "ASC"@,
                SortDirection::Desc => "DESC"@,
            };
            &&& o[1] == SqlPieceView::Sql(sort_column(sort_by)) && o[3] == SqlPieceView::Sql(d)
            &&& o[4] == SqlPieceView::Sql(", i.id "@) && o[5] == SqlPieceView::Sql(d)
        }),
{
    reveal_strlit(">");
    reveal_strlit("<");
    assert(">"@ != "<"@) by {
        assert(">"@[0] != "<"@[0]);
    }
    assert(SqlPieceView::Sql(">"@) != SqlPieceView::Sql("<"@));
}

} // verus!
