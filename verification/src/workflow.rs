use vstd::prelude::*;
use crate::text::str_eq;

verus! {

/// A workflow status of a project, as stored.
pub struct WorkflowStatusRow {
    pub id: u128,
    pub project_id: u128,
    pub category: String,
    pub name: String,
    pub slug: String,
    pub position: i32,
    pub is_default: bool,
    /// Microseconds since the Unix epoch.
    pub created_at: i64,
}

/// A workflow status, as shown.
pub struct WorkflowStatusItem {
    pub id: u128,
    pub category: String,
    pub name: String,
    pub slug: String,
    pub position: i32,
    pub is_default: bool,
}

/// The statuses of one category.
pub struct WorkflowStatusesByCategory {
    pub category: String,
    pub statuses: Vec<WorkflowStatusItem>,
}

/// A project's workflow statuses, grouped by category.
pub struct ListWorkflowStatusesResponse {
    pub groups: Vec<WorkflowStatusesByCategory>,
}

/// The workflow categories, in board order.
pub open spec fn workflow_categories() -> Seq<Seq<char>> {
    seq!["backlog"@, "unstarted"@, "started"@, "completed"@, "canceled"@]
}

/// The workflow categories, in board order.
pub fn workflow_category(k: usize) -> (r: &'static str)
    requires
        k < 5,
    ensures
        r@ == workflow_categories()[k as int],
{
    if k == 0 {
        "backlog"
    } else if k == 1 {
        "unstarted"
    } else if k == 2 {
        "started"
    } else if k == 3 {
        "completed"
    } else {
        "canceled"
    }
}

/// Whether a text names a workflow category.
pub fn is_workflow_category(c: &str) -> (r: bool)
    ensures
        r == workflow_categories().contains(c@),
{
    let mut k: usize = 0;
    while k < 5
        invariant
            k <= 5,
            forall|j: int| 0 <= j < k ==> workflow_categories()[j] != c@,
        decreases 5 - k,
    {
        if str_eq(workflow_category(k), c) {
            assert(workflow_categories()[k as int] == c@);
            return true;
        }
        k = k + 1;
    }
    false
}

/// The statuses that every new project starts with: category, name, slug,
/// position, and whether it is the default.
pub open spec fn default_seed() -> Seq<(Seq<char>, Seq<char>, Seq<char>, i32, bool)> {
    seq![
        ("backlog"@, "Backlog"@, "backlog"@, 0i32, true),
        ("unstarted"@, "Todo"@, "todo"@, 1i32, false),
        ("started"@, "In Progress"@, "in_progress"@, 2i32, false),
        ("completed"@, "Done"@, "done"@, 3i32, false),
        ("canceled"@, "Canceled"@, "canceled"@, 4i32, false),
    ]
}

/// The `k`th status that every new project starts with.
pub fn default_seed_entry(k: usize) -> (r: (&'static str, &'static str, &'static str, i32, bool))
    requires
        k < 5,
    ensures
        (r.0@, r.1@, r.2@, r.3, r.4) == default_seed()[k as int],
{
    if k == 0 {
        ("backlog", "Backlog", "backlog", 0, true)
    } else if k == 1 {
        ("unstarted", "Todo", "todo", 1, false)
    } else if k == 2 {
        ("started", "In Progress", "in_progress", 2, false)
    } else if k == 3 {
        ("completed", "Done", "done", 3, false)
    } else {
        ("canceled", "Canceled", "canceled", 4, false)
    }
}

/// `item` shows `row`.
pub open spec fn status_item_shows(item: WorkflowStatusItem, row: WorkflowStatusRow) -> bool {
    &&& item.id == row.id
    &&& item.category == row.category
    &&& item.name == row.name
    &&& item.slug == row.slug
    &&& item.position == row.position
    &&& item.is_default == row.is_default
}

/// The item that shows a workflow status row.
pub fn status_item(row: &WorkflowStatusRow) -> (item: WorkflowStatusItem)
    ensures
        status_item_shows(item, *row),
{
    WorkflowStatusItem {
        id: row.id,
        category: row.category.clone(),
        name: row.name.clone(),
        slug: row.slug.clone(),
        position: row.position,
        is_default: row.is_default,
    }
}

/// The rows of one category, in order.
pub open spec fn rows_in_category(rows: Seq<WorkflowStatusRow>, c: Seq<char>) -> Seq<WorkflowStatusRow> {
    rows.filter(|r: WorkflowStatusRow| r.category@ == c)
}

/// `items` show `rows`, in order.
pub open spec fn status_items_show(items: Seq<WorkflowStatusItem>, rows: Seq<WorkflowStatusRow>) -> bool {
    &&& items.len() == rows.len()
    &&& forall|i: int| 0 <= i < rows.len() ==> status_item_shows(#[trigger] items[i], rows[i])
}

/// `groups` are the five categories in order, each with the rows of that
/// category in their order; rows of any other category are left out.
pub open spec fn grouped(groups: Seq<WorkflowStatusesByCategory>, rows: Seq<WorkflowStatusRow>) -> bool {
    &&& groups.len() == 5
    &&& forall|k: int| 0 <= k < 5 ==> (#[trigger] groups[k]).category@ == workflow_categories()[k]
        && status_items_show(groups[k].statuses@, rows_in_category(rows, workflow_categories()[k]))
}

fn statuses_in_category(rows: &Vec<WorkflowStatusRow>, c: &str) -> (items: Vec<WorkflowStatusItem>)
    ensures
        status_items_show(items@, rows_in_category(rows@, c@)),
{
    let ghost pred = |r: WorkflowStatusRow| r.category@ == c@;
    let mut items: Vec<WorkflowStatusItem> = Vec::new();
    let mut i: usize = 0;
    while i < rows.len()
        invariant
            i <= rows.len(),
            pred == (|r: WorkflowStatusRow| r.category@ == c@),
            status_items_show(items@, rows@.take(i as int).filter(pred)),
        decreases rows.len() - i,
    {
        proof {
            rows@.take(i as int).lemma_filter_push(rows@[i as int], pred);
            assert(rows@.take(i + 1) =~= rows@.take(i as int).push(rows@[i as int]));
        }
        if str_eq(rows[i].category.as_str(), c) {
            items.push(status_item(&rows[i]));
        }
        i = i + 1;
    }
    assert(rows@.take(rows.len() as int) =~= rows@);
    items
}

/// Groups a project's workflow statuses (already in board order) by category.
pub fn group_workflow_statuses(rows: &Vec<WorkflowStatusRow>) -> (r: ListWorkflowStatusesResponse)
    ensures
        grouped(r.groups@, rows@),
{
    let mut groups: Vec<WorkflowStatusesByCategory> = Vec::new();
    let mut k: usize = 0;
    while k < 5
        invariant
            k <= 5,
            groups@.len() == k,
            forall|j: int| 0 <= j < k ==> (#[trigger] groups@[j]).category@ == workflow_categories()[j]
                && status_items_show(groups@[j].statuses@, rows_in_category(rows@, workflow_categories()[j])),
        decreases 5 - k,
    {
        let c = workflow_category(k);
        let statuses = statuses_in_category(rows, c);
        groups.push(WorkflowStatusesByCategory { category: c.to_string(), statuses });
        k = k + 1;
    }
    ListWorkflowStatusesResponse { groups }
}

} // verus!
