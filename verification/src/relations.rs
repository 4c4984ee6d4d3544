use vstd::prelude::*;
use crate::issue_key::{display_key, display_key_of};
use crate::text::str_eq;

verus! {

/// The kinds of relation between two issues.
pub open spec fn relation_types() -> Seq<Seq<char>> {
    seq!["blocks"@, "relates_to"@, "duplicate"@]
}

/// Is `t` one of the kinds of relation?
pub fn is_relation_type(t: &str) -> (r: bool)
    ensures
        r == relation_types().contains(t@),
{
    let r = str_eq(t, "blocks") || str_eq(t, "relates_to") || str_eq(t, "duplicate");
    proof {
        reveal_strlit("blocks");
        reveal_strlit("relates_to");
        reveal_strlit("duplicate");
        if relation_types().contains(t@) {
            let k = choose|k: int| 0 <= k < 3 && relation_types()[k] == t@;
            assert(k == 0 || k == 1 || k == 2);
        }
        if r {
            if t@ == "blocks"@ {
                assert(relation_types()[0] == t@);
            } else if t@ == "relates_to"@ {
                assert(relation_types()[1] == t@);
            } else {
                assert(relation_types()[2] == t@);
            }
        }
    }
    r
}

/// The request to relate an issue to another one.
pub struct CreateRelationRequest {
    pub relation_type: String,
    pub target_issue_key: String,
}

/// The relation made.
pub struct CreateRelationResponse {
    pub relation_id: u128,
}

/// A related issue, as shown.
pub struct RelationItem {
    pub relation_id: u128,
    pub issue_key: String,
    pub title: String,
}

/// The relations of an issue, by how they read from it.
pub struct GetRelationsResponse {
    pub blocking: Vec<RelationItem>,
    pub blocked_by: Vec<RelationItem>,
    pub related: Vec<RelationItem>,
    pub duplicates: Vec<RelationItem>,
    pub duplicated_by: Vec<RelationItem>,
}

/// A relation of an issue with the issue at its other end, as stored.
pub struct RelationEdgeRow {
    pub relation_id: u128,
    pub relation_type: String,
    pub other_project_key: String,
    pub other_key_seq: i32,
    pub other_title: String,
}

/// A stored relation: where it starts and its kind.
pub struct RelationRecord {
    pub source_issue_id: u128,
    pub relation_type: String,
}

/// What a shown relation says: its id, the other issue's key and title.
pub open spec fn item_view(i: RelationItem) -> (u128, Seq<char>, Seq<char>) {
    (i.relation_id, i.issue_key@, i.title@)
}

/// What a stored relation is shown as.
pub open spec fn edge_view(r: RelationEdgeRow) -> (u128, Seq<char>, Seq<char>) {
    (r.relation_id, display_key_of(r.other_project_key@, r.other_key_seq as int), r.other_title@)
}

/// The relations of kind `t` among `rows`, in order, as shown.
pub open spec fn edges_of_type(rows: Seq<RelationEdgeRow>, t: Seq<char>) -> Seq<(u128, Seq<char>, Seq<char>)>
    decreases rows.len(),
{
    if rows.len() == 0 {
        Seq::empty()
    } else {
        let prev = edges_of_type(rows.drop_last(), t);
        if rows.last().relation_type@ == t {
            prev.push(edge_view(rows.last()))
        } else {
            prev
        }
    }
}

/// The relations of an issue, from those that start at it and those that end at it:
/// outgoing `blocks`, `relates_to` and `duplicate` read as blocking, related and
/// duplicates; incoming `blocks` and `duplicate` as blocked by and duplicated by;
/// incoming `relates_to` as related too, after the outgoing ones.
pub open spec fn relations_of(
    r: GetRelationsResponse,
    outgoing: Seq<RelationEdgeRow>,
    incoming: Seq<RelationEdgeRow>,
) -> bool {
    &&& r.blocking@.map_values(|i: RelationItem| item_view(i)) == edges_of_type(outgoing, "blocks"@)
    &&& r.related@.map_values(|i: RelationItem| item_view(i)) == edges_of_type(outgoing, "relates_to"@)
        + edges_of_type(incoming, "relates_to"@)
    &&& r.duplicates@.map_values(|i: RelationItem| item_view(i)) == edges_of_type(outgoing, "duplicate"@)
    &&& r.blocked_by@.map_values(|i: RelationItem| item_view(i)) == edges_of_type(incoming, "blocks"@)
    &&& r.duplicated_by@.map_values(|i: RelationItem| item_view(i)) == edges_of_type(incoming, "duplicate"@)
}

fn relation_item(r: &RelationEdgeRow) -> (i: RelationItem)
    ensures
        item_view(i) == edge_view(*r),
{
    RelationItem {
        relation_id: r.relation_id,
        issue_key: display_key(r.other_project_key.as_str(), r.other_key_seq),
        title: r.other_title.clone(),
    }
}

/// Appends to the three lists the relations of `rows` of the three kinds given.
fn sort_edges(
    rows: &Vec<RelationEdgeRow>,
    t0: &str,
    out0: &mut Vec<RelationItem>,
    t1: &str,
    out1: &mut Vec<RelationItem>,
    t2: &str,
    out2: &mut Vec<RelationItem>,
)
    requires
        t0@ != t1@ && t0@ != t2@ && t1@ != t2@,
    ensures
        final(out0)@.map_values(|i: RelationItem| item_view(i)) == old(out0)@.map_values(|i: RelationItem| item_view(i))
            + edges_of_type(rows@, t0@),
        final(out1)@.map_values(|i: RelationItem| item_view(i)) == old(out1)@.map_values(|i: RelationItem| item_view(i))
            + edges_of_type(rows@, t1@),
        final(out2)@.map_values(|i: RelationItem| item_view(i)) == old(out2)@.map_values(|i: RelationItem| item_view(i))
            + edges_of_type(rows@, t2@),
{
    let ghost s0 = old(out0)@.map_values(|i: RelationItem| item_view(i));
    let ghost s1 = old(out1)@.map_values(|i: RelationItem| item_view(i));
    let ghost s2 = old(out2)@.map_values(|i: RelationItem| item_view(i));
    let mut k: usize = 0;
    while k < rows.len()
        invariant
            k <= rows.len(),
            t0@ != t1@ && t0@ != t2@ && t1@ != t2@,
            out0@.map_values(|i: RelationItem| item_view(i)) == s0 + edges_of_type(rows@.subrange(0, k as int), t0@),
            out1@.map_values(|i: RelationItem| item_view(i)) == s1 + edges_of_type(rows@.subrange(0, k as int), t1@),
            out2@.map_values(|i: RelationItem| item_view(i)) == s2 + edges_of_type(rows@.subrange(0, k as int), t2@),
        decreases rows.len() - k,
    {
        let r = &rows[k];
        let ghost pre = rows@.subrange(0, k as int);
        let ghost next = rows@.subrange(0, k + 1);
        assert(next.drop_last() =~= pre);
        assert(next.last() == *r);
        if str_eq(r.relation_type.as_str(), t0) {
            let ghost before = out0@;
            out0.push(relation_item(r));
            assert(out0@.map_values(|i: RelationItem| item_view(i)) =~= before.map_values(|i: RelationItem| item_view(i)).push(
                edge_view(*r),
            ));
        } else if str_eq(r.relation_type.as_str(), t1) {
            let ghost before = out1@;
            out1.push(relation_item(r));
            assert(out1@.map_values(|i: RelationItem| item_view(i)) =~= before.map_values(|i: RelationItem| item_view(i)).push(
                edge_view(*r),
            ));
        } else if str_eq(r.relation_type.as_str(), t2) {
            let ghost before = out2@;
            out2.push(relation_item(r));
            assert(out2@.map_values(|i: RelationItem| item_view(i)) =~= before.map_values(|i: RelationItem| item_view(i)).push(
                edge_view(*r),
            ));
        }
        k = k + 1;
    }
    assert(rows@.subrange(0, rows.len() as int) =~= rows@);
}

/// Sorts the relations that start at an issue and those that end at it into the
/// lists that the issue's page shows.
pub fn build_relations(outgoing: &Vec<RelationEdgeRow>, incoming: &Vec<RelationEdgeRow>) -> (r: GetRelationsResponse)
    ensures
        relations_of(r, outgoing@, incoming@),
{
    let mut blocking: Vec<RelationItem> = Vec::new();
    let mut related: Vec<RelationItem> = Vec::new();
    let mut duplicates: Vec<RelationItem> = Vec::new();
    let mut blocked_by: Vec<RelationItem> = Vec::new();
    let mut duplicated_by: Vec<RelationItem> = Vec::new();
    proof {
        reveal_strlit("blocks");
        reveal_strlit("relates_to");
        reveal_strlit("duplicate");
        assert("blocks"@.len() == 6 && "relates_to"@.len() == 10 && "duplicate"@.len() == 9);
    }
    assert(blocking@.map_values(|i: RelationItem| item_view(i)) =~= Seq::empty());
    assert(related@.map_values(|i: RelationItem| item_view(i)) =~= Seq::empty());
    assert(duplicates@.map_values(|i: RelationItem| item_view(i)) =~= Seq::empty());
    assert(blocked_by@.map_values(|i: RelationItem| item_view(i)) =~= Seq::empty());
    assert(duplicated_by@.map_values(|i: RelationItem| item_view(i)) =~= Seq::empty());
    sort_edges(outgoing, "blocks", &mut blocking, "relates_to", &mut related, "duplicate", &mut duplicates);
    sort_edges(incoming, "blocks", &mut blocked_by, "duplicate", &mut duplicated_by, "relates_to", &mut related);
    proof {
        assert(Seq::<(u128, Seq<char>, Seq<char>)>::empty() + edges_of_type(outgoing@, "blocks"@) =~= edges_of_type(
            outgoing@,
            "blocks"@,
        ));
        assert(Seq::<(u128, Seq<char>, Seq<char>)>::empty() + edges_of_type(outgoing@, "relates_to"@) =~= edges_of_type(
            outgoing@,
            "relates_to"@,
        ));
        assert(Seq::<(u128, Seq<char>, Seq<char>)>::empty() + edges_of_type(outgoing@, "duplicate"@) =~= edges_of_type(
            outgoing@,
            "duplicate"@,
        ));
        assert(Seq::<(u128, Seq<char>, Seq<char>)>::empty() + edges_of_type(incoming@, "blocks"@) =~= edges_of_type(
            incoming@,
            "blocks"@,
        ));
        assert(Seq::<(u128, Seq<char>, Seq<char>)>::empty() + edges_of_type(incoming@, "duplicate"@) =~= edges_of_type(
            incoming@,
            "duplicate"@,
        ));
    }
    GetRelationsResponse { blocking, blocked_by, related, duplicates, duplicated_by }
}

} // verus!
