use koro_api::error::AppError;
use koro_api::my_issues::{count_filtered_query, facet_query, Facet, ListMyIssuesQuery, BLOCKED_OR_BLOCKING_SQL, BLOCKED_SQL, BLOCKING_SQL};
use koro_api::my_issues_flow::{facet_counts, FacetCount, ListMyIssuesAction, ListMyIssuesEvent, ListMyIssuesFlow};
use koro_api::sql::{SqlArg, SqlPiece, SqlQuery};

fn query(relations: Option<&str>, org_slug: Option<&str>) -> ListMyIssuesQuery {
    ListMyIssuesQuery {
        limit: None,
        offset: None,
        cursor: None,
        q: None,
        status: None,
        priority: None,
        sort_by: None,
        sort_dir: None,
        filter_type: None,
        relations: relations.map(|s| s.to_string()),
        org_slug: org_slug.map(|s| s.to_string()),
    }
}

fn has_sql(q: &SqlQuery, text: &str) -> bool {
    q.pieces.iter().any(|p| matches!(p, SqlPiece::Sql(s) if *s == text))
}

fn binds_text(q: &SqlQuery, text: &str) -> bool {
    q.pieces.iter().any(|p| matches!(p, SqlPiece::Bind(SqlArg::Text(s)) if s == text))
}

#[test]
fn relations_filter_reaches_count_and_facets() {
    let q = count_filtered_query(5, &query(Some("blocked"), None));
    assert!(has_sql(&q, BLOCKED_SQL));
    assert!(!has_sql(&q, BLOCKING_SQL));
    let q = count_filtered_query(5, &query(Some(" blocking "), None));
    assert!(has_sql(&q, BLOCKING_SQL));
    assert!(!has_sql(&q, BLOCKED_SQL));
    let q = count_filtered_query(5, &query(Some("blocking,blocked"), None));
    assert!(has_sql(&q, BLOCKED_OR_BLOCKING_SQL));
    let q = count_filtered_query(5, &query(Some("other"), None));
    assert!(!has_sql(&q, BLOCKED_SQL) && !has_sql(&q, BLOCKING_SQL) && !has_sql(&q, BLOCKED_OR_BLOCKING_SQL));
    let q = facet_query(5, &query(Some("blocked"), None), Facet::Status);
    assert!(has_sql(&q, BLOCKED_SQL));
    let q = facet_query(5, &query(Some("blocked"), None), Facet::Priority);
    assert!(has_sql(&q, BLOCKED_SQL));
}

#[test]
fn org_filter_reaches_the_queries() {
    let q = count_filtered_query(5, &query(None, Some("acme")));
    assert!(binds_text(&q, "acme"));
    let q = count_filtered_query(5, &query(None, None));
    assert!(!binds_text(&q, "acme"));
    let q = facet_query(5, &query(None, Some("acme")), Facet::Priority);
    assert!(binds_text(&q, "acme"));
}

#[test]
fn org_filter_needs_membership() {
    let (mut f, a) = ListMyIssuesFlow::start(5, query(None, Some("acme")));
    assert!(matches!(a, ListMyIssuesAction::FindOrg { ref org_slug } if org_slug == "acme"));
    assert!(matches!(f.step(ListMyIssuesEvent::OrgFound(Some(Some(7)))), ListMyIssuesAction::CheckOrgMember { org_id: 7, user_id: 5 }));
    assert!(matches!(f.step(ListMyIssuesEvent::OrgMemberChecked(Some(false))), ListMyIssuesAction::Respond(Err(AppError::Forbidden))));

    let (mut f, _) = ListMyIssuesFlow::start(5, query(None, Some("nope")));
    assert!(matches!(f.step(ListMyIssuesEvent::OrgFound(Some(None))), ListMyIssuesAction::Respond(Err(AppError::NotFound))));

    let (mut f, _) = ListMyIssuesFlow::start(5, query(None, Some("acme")));
    f.step(ListMyIssuesEvent::OrgFound(Some(Some(7))));
    match f.step(ListMyIssuesEvent::OrgMemberChecked(Some(true))) {
        ListMyIssuesAction::Count(q) => assert!(binds_text(&q, "acme")),
        _ => panic!("expected the count"),
    }
}

#[test]
fn no_org_filter_counts_at_once() {
    let (_, a) = ListMyIssuesFlow::start(5, query(None, None));
    assert!(matches!(a, ListMyIssuesAction::Count(_)));
}

#[test]
fn facet_values_are_distinct() {
    let rows = vec![
        FacetCount { value: "todo".to_string(), count: 2 },
        FacetCount { value: "done".to_string(), count: 1 },
        FacetCount { value: "todo".to_string(), count: 5 },
    ];
    let out = facet_counts(&rows);
    assert_eq!(out.len(), 2);
    let todo: Vec<i64> = out.iter().filter(|f| f.value == "todo").map(|f| f.count).collect();
    assert_eq!(todo, vec![5]);
    let done: Vec<i64> = out.iter().filter(|f| f.value == "done").map(|f| f.count).collect();
    assert_eq!(done, vec![1]);
}
