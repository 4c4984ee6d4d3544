use koro_api::error::AppError;
use koro_api::issue_view::IssueIdRow;
use koro_api::relation_flows::{
    CreateRelationAction, CreateRelationEvent, CreateRelationFlow, DeleteRelationAction, DeleteRelationEvent,
    DeleteRelationFlow, GetRelationsAction, GetRelationsEvent, GetRelationsFlow,
};
use koro_api::relations::{build_relations, is_relation_type, CreateRelationRequest, RelationEdgeRow, RelationRecord};

fn edge(id: u128, kind: &str, key: &str, seq: i32, title: &str) -> RelationEdgeRow {
    RelationEdgeRow {
        relation_id: id,
        relation_type: kind.to_string(),
        other_project_key: key.to_string(),
        other_key_seq: seq,
        other_title: title.to_string(),
    }
}

fn req(kind: &str, target: &str) -> CreateRelationRequest {
    CreateRelationRequest { relation_type: kind.to_string(), target_issue_key: target.to_string() }
}

#[test]
fn relation_types_known() {
    assert!(is_relation_type("blocks"));
    assert!(is_relation_type("relates_to"));
    assert!(is_relation_type("duplicate"));
    assert!(!is_relation_type("blocked_by"));
    assert!(!is_relation_type(""));
}

#[test]
fn relations_sorted_by_direction_and_kind() {
    let outgoing = vec![
        edge(1, "blocks", "KORO", 2, "Two"),
        edge(2, "relates_to", "KORO", 3, "Three"),
        edge(3, "duplicate", "WEB", 4, "Four"),
        edge(4, "unknown", "WEB", 5, "Five"),
    ];
    let incoming = vec![
        edge(5, "blocks", "KORO", 6, "Six"),
        edge(6, "duplicate", "KORO", 7, "Seven"),
        edge(7, "relates_to", "API", 8, "Eight"),
    ];
    let r = build_relations(&outgoing, &incoming);
    assert_eq!(r.blocking.len(), 1);
    assert_eq!(r.blocking[0].issue_key, "KORO-2");
    assert_eq!(r.blocking[0].title, "Two");
    assert_eq!(r.duplicates.len(), 1);
    assert_eq!(r.duplicates[0].issue_key, "WEB-4");
    assert_eq!(r.blocked_by.len(), 1);
    assert_eq!(r.blocked_by[0].relation_id, 5);
    assert_eq!(r.duplicated_by.len(), 1);
    assert_eq!(r.duplicated_by[0].issue_key, "KORO-7");
    assert_eq!(r.related.len(), 2);
    assert_eq!(r.related[0].issue_key, "KORO-3");
    assert_eq!(r.related[1].issue_key, "API-8");
}

#[test]
fn create_relation_checks_input_first() {
    let (_, a) = CreateRelationFlow::start("acme".to_string(), "KORO-1", 5, req("parent", "KORO-2"));
    assert!(matches!(a, CreateRelationAction::Respond(Err(AppError::BadRequest(Some("invalid relation_type"))))));
    let (_, a) = CreateRelationFlow::start("acme".to_string(), "KORO", 5, req("blocks", "KORO-2"));
    assert!(matches!(a, CreateRelationAction::Respond(Err(AppError::BadRequest(Some("invalid source issue key"))))));
    let (_, a) = CreateRelationFlow::start("acme".to_string(), "KORO-1", 5, req("blocks", "KORO-x"));
    assert!(matches!(a, CreateRelationAction::Respond(Err(AppError::BadRequest(Some("invalid target issue key"))))));
}

#[test]
fn create_relation_full_path() {
    let (mut f, a) = CreateRelationFlow::start("acme".to_string(), "KORO-1", 5, req("blocks", "WEB-2"));
    assert!(matches!(a, CreateRelationAction::FindOrg { .. }));
    assert!(matches!(f.step(CreateRelationEvent::OrgFound(Some(Some(3)))), CreateRelationAction::CheckMember { org_id: 3, user_id: 5 }));
    match f.step(CreateRelationEvent::MemberChecked(Some(true))) {
        CreateRelationAction::ResolveIssue { org_id, project_key, key_seq } => {
            assert_eq!((org_id, project_key.as_str(), key_seq), (3, "KORO", 1));
        },
        _ => panic!("expected the source issue"),
    }
    match f.step(CreateRelationEvent::IssueResolved(Some(Some(IssueIdRow { issue_id: 100, project_id: 9 })))) {
        CreateRelationAction::ResolveIssue { project_key, key_seq, .. } => {
            assert_eq!((project_key.as_str(), key_seq), ("WEB", 2));
        },
        _ => panic!("expected the target issue"),
    }
    match f.step(CreateRelationEvent::IssueResolved(Some(Some(IssueIdRow { issue_id: 200, project_id: 8 })))) {
        CreateRelationAction::Insert { org_id, source_issue_id, target_issue_id, relation_type } => {
            assert_eq!((org_id, source_issue_id, target_issue_id), (3, 100, 200));
            assert_eq!(relation_type, "blocks");
        },
        _ => panic!("expected an insert"),
    }
    match f.step(CreateRelationEvent::Inserted(Some(555))) {
        CreateRelationAction::RecordAdded { issue_id, actor_id, target_issue_key, .. } => {
            assert_eq!((issue_id, actor_id), (100, 5));
            assert_eq!(target_issue_key, "WEB-2");
        },
        _ => panic!("expected the event"),
    }
    match f.step(CreateRelationEvent::EventRecorded) {
        CreateRelationAction::Respond(Ok(r)) => assert_eq!(r.relation_id, 555),
        _ => panic!("expected the relation"),
    }
}

#[test]
fn create_relation_refusals() {
    let (mut f, _) = CreateRelationFlow::start("acme".to_string(), "KORO-1", 5, req("blocks", "WEB-2"));
    assert!(matches!(f.step(CreateRelationEvent::OrgFound(Some(None))), CreateRelationAction::Respond(Err(AppError::NotFound))));
    let (mut f, _) = CreateRelationFlow::start("acme".to_string(), "KORO-1", 5, req("blocks", "WEB-2"));
    f.step(CreateRelationEvent::OrgFound(Some(Some(3))));
    assert!(matches!(f.step(CreateRelationEvent::MemberChecked(Some(false))), CreateRelationAction::Respond(Err(AppError::Forbidden))));
    let (mut f, _) = CreateRelationFlow::start("acme".to_string(), "KORO-1", 5, req("blocks", "WEB-2"));
    f.step(CreateRelationEvent::OrgFound(Some(Some(3))));
    f.step(CreateRelationEvent::MemberChecked(Some(true)));
    f.step(CreateRelationEvent::IssueResolved(Some(Some(IssueIdRow { issue_id: 100, project_id: 9 }))));
    assert!(matches!(f.step(CreateRelationEvent::IssueResolved(Some(None))), CreateRelationAction::Respond(Err(AppError::NotFound))));
    let (mut f, _) = CreateRelationFlow::start("acme".to_string(), "KORO-1", 5, req("blocks", "WEB-2"));
    f.step(CreateRelationEvent::OrgFound(Some(Some(3))));
    f.step(CreateRelationEvent::MemberChecked(Some(true)));
    f.step(CreateRelationEvent::IssueResolved(Some(Some(IssueIdRow { issue_id: 100, project_id: 9 }))));
    f.step(CreateRelationEvent::IssueResolved(Some(Some(IssueIdRow { issue_id: 200, project_id: 9 }))));
    assert!(matches!(f.step(CreateRelationEvent::Inserted(None)), CreateRelationAction::Respond(Err(AppError::BadRequest(None)))));
}

#[test]
fn get_relations_path() {
    let (_, a) = GetRelationsFlow::start("acme".to_string(), "nope", 5);
    assert!(matches!(a, GetRelationsAction::Respond(Err(AppError::BadRequest(Some("invalid issue key"))))));
    let (mut f, _) = GetRelationsFlow::start("acme".to_string(), "KORO-1", 5);
    f.step(GetRelationsEvent::OrgFound(Some(Some(3))));
    f.step(GetRelationsEvent::MemberChecked(Some(true)));
    assert!(matches!(
        f.step(GetRelationsEvent::IssueResolved(Some(Some(IssueIdRow { issue_id: 100, project_id: 9 })))),
        GetRelationsAction::FetchOutgoing { org_id: 3, issue_id: 100 }
    ));
    assert!(matches!(
        f.step(GetRelationsEvent::OutgoingFetched(Some(vec![edge(1, "blocks", "KORO", 2, "Two")]))),
        GetRelationsAction::FetchIncoming { org_id: 3, issue_id: 100 }
    ));
    match f.step(GetRelationsEvent::IncomingFetched(Some(vec![]))) {
        GetRelationsAction::Respond(Ok(r)) => {
            assert_eq!(r.blocking.len(), 1);
            assert!(r.blocked_by.is_empty());
        },
        _ => panic!("expected the relations"),
    }
}

#[test]
fn delete_relation_path() {
    let (mut f, _) = DeleteRelationFlow::start("acme".to_string(), 5, 555);
    f.step(DeleteRelationEvent::OrgFound(Some(Some(3))));
    assert!(matches!(f.step(DeleteRelationEvent::MemberChecked(Some(true))), DeleteRelationAction::FindRelation { org_id: 3, relation_id: 555 }));
    let record = RelationRecord { source_issue_id: 100, relation_type: "duplicate".to_string() };
    assert!(matches!(f.step(DeleteRelationEvent::RelationFound(Some(Some(record)))), DeleteRelationAction::Delete { org_id: 3, relation_id: 555 }));
    match f.step(DeleteRelationEvent::Deleted(Some(1))) {
        DeleteRelationAction::RecordRemoved { issue_id, relation_id, relation_type, .. } => {
            assert_eq!((issue_id, relation_id), (100, 555));
            assert_eq!(relation_type, "duplicate");
        },
        _ => panic!("expected the event"),
    }
    assert!(matches!(f.step(DeleteRelationEvent::EventRecorded), DeleteRelationAction::Respond(Ok(()))));

    let (mut f, _) = DeleteRelationFlow::start("acme".to_string(), 5, 555);
    f.step(DeleteRelationEvent::OrgFound(Some(Some(3))));
    f.step(DeleteRelationEvent::MemberChecked(Some(true)));
    let record = RelationRecord { source_issue_id: 100, relation_type: "blocks".to_string() };
    f.step(DeleteRelationEvent::RelationFound(Some(Some(record))));
    assert!(matches!(f.step(DeleteRelationEvent::Deleted(Some(0))), DeleteRelationAction::Respond(Err(AppError::NotFound))));
}
