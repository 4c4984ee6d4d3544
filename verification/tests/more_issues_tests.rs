use koro_api::error::AppError;
use koro_api::issue_edit::{is_allowed_priority, read_issue_key, IssuePatchRow, UpdateIssueAction, UpdateIssueEvent, UpdateIssueFlow, UpdateIssueRequest};
use koro_api::issue_view::{
    detail_from_row, AssignAction, AssignEvent, AssignFlow, AssignKind, GetIssueAction, GetIssueEvent, GetIssueFlow,
    IssueFullRow, IssueIdRow,
};
use koro_api::my_issues::{
    apply_my_issues_cursor_filter, cursor_from_row, split_list, MyIssueRow, MyIssueSortBy, MyIssuesCursor, SortDirection,
};
use koro_api::my_issues_flow::my_item_from_row;
use koro_api::sql::{SqlArg, SqlPiece, SqlQuery};
use koro_api::uploads::{new_object_name, object_name, 
    attachment_url, check_attachment_name, check_upload, content_type_for_filename,
    extension_from_content_type_or_filename, MAX_IMAGE_SIZE,
};

fn full_row() -> IssueFullRow {
    IssueFullRow {
        id: 100,
        project_id: 9,
        project_key: "CORE".to_string(),
        key_seq: 12,
        title: "Fix login".to_string(),
        description: Some("d".to_string()),
        status_slug: "todo".to_string(),
        workflow_status_id: 70,
        status_name: "Todo".to_string(),
        status_category: "unstarted".to_string(),
        is_blocked: false,
        priority: "high".to_string(),
        assignee_id: Some(5),
        assignee_name: Some("Ann".to_string()),
        created_at: 1,
        updated_at: 2,
    }
}

fn my_row() -> MyIssueRow {
    MyIssueRow {
        id: 100,
        project_id: 9,
        project_key: "CORE".to_string(),
        key_seq: 12,
        title: "Fix login".to_string(),
        status: "todo".to_string(),
        workflow_status_id: 70,
        status_name: "Todo".to_string(),
        status_category: "unstarted".to_string(),
        is_blocked: true,
        priority: "high".to_string(),
        created_at: 1_000,
        updated_at: 2_000,
    }
}

#[test]
fn upload_extensions() {
    assert_eq!(extension_from_content_type_or_filename(Some("image/png"), Some("x.gif")), Some("png"));
    assert_eq!(extension_from_content_type_or_filename(Some("text/plain"), Some("PHOTO.JPEG")), Some("jpg"));
    assert_eq!(extension_from_content_type_or_filename(None, Some("a.webp")), Some("webp"));
    assert_eq!(extension_from_content_type_or_filename(None, Some("a.bmp")), None);
    assert_eq!(extension_from_content_type_or_filename(None, None), None);
}

#[test]
fn served_content_types() {
    assert_eq!(content_type_for_filename("A.PNG"), "image/png");
    assert_eq!(content_type_for_filename("b.jpeg"), "image/jpeg");
    assert_eq!(content_type_for_filename("c.gif"), "image/gif");
    assert_eq!(content_type_for_filename("d.webp"), "image/webp");
    assert_eq!(content_type_for_filename("e.txt"), "application/octet-stream");
}

#[test]
fn stored_uploads_keep_their_content_type() {
    for ct in ["image/jpeg", "image/png", "image/gif", "image/webp"] {
        let ext = extension_from_content_type_or_filename(Some(ct), Some("whatever.BMP")).unwrap();
        assert_eq!(content_type_for_filename(&new_object_name(ext)), ct);
        assert_eq!(content_type_for_filename(&format!("ΣΑΣ.{ext}")), ct);
    }
}

#[test]
fn upload_object_names() {
    assert_eq!(object_name(0x0123456789abcdef0123456789abcdef, "png"), "01234567-89ab-cdef-0123-456789abcdef.png");
    let a = new_object_name("webp");
    let b = new_object_name("webp");
    assert_ne!(a, b);
    let (stem, ext) = a.split_at(36);
    assert_eq!(ext, ".webp");
    let id = uuid::Uuid::parse_str(stem).unwrap();
    assert_eq!(id.get_version_num(), 4);
    assert_eq!(id.get_variant(), uuid::Variant::RFC4122);
}

#[test]
fn upload_checks() {
    assert_eq!(check_upload(MAX_IMAGE_SIZE + 1, Some("image/png"), None), Err(AppError::PayloadTooLarge(Some("File too large"))));
    assert_eq!(check_upload(MAX_IMAGE_SIZE, Some("image/png"), None), Ok("png"));
    assert_eq!(
        check_upload(10, Some("text/plain"), Some("a.txt")),
        Err(AppError::BadRequest(Some("Unsupported file type (allowed: jpeg, png, gif, webp)")))
    );
    assert_eq!(attachment_url("abc.png").url, "/api/uploads/attachments/abc.png");
    assert!(check_attachment_name("abc.png").is_ok());
    assert!(check_attachment_name("../secret").is_err());
    assert!(check_attachment_name("a/b.png").is_err());
}

#[test]
fn priorities_and_keys() {
    for p in ["critical", "high", "medium", "low"] {
        assert!(is_allowed_priority(p));
    }
    assert!(!is_allowed_priority("none"));
    assert!(!is_allowed_priority("High"));
    let k = read_issue_key("CORE-12").ok().unwrap();
    assert_eq!((k.project_key.as_str(), k.key_seq), ("CORE", 12));
    assert_eq!(read_issue_key("CORE").err(), Some(AppError::BadRequest(Some("invalid issue key"))));
}

#[test]
fn update_issue_merges_fields() {
    let req = UpdateIssueRequest { title: Some("New".to_string()), description: None, priority: Some("low".to_string()) };
    let (f, _) = UpdateIssueFlow::start("acme".to_string(), "CORE-12", 5, req);
    let mut f = f.unwrap();
    match f.step(UpdateIssueEvent::OrgFound(Some(Some(3)))) {
        UpdateIssueAction::FindIssue { org_id, project_key, key_seq } => assert_eq!((org_id, project_key.as_str(), key_seq), (3, "CORE", 12)),
        _ => panic!("expected the issue"),
    }
    let row = IssuePatchRow { issue_id: 100, project_id: 9, title: "Old".to_string(), description: Some("d".to_string()), priority: "high".to_string() };
    assert!(matches!(f.step(UpdateIssueEvent::IssueFound(Some(Some(row)))), UpdateIssueAction::CheckMember { project_id: 9, user_id: 5 }));
    match f.step(UpdateIssueEvent::MemberChecked(Some(true))) {
        UpdateIssueAction::StoreFields { fields } => {
            assert_eq!(fields.title, "New");
            assert_eq!(fields.description.as_deref(), Some("d"));
            assert_eq!(fields.priority, "low");
        },
        _ => panic!("expected the store"),
    }
    match f.step(UpdateIssueEvent::Updated(true)) {
        UpdateIssueAction::Respond(Ok(r)) => assert_eq!(r.issue_id, 100),
        _ => panic!("expected the issue"),
    }
}

#[test]
fn update_issue_refuses_bad_priority() {
    let req = UpdateIssueRequest { title: None, description: None, priority: Some("urgent".to_string()) };
    let (f, a) = UpdateIssueFlow::start("acme".to_string(), "CORE-12", 5, req);
    assert!(matches!(a, UpdateIssueAction::FindOrg { .. }));
    let mut f = f.unwrap();
    f.step(UpdateIssueEvent::OrgFound(Some(Some(3))));
    let row = IssuePatchRow { issue_id: 100, project_id: 9, title: "Old".to_string(), description: None, priority: "high".to_string() };
    f.step(UpdateIssueEvent::IssueFound(Some(Some(row))));
    assert!(matches!(
        f.step(UpdateIssueEvent::MemberChecked(Some(true))),
        UpdateIssueAction::Respond(Err(AppError::BadRequest(Some("invalid priority"))))
    ));
    let req = UpdateIssueRequest { title: None, description: None, priority: None };
    let (_, a) = UpdateIssueFlow::start("acme".to_string(), "CORE12", 5, req);
    assert!(matches!(a, UpdateIssueAction::Respond(Err(AppError::BadRequest(Some("invalid issue key"))))));
}

#[test]
fn issue_detail() {
    let d = detail_from_row(full_row());
    assert_eq!(d.display_key, "CORE-12");
    assert_eq!(d.status, "todo");
    assert_eq!(d.assignee_name.as_deref(), Some("Ann"));
    let (mut f, a) = GetIssueFlow::start_by_id(100, 5);
    assert!(matches!(a, GetIssueAction::FindIssue(_)));
    assert!(matches!(f.step(GetIssueEvent::IssueFound(Some(Some(full_row())))), GetIssueAction::CheckMember { project_id: 9, user_id: 5 }));
    match f.step(GetIssueEvent::MemberChecked(Some(true))) {
        GetIssueAction::Respond(Ok(d)) => assert_eq!(d.issue_id, 100),
        _ => panic!("expected the issue"),
    }
    let (mut f, _) = GetIssueFlow::start_by_key("acme".to_string(), "CORE-12", 5);
    assert!(matches!(f.step(GetIssueEvent::IssueFound(Some(None))), GetIssueAction::Respond(Err(AppError::NotFound))));
}

#[test]
fn assign_me_records_event() {
    let (f, _) = AssignFlow::start("acme".to_string(), "CORE-12", 5, AssignKind::AssignMe);
    let mut f = f.unwrap();
    f.step(AssignEvent::OrgFound(Some(Some(3))));
    assert!(matches!(
        f.step(AssignEvent::IssueFound(Some(Some(IssueIdRow { issue_id: 100, project_id: 9 })))),
        AssignAction::CheckMember { project_id: 9, user_id: 5 }
    ));
    assert!(matches!(f.step(AssignEvent::MemberChecked(Some(true))), AssignAction::SetAssignee { issue_id: 100, assignee_id: 5 }));
    assert!(matches!(f.step(AssignEvent::Updated(true)), AssignAction::RecordAssigned { org_id: 3, issue_id: 100, actor_id: 5, assignee_id: 5 }));
    assert!(matches!(f.step(AssignEvent::EventRecorded), AssignAction::Respond(Ok(()))));
    let (f, _) = AssignFlow::start("acme".to_string(), "CORE-12", 5, AssignKind::AssignMe);
    let mut f = f.unwrap();
    f.step(AssignEvent::OrgFound(Some(Some(3))));
    f.step(AssignEvent::IssueFound(Some(Some(IssueIdRow { issue_id: 100, project_id: 9 }))));
    assert!(matches!(f.step(AssignEvent::MemberChecked(Some(false))), AssignAction::Respond(Err(AppError::Forbidden))));
}

#[test]
fn unassign_needs_project_membership() {
    let (f, _) = AssignFlow::start("acme".to_string(), "CORE-12", 5, AssignKind::Unassign);
    let mut f = f.unwrap();
    f.step(AssignEvent::OrgFound(Some(Some(3))));
    f.step(AssignEvent::IssueFound(Some(Some(IssueIdRow { issue_id: 100, project_id: 9 }))));
    assert!(matches!(f.step(AssignEvent::MemberChecked(Some(false))), AssignAction::Respond(Err(AppError::Forbidden))));
}

#[test]
fn unassign_clears() {
    let (f, _) = AssignFlow::start("acme".to_string(), "CORE-12", 5, AssignKind::Unassign);
    let mut f = f.unwrap();
    f.step(AssignEvent::OrgFound(Some(Some(3))));
    assert!(matches!(
        f.step(AssignEvent::IssueFound(Some(Some(IssueIdRow { issue_id: 100, project_id: 9 })))),
        AssignAction::CheckMember { project_id: 9, user_id: 5 }
    ));
    assert!(matches!(f.step(AssignEvent::MemberChecked(Some(true))), AssignAction::ClearAssignee { issue_id: 100 }));
    assert!(matches!(f.step(AssignEvent::Updated(true)), AssignAction::RecordUnassigned { org_id: 3, issue_id: 100, actor_id: 5 }));
    assert!(matches!(f.step(AssignEvent::EventRecorded), AssignAction::Respond(Ok(()))));
    let (f, a) = AssignFlow::start("acme".to_string(), "bad", 5, AssignKind::Unassign);
    assert!(f.is_none());
    assert!(matches!(a, AssignAction::Respond(Err(AppError::BadRequest(Some("invalid issue key"))))));
}

#[test]
fn sort_sql() {
    assert_eq!(MyIssueSortBy::default_sort().as_sql(), "i.updated_at");
    assert_eq!(MyIssueSortBy::KeySeq.as_sql(), "i.key_seq");
    assert_eq!(MyIssueSortBy::Status.as_sql(), "pws.slug");
    assert_eq!(SortDirection::default_direction().as_sql(), "DESC");
    assert_eq!(SortDirection::Asc.as_sql(), "ASC");
    assert_eq!(SortDirection::Asc.comparison_sql(), ">");
    assert_eq!(SortDirection::Desc.comparison_sql(), "<");
}

#[test]
fn cursors_from_rows() {
    let c = cursor_from_row(MyIssueSortBy::Title, &my_row());
    assert_eq!((c.id, c.sort_text.as_deref(), c.sort_int, c.sort_timestamp), (100, Some("Fix login"), None, None));
    let c = cursor_from_row(MyIssueSortBy::KeySeq, &my_row());
    assert_eq!(c.sort_int, Some(12));
    let c = cursor_from_row(MyIssueSortBy::UpdatedAt, &my_row());
    assert_eq!(c.sort_timestamp, Some(2_000));
}

#[test]
fn cursor_filter_needs_matching_value() {
    let mut q = SqlQuery::new("SELECT 1 WHERE true");
    let c = MyIssuesCursor { id: 100, sort_text: None, sort_int: None, sort_timestamp: None };
    assert_eq!(apply_my_issues_cursor_filter(&mut q, MyIssueSortBy::KeySeq, SortDirection::Asc, &c), Err("cursor is missing integer sort value"));
    assert_eq!(apply_my_issues_cursor_filter(&mut q, MyIssueSortBy::CreatedAt, SortDirection::Asc, &c), Err("cursor is missing timestamp sort value"));
    assert_eq!(apply_my_issues_cursor_filter(&mut q, MyIssueSortBy::Title, SortDirection::Asc, &c), Err("cursor is missing text sort value"));
    let c = MyIssuesCursor { id: 100, sort_text: None, sort_int: Some(12), sort_timestamp: None };
    let mut q = SqlQuery::new("SELECT 1 WHERE true");
    assert_eq!(apply_my_issues_cursor_filter(&mut q, MyIssueSortBy::KeySeq, SortDirection::Desc, &c), Ok(()));
    let binds = q.pieces.iter().filter(|p| matches!(p, SqlPiece::Bind(_))).count();
    assert_eq!(binds, 3);
    assert!(q.pieces.iter().any(|p| matches!(p, SqlPiece::Bind(SqlArg::Int(12)))));
    assert!(q.pieces.iter().any(|p| matches!(p, SqlPiece::Bind(SqlArg::Uuid(100)))));
    assert!(q.pieces.iter().any(|p| matches!(p, SqlPiece::Sql("<"))));
}

#[test]
fn comma_lists() {
    assert_eq!(split_list("a, b,,c "), vec!["a".to_string(), "b".to_string(), "c".to_string()]);
    assert!(split_list(" , ").is_empty());
    assert_eq!(split_list("x"), vec!["x".to_string()]);
}

#[test]
fn my_issue_items() {
    let item = my_item_from_row(&my_row());
    assert_eq!(item.display_key, "CORE-12");
    assert!(item.is_blocked);
    assert_eq!(item.priority, "high");
}
