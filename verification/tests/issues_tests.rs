use koro_api::board::{build_board_response, BoardAction, BoardEvent, BoardFlow};
use koro_api::error::AppError;
use koro_api::issue_create::{CreateIssueAction, CreateIssueEvent, CreateIssueFlow, CreateIssueRequest, LockedProject};
use koro_api::issue_lists::{
    list_filters, summaries_to_items, IssueSummaryRow, ListIssuesAction, ListIssuesEvent, ListIssuesFlow, ListIssuesQuery,
    ListProjectIssuesAction, ListProjectIssuesEvent, ListProjectIssuesFlow, ProjectRef,
};
use koro_api::issue_status::{
    BoardMoveAction, BoardMoveEvent, BoardMoveFlow, UpdateIssueBoardPositionRequest, UpdateIssueStatusRequest,
    UpdateStatusAction, UpdateStatusEvent, UpdateStatusFlow,
};
use koro_api::workflow::WorkflowStatusRow;

fn summary(id: u128, seq: i32, status_id: u128, blocked: bool) -> IssueSummaryRow {
    IssueSummaryRow {
        id,
        key_seq: seq,
        title: format!("Issue {seq}"),
        status_slug: "todo".to_string(),
        workflow_status_id: status_id,
        status_name: "Todo".to_string(),
        status_category: "unstarted".to_string(),
        is_blocked: blocked,
    }
}

fn status_row(id: u128, slug: &str, position: i32) -> WorkflowStatusRow {
    WorkflowStatusRow {
        id,
        project_id: 9,
        category: "unstarted".to_string(),
        name: slug.to_uppercase(),
        slug: slug.to_string(),
        position,
        is_default: false,
        created_at: 0,
    }
}

fn create_req(title: &str) -> CreateIssueRequest {
    CreateIssueRequest {
        title: title.to_string(),
        description: None,
        assignee_id: None,
        priority: None,
        workflow_status_id: None,
        workflow_status_slug: None,
    }
}

fn locked() -> LockedProject {
    LockedProject { org_id: 3, project_key: "CORE".to_string(), next_issue_seq: 12 }
}

#[test]
fn create_issue_default_status_and_key() {
    let (_, a) = CreateIssueFlow::start(9, 5, create_req("  "));
    assert!(matches!(a, CreateIssueAction::Respond(Err(AppError::BadRequest(Some("title is required"))))));
    let (mut f, a) = CreateIssueFlow::start(9, 5, create_req("Fix login"));
    assert!(matches!(a, CreateIssueAction::CheckMember { project_id: 9, user_id: 5 }));
    assert!(matches!(f.step(CreateIssueEvent::MemberChecked(Some(true))), CreateIssueAction::Begin));
    assert!(matches!(f.step(CreateIssueEvent::Began(true)), CreateIssueAction::LockProject { project_id: 9 }));
    assert!(matches!(f.step(CreateIssueEvent::ProjectLocked(Some(Some(locked())))), CreateIssueAction::DefaultStatus { project_id: 9 }));
    match f.step(CreateIssueEvent::DefaultResolved(Some(Some(70)))) {
        CreateIssueAction::Insert(n) => {
            assert_eq!((n.org_id, n.project_id, n.key_seq, n.workflow_status_id, n.reporter_id), (3, 9, 12, 70, 5));
            assert_eq!(n.priority, "none");
            assert_eq!(n.title, "Fix login");
        },
        _ => panic!("expected an insert"),
    }
    assert!(matches!(f.step(CreateIssueEvent::Inserted(Some((100, "Fix login".to_string())))), CreateIssueAction::BumpSeq { project_id: 9 }));
    assert!(matches!(f.step(CreateIssueEvent::Bumped(true)), CreateIssueAction::Commit));
    match f.step(CreateIssueEvent::Committed(true)) {
        CreateIssueAction::Respond(Ok(r)) => {
            assert_eq!(r.issue_id, 100);
            assert_eq!(r.display_key, "CORE-12");
        },
        _ => panic!("expected the issue"),
    }
}

#[test]
fn create_issue_refusals() {
    let (mut f, _) = CreateIssueFlow::start(9, 5, create_req("x"));
    assert!(matches!(f.step(CreateIssueEvent::MemberChecked(Some(false))), CreateIssueAction::Respond(Err(AppError::Forbidden))));

    let mut req = create_req("x");
    req.assignee_id = Some(8);
    let (mut f, _) = CreateIssueFlow::start(9, 5, req);
    f.step(CreateIssueEvent::MemberChecked(Some(true)));
    f.step(CreateIssueEvent::Began(true));
    assert!(matches!(f.step(CreateIssueEvent::ProjectLocked(Some(Some(locked())))), CreateIssueAction::CheckAssignee { project_id: 9, assignee_id: 8 }));
    assert!(matches!(
        f.step(CreateIssueEvent::AssigneeChecked(Some(false))),
        CreateIssueAction::Respond(Err(AppError::BadRequest(Some("assignee must be a project member"))))
    ));

    let mut req = create_req("x");
    req.workflow_status_slug = Some("doing".to_string());
    let (mut f, _) = CreateIssueFlow::start(9, 5, req);
    f.step(CreateIssueEvent::MemberChecked(Some(true)));
    f.step(CreateIssueEvent::Began(true));
    assert!(matches!(f.step(CreateIssueEvent::ProjectLocked(Some(Some(locked())))), CreateIssueAction::ResolveSlug { project_id: 9, .. }));
    assert!(matches!(
        f.step(CreateIssueEvent::SlugResolved(Some(None))),
        CreateIssueAction::Respond(Err(AppError::BadRequest(Some("unknown workflow_status_slug"))))
    ));

    let (mut f, _) = CreateIssueFlow::start(9, 5, create_req("x"));
    f.step(CreateIssueEvent::MemberChecked(Some(true)));
    f.step(CreateIssueEvent::Began(true));
    f.step(CreateIssueEvent::ProjectLocked(Some(Some(locked()))));
    assert!(matches!(
        f.step(CreateIssueEvent::DefaultResolved(Some(None))),
        CreateIssueAction::Respond(Err(AppError::InternalMessage("project has no default workflow status")))
    ));

    let (mut f, _) = CreateIssueFlow::start(9, 5, create_req("x"));
    f.step(CreateIssueEvent::MemberChecked(Some(true)));
    f.step(CreateIssueEvent::Began(true));
    assert!(matches!(f.step(CreateIssueEvent::ProjectLocked(Some(None))), CreateIssueAction::Respond(Err(AppError::NotFound))));
}

#[test]
fn list_items_carry_display_keys() {
    let items = summaries_to_items("CORE", &vec![summary(1, 3, 70, false), summary(2, 4, 71, true)]);
    assert_eq!(items.len(), 2);
    assert_eq!(items[0].display_key, "CORE-3");
    assert_eq!(items[1].display_key, "CORE-4");
    assert!(items[1].is_blocked);
    assert_eq!(items[0].status, "todo");
}

#[test]
fn list_filters_read_query() {
    let q = ListIssuesQuery {
        status: Some("550e8400-e29b-41d4-a716-446655440000".to_string()),
        q: Some("login".to_string()),
        assignee: Some("me".to_string()),
        limit: Some(1000),
        offset: Some(-1),
    };
    let f = list_filters(&q, 5);
    assert_eq!(f.status, Some(0x550e8400e29b41d4a716446655440000));
    assert_eq!(f.assignee, Some(5));
    assert_eq!(f.q.as_deref(), Some("login"));
    assert_eq!((f.limit, f.offset), (200, 0));
    let q = ListIssuesQuery { status: Some("bad".to_string()), q: None, assignee: Some("bad".to_string()), limit: None, offset: None };
    let f = list_filters(&q, 5);
    assert_eq!((f.status, f.assignee), (None, None));
    assert_eq!(f.limit, 50);
}

#[test]
fn list_issues_flow() {
    let q = ListIssuesQuery { status: None, q: None, assignee: None, limit: None, offset: None };
    let (mut f, a) = ListIssuesFlow::start(9, 5, q);
    assert!(matches!(a, ListIssuesAction::CheckMember { project_id: 9, user_id: 5 }));
    assert!(matches!(f.step(ListIssuesEvent::MemberChecked(Some(true))), ListIssuesAction::FindProjectKey { project_id: 9 }));
    assert!(matches!(f.step(ListIssuesEvent::ProjectKeyFound(Some(Some("CORE".to_string())))), ListIssuesAction::FetchRows { project_id: 9, .. }));
    match f.step(ListIssuesEvent::RowsFetched(Some(vec![summary(1, 3, 70, false)]))) {
        ListIssuesAction::Respond(Ok(r)) => assert_eq!(r.items[0].display_key, "CORE-3"),
        _ => panic!("expected the list"),
    }
    let q = ListIssuesQuery { status: None, q: None, assignee: None, limit: None, offset: None };
    let (mut f, _) = ListIssuesFlow::start(9, 5, q);
    assert!(matches!(f.step(ListIssuesEvent::MemberChecked(Some(false))), ListIssuesAction::Respond(Err(AppError::Forbidden))));
}

#[test]
fn list_project_issues_flow() {
    let q = ListIssuesQuery { status: None, q: None, assignee: None, limit: Some(1), offset: Some(0) };
    let (mut f, _) = ListProjectIssuesFlow::start("acme".to_string(), "CORE".to_string(), 5, q);
    let p = ProjectRef { id: 9, project_key: "CORE".to_string() };
    assert!(matches!(f.step(ListProjectIssuesEvent::ProjectFound(Some(Some(p)))), ListProjectIssuesAction::CheckMember { project_id: 9, user_id: 5 }));
    assert!(matches!(f.step(ListProjectIssuesEvent::MemberChecked(Some(true))), ListProjectIssuesAction::Count { project_id: 9, .. }));
    assert!(matches!(f.step(ListProjectIssuesEvent::Counted(Some(2))), ListProjectIssuesAction::FetchRows { project_id: 9, .. }));
    match f.step(ListProjectIssuesEvent::RowsFetched(Some(vec![summary(1, 3, 70, false)]))) {
        ListProjectIssuesAction::Respond(Ok(r)) => {
            assert_eq!((r.total, r.limit, r.offset), (2, 1, 0));
            assert!(r.has_more);
        },
        _ => panic!("expected the page"),
    }
}

#[test]
fn board_groups_issues_by_status() {
    let defs = vec![status_row(70, "todo", 0), status_row(71, "doing", 1)];
    let rows = vec![summary(1, 3, 71, false), summary(2, 4, 70, false), summary(3, 5, 71, true), summary(4, 6, 99, false)];
    let b = build_board_response("CORE", &defs, &rows);
    assert_eq!(b.column_definitions.len(), 2);
    assert_eq!(b.column_definitions[1].slug, "doing");
    let col = |id: u128| b.items_by_column.iter().find(|c| c.status_id == id).map(|c| c.items.len());
    assert_eq!(col(70), Some(1));
    assert_eq!(col(71), Some(2));
    assert_eq!(col(99), Some(1));
    assert_eq!(col(12), None);
}

#[test]
fn board_places_each_issue_once() {
    let defs = vec![status_row(70, "todo", 0), status_row(71, "doing", 1), status_row(70, "todo", 2)];
    let rows = vec![summary(1, 3, 71, false), summary(2, 4, 70, false), summary(3, 5, 71, true), summary(4, 6, 99, false)];
    let b = build_board_response("CORE", &defs, &rows);
    for key in ["CORE-3", "CORE-4", "CORE-5", "CORE-6"] {
        let holding: Vec<u128> = b
            .items_by_column
            .iter()
            .filter(|c| c.items.iter().any(|it| it.display_key == key))
            .map(|c| c.status_id)
            .collect();
        assert_eq!(holding.len(), 1, "{key}");
    }
    assert_eq!(b.items_by_column.len(), 3);
}

#[test]
fn board_by_key_flow() {
    let (mut f, a) = BoardFlow::start_by_key("acme".to_string(), "CORE".to_string(), 5);
    assert!(matches!(a, BoardAction::FindProject { .. }));
    let p = ProjectRef { id: 9, project_key: "CORE".to_string() };
    assert!(matches!(f.step(BoardEvent::ProjectFound(Some(Some(p)))), BoardAction::CheckMember { project_id: 9, user_id: 5 }));
    assert!(matches!(f.step(BoardEvent::MemberChecked(Some(true))), BoardAction::FetchRows { project_id: 9, .. }));
    assert!(matches!(f.step(BoardEvent::RowsFetched(Some(vec![summary(1, 3, 70, false)]))), BoardAction::FetchStatuses { project_id: 9 }));
    match f.step(BoardEvent::StatusesFetched(Some(vec![status_row(70, "todo", 0)]))) {
        BoardAction::Respond(Ok(b)) => assert_eq!(b.items_by_column[0].items[0].display_key, "CORE-3"),
        _ => panic!("expected the board"),
    }
    let (mut f, _) = BoardFlow::start_by_id(9, 5);
    assert!(matches!(f.step(BoardEvent::MemberChecked(Some(false))), BoardAction::Respond(Err(AppError::Forbidden))));
}

#[test]
fn update_status_by_category() {
    let req = UpdateIssueStatusRequest { workflow_status_id: None, category: Some("started".to_string()) };
    let (mut f, _) = UpdateStatusFlow::start(100, 5, req);
    assert!(matches!(f.step(UpdateStatusEvent::ProjectFound(Some(Some(9)))), UpdateStatusAction::CheckMember { project_id: 9, user_id: 5 }));
    assert!(matches!(f.step(UpdateStatusEvent::MemberChecked(Some(true))), UpdateStatusAction::FirstStatusInCategory { project_id: 9, .. }));
    assert!(matches!(f.step(UpdateStatusEvent::CategoryResolved(Some(Some(71)))), UpdateStatusAction::CheckStatusBelongs { project_id: 9, status_id: 71 }));
    assert!(matches!(f.step(UpdateStatusEvent::BelongsChecked(Some(true))), UpdateStatusAction::SetStatus { issue_id: 100, status_id: 71 }));
    assert!(matches!(f.step(UpdateStatusEvent::Updated(true)), UpdateStatusAction::FindSlug { status_id: 71 }));
    match f.step(UpdateStatusEvent::SlugFound(Some(Some("doing".to_string())))) {
        UpdateStatusAction::Respond(Ok(r)) => {
            assert_eq!((r.issue_id, r.workflow_status_id), (100, 71));
            assert_eq!(r.status, "doing");
        },
        _ => panic!("expected the status"),
    }
}

#[test]
fn update_status_refusals() {
    let req = UpdateIssueStatusRequest { workflow_status_id: None, category: None };
    let (mut f, _) = UpdateStatusFlow::start(100, 5, req);
    f.step(UpdateStatusEvent::ProjectFound(Some(Some(9))));
    assert!(matches!(
        f.step(UpdateStatusEvent::MemberChecked(Some(true))),
        UpdateStatusAction::Respond(Err(AppError::BadRequest(Some("workflow_status_id or category required"))))
    ));
    let req = UpdateIssueStatusRequest { workflow_status_id: None, category: Some("x".to_string()) };
    let (mut f, _) = UpdateStatusFlow::start(100, 5, req);
    f.step(UpdateStatusEvent::ProjectFound(Some(Some(9))));
    f.step(UpdateStatusEvent::MemberChecked(Some(true)));
    assert!(matches!(
        f.step(UpdateStatusEvent::CategoryResolved(Some(None))),
        UpdateStatusAction::Respond(Err(AppError::BadRequest(Some("unknown category for project"))))
    ));
    let req = UpdateIssueStatusRequest { workflow_status_id: Some(71), category: None };
    let (mut f, _) = UpdateStatusFlow::start(100, 5, req);
    f.step(UpdateStatusEvent::ProjectFound(Some(Some(9))));
    f.step(UpdateStatusEvent::MemberChecked(Some(true)));
    assert!(matches!(
        f.step(UpdateStatusEvent::BelongsChecked(Some(false))),
        UpdateStatusAction::Respond(Err(AppError::BadRequest(Some("status not in project"))))
    ));
    let req = UpdateIssueStatusRequest { workflow_status_id: Some(71), category: None };
    let (mut f, _) = UpdateStatusFlow::start(100, 5, req);
    assert!(matches!(f.step(UpdateStatusEvent::ProjectFound(Some(None))), UpdateStatusAction::Respond(Err(AppError::NotFound))));
}

#[test]
fn board_move_flow() {
    let req = UpdateIssueBoardPositionRequest { workflow_status_id: 71, position: 3 };
    let (mut f, _) = BoardMoveFlow::start(100, 5, req);
    f.step(BoardMoveEvent::ProjectFound(Some(Some(9))));
    assert!(matches!(f.step(BoardMoveEvent::MemberChecked(Some(true))), BoardMoveAction::CheckStatusBelongs { project_id: 9, status_id: 71 }));
    assert!(matches!(f.step(BoardMoveEvent::BelongsChecked(Some(true))), BoardMoveAction::SetStatusAndPosition { issue_id: 100, status_id: 71, position: 3 }));
    assert!(matches!(f.step(BoardMoveEvent::Updated(true)), BoardMoveAction::FindSlug { status_id: 71 }));
    match f.step(BoardMoveEvent::SlugFound(Some(Some("doing".to_string())))) {
        BoardMoveAction::Respond(Ok(r)) => assert_eq!((r.issue_id, r.workflow_status_id, r.position), (100, 71, 3)),
        _ => panic!("expected the move"),
    }
}
