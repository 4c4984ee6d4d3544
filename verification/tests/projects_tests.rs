use koro_api::error::AppError;
use koro_api::events::{event_actor, event_items, EventRow, ListEventsAction, ListEventsEvent, ListEventsFlow};
use koro_api::issue_view::IssueIdRow;
use koro_api::project_flows::{
    confirmation_matches, CreateProjectAction, CreateProjectEvent, CreateProjectFlow, CreateProjectRequest,
    DeleteProjectRequest, ListMembersAction, ListMembersEvent, ListMembersFlow, ProjectAction, ProjectEvent, ProjectFlow,
    ProjectMemberRow, ProjectReply, ProjectRequest,
};
use koro_api::projects::{
    make_search_pattern, read_org_filter, ListMyProjectsQuery, ListProjectsAction, ListProjectsEvent, ListProjectsFlow,
    ProjectWithOrgRow,
};

fn project_row(id: u128, key: &str, name: &str) -> ProjectWithOrgRow {
    ProjectWithOrgRow {
        id,
        project_key: key.to_string(),
        name: name.to_string(),
        description: None,
        org_id: 3,
        created_at: 10,
        org_name: "Acme".to_string(),
        org_slug: "acme".to_string(),
        my_role: "manager".to_string(),
        issue_count: 4,
        member_count: 2,
        viewed_at: Some(20),
    }
}

fn query(limit: Option<i32>, offset: Option<i32>, q: Option<&str>, org: Option<&str>) -> ListMyProjectsQuery {
    ListMyProjectsQuery { limit, offset, q: q.map(|s| s.to_string()), org_slug: org.map(|s| s.to_string()) }
}

#[test]
fn search_patterns() {
    assert_eq!(make_search_pattern(&None), "%");
    assert_eq!(make_search_pattern(&Some("   ".to_string())), "%");
    assert_eq!(make_search_pattern(&Some(" Web App ".to_string())), "%web app%");
    assert_eq!(read_org_filter(&Some("  acme ".to_string())).as_deref(), Some("acme"));
    assert_eq!(read_org_filter(&Some("  ".to_string())), None);
    assert_eq!(read_org_filter(&None), None);
}

#[test]
fn list_projects_pages() {
    let (mut f, a) = ListProjectsFlow::start(5, query(Some(500), Some(-4), Some("Core"), None));
    assert_eq!((f.limit, f.offset), (100, 0));
    match a {
        ListProjectsAction::CountProjects { user_id, pattern, org_id } => {
            assert_eq!(user_id, 5);
            assert_eq!(pattern, "%core%");
            assert!(org_id.is_none());
        },
        _ => panic!("expected a count"),
    }
    match f.step(ListProjectsEvent::Counted(Some(3))) {
        ListProjectsAction::FetchProjects { limit, offset, .. } => assert_eq!((limit, offset), (100, 0)),
        _ => panic!("expected a fetch"),
    }
    match f.step(ListProjectsEvent::RowsFetched(Some(vec![project_row(1, "CORE", "Core"), project_row(2, "CORE2", "Core 2")]))) {
        ListProjectsAction::Respond(Ok(r)) => {
            assert_eq!(r.items.len(), 2);
            assert_eq!(r.items[1].project_key, "CORE2");
            assert_eq!(r.items[0].viewed_at, Some(20));
            assert_eq!(r.total, 3);
            assert!(r.has_more);
        },
        _ => panic!("expected the page"),
    }
}

#[test]
fn list_projects_in_organization() {
    let (mut f, a) = ListProjectsFlow::start(5, query(None, Some(2), None, Some(" acme ")));
    assert_eq!((f.limit, f.offset), (50, 2));
    match a {
        ListProjectsAction::FindOrg { org_slug } => assert_eq!(org_slug, "acme"),
        _ => panic!("expected the organization"),
    }
    assert!(matches!(f.step(ListProjectsEvent::OrgFound(Some(Some(3)))), ListProjectsAction::CheckOrgMember { org_id: 3, user_id: 5 }));
    assert!(matches!(f.step(ListProjectsEvent::MemberChecked(Some(true))), ListProjectsAction::CountProjects { org_id: Some(3), .. }));
    f.step(ListProjectsEvent::Counted(Some(3)));
    match f.step(ListProjectsEvent::RowsFetched(Some(vec![project_row(1, "CORE", "Core")]))) {
        ListProjectsAction::Respond(Ok(r)) => assert!(!r.has_more),
        _ => panic!("expected the page"),
    }
    let (mut f, _) = ListProjectsFlow::start(5, query(None, None, None, Some("acme")));
    assert!(matches!(f.step(ListProjectsEvent::OrgFound(Some(None))), ListProjectsAction::Respond(Err(AppError::NotFound))));
    let (mut f, _) = ListProjectsFlow::start(5, query(None, None, None, Some("acme")));
    f.step(ListProjectsEvent::OrgFound(Some(Some(3))));
    assert!(matches!(f.step(ListProjectsEvent::MemberChecked(Some(false))), ListProjectsAction::Respond(Err(AppError::Forbidden))));
}

#[test]
fn get_project_and_record_view() {
    let (mut f, _) = ProjectFlow::start("acme".to_string(), "CORE".to_string(), 5, ProjectRequest::Get);
    match f.step(ProjectEvent::OrgFound(Some(Some(3)))) {
        ProjectAction::FindProject { user_id, org_id, project_key } => {
            assert_eq!((user_id, org_id), (5, 3));
            assert_eq!(project_key, "CORE");
        },
        _ => panic!("expected the project"),
    }
    match f.step(ProjectEvent::ProjectFound(Some(Some(project_row(1, "CORE", "Core"))))) {
        ProjectAction::Respond(Ok(ProjectReply::Project(p))) => {
            assert_eq!(p.name, "Core");
            assert_eq!(p.member_count, 2);
        },
        _ => panic!("expected the project"),
    }
    let (mut f, _) = ProjectFlow::start("acme".to_string(), "CORE".to_string(), 5, ProjectRequest::RecordView);
    f.step(ProjectEvent::OrgFound(Some(Some(3))));
    assert!(matches!(f.step(ProjectEvent::ProjectFound(Some(Some(project_row(1, "CORE", "Core"))))), ProjectAction::RecordView { project_id: 1, user_id: 5 }));
    assert!(matches!(f.step(ProjectEvent::ViewRecorded(Some(0))), ProjectAction::Respond(Err(AppError::Forbidden))));
    let (mut f, _) = ProjectFlow::start("acme".to_string(), "CORE".to_string(), 5, ProjectRequest::Get);
    f.step(ProjectEvent::OrgFound(Some(Some(3))));
    assert!(matches!(f.step(ProjectEvent::ProjectFound(Some(None))), ProjectAction::Respond(Err(AppError::NotFound))));
}

#[test]
fn rename_project() {
    let (_, a) = ProjectFlow::start("acme".to_string(), "CORE".to_string(), 5, ProjectRequest::Rename { name: "  ".to_string() });
    assert!(matches!(a, ProjectAction::Respond(Err(AppError::BadRequest(Some("invalid name"))))));
    let long = "é".repeat(101);
    let (_, a) = ProjectFlow::start("acme".to_string(), "CORE".to_string(), 5, ProjectRequest::Rename { name: long });
    assert!(matches!(a, ProjectAction::Respond(Err(AppError::BadRequest(Some("invalid name"))))));
    let (mut f, _) = ProjectFlow::start("acme".to_string(), "CORE".to_string(), 5, ProjectRequest::Rename { name: " Core v2 ".to_string() });
    f.step(ProjectEvent::OrgFound(Some(Some(3))));
    assert!(matches!(f.step(ProjectEvent::ProjectFound(Some(Some(project_row(1, "CORE", "Core"))))), ProjectAction::CheckPermission { project_id: 1, user_id: 5 }));
    match f.step(ProjectEvent::PermissionChecked(Some(true))) {
        ProjectAction::Rename { project_id, name } => {
            assert_eq!(project_id, 1);
            assert_eq!(name, "Core v2");
        },
        _ => panic!("expected a rename"),
    }
    match f.step(ProjectEvent::Renamed(Some("CORE".to_string()))) {
        ProjectAction::Respond(Ok(ProjectReply::Renamed(r))) => {
            assert_eq!(r.name, "Core v2");
            assert_eq!(r.project_key, "CORE");
        },
        _ => panic!("expected the project"),
    }
}

#[test]
fn delete_project_needs_confirmation() {
    let confirm = |n: &str, k: &str| DeleteProjectRequest { confirm_name: n.to_string(), confirm_project_key: k.to_string() };
    assert!(confirmation_matches(&confirm(" Core ", " core "), &project_row(1, "CORE", "Core")));
    assert!(!confirmation_matches(&confirm("core", "CORE"), &project_row(1, "CORE", "Core")));
    let (mut f, _) = ProjectFlow::start("acme".to_string(), "CORE".to_string(), 5, ProjectRequest::Delete { confirm: confirm("Core", "WEB") });
    f.step(ProjectEvent::OrgFound(Some(Some(3))));
    f.step(ProjectEvent::ProjectFound(Some(Some(project_row(1, "CORE", "Core")))));
    assert!(matches!(
        f.step(ProjectEvent::PermissionChecked(Some(true))),
        ProjectAction::Respond(Err(AppError::BadRequest(Some("confirmation does not match project name or key"))))
    ));
    let (mut f, _) = ProjectFlow::start("acme".to_string(), "CORE".to_string(), 5, ProjectRequest::Delete { confirm: confirm("Core", "core") });
    f.step(ProjectEvent::OrgFound(Some(Some(3))));
    f.step(ProjectEvent::ProjectFound(Some(Some(project_row(1, "CORE", "Core")))));
    assert!(matches!(f.step(ProjectEvent::PermissionChecked(Some(true))), ProjectAction::Delete { project_id: 1 }));
    assert!(matches!(f.step(ProjectEvent::Deleted(Some(1))), ProjectAction::Respond(Ok(ProjectReply::Done))));
    let (mut f, _) = ProjectFlow::start("acme".to_string(), "CORE".to_string(), 5, ProjectRequest::Delete { confirm: confirm("Core", "core") });
    f.step(ProjectEvent::OrgFound(Some(Some(3))));
    f.step(ProjectEvent::ProjectFound(Some(Some(project_row(1, "CORE", "Core")))));
    assert!(matches!(f.step(ProjectEvent::PermissionChecked(Some(false))), ProjectAction::Respond(Err(AppError::Forbidden))));
}

#[test]
fn create_project_key_rules() {
    let req = |k: &str| CreateProjectRequest { project_key: k.to_string(), name: "Core".to_string(), description: Some("d".to_string()) };
    let (_, a) = CreateProjectFlow::start(3, 5, req("c"));
    assert!(matches!(a, CreateProjectAction::Respond(Err(AppError::BadRequest(Some("invalid project_key"))))));
    let (_, a) = CreateProjectFlow::start(3, 5, req("corexyz"));
    assert!(matches!(a, CreateProjectAction::Respond(Err(AppError::BadRequest(Some("invalid project_key"))))));
    let (mut f, a) = CreateProjectFlow::start(3, 5, req("core"));
    assert!(matches!(a, CreateProjectAction::CheckAdmin { org_id: 3, user_id: 5 }));
    match f.step(CreateProjectEvent::AdminChecked(Some(true))) {
        CreateProjectAction::Insert { org_id, project_key, name, description } => {
            assert_eq!(org_id, 3);
            assert_eq!(project_key, "CORE");
            assert_eq!(name, "Core");
            assert_eq!(description.as_deref(), Some("d"));
        },
        _ => panic!("expected an insert"),
    }
    assert!(matches!(f.step(CreateProjectEvent::Inserted(Some((1, "CORE".to_string(), "Core".to_string())))), CreateProjectAction::SeedStatuses { project_id: 1 }));
    assert!(matches!(f.step(CreateProjectEvent::Seeded(true)), CreateProjectAction::AddManager { project_id: 1, user_id: 5 }));
    assert!(matches!(f.step(CreateProjectEvent::ManagerAdded(true)), CreateProjectAction::Commit));
    match f.step(CreateProjectEvent::Committed(true)) {
        CreateProjectAction::Respond(Ok(r)) => assert_eq!(r.project_key, "CORE"),
        _ => panic!("expected the project"),
    }
    let (mut f, _) = CreateProjectFlow::start(3, 5, req("core"));
    assert!(matches!(f.step(CreateProjectEvent::AdminChecked(Some(false))), CreateProjectAction::Respond(Err(AppError::Forbidden))));
    let (mut f, _) = CreateProjectFlow::start(3, 5, req("core"));
    f.step(CreateProjectEvent::AdminChecked(Some(true)));
    assert!(matches!(f.step(CreateProjectEvent::Inserted(None)), CreateProjectAction::Respond(Err(AppError::BadRequest(None)))));
}

#[test]
fn project_members() {
    let (mut f, _) = ListMembersFlow::start("acme".to_string(), "core".to_string(), 5);
    match f.step(ListMembersEvent::OrgFound(Some(Some(3)))) {
        ListMembersAction::FindProject { project_key, .. } => assert_eq!(project_key, "CORE"),
        _ => panic!("expected the project"),
    }
    assert!(matches!(f.step(ListMembersEvent::ProjectFound(Some(Some(1)))), ListMembersAction::CheckMember { project_id: 1, user_id: 5 }));
    assert!(matches!(f.step(ListMembersEvent::MemberChecked(Some(true))), ListMembersAction::FetchMembers { project_id: 1 }));
    let rows = vec![ProjectMemberRow { user_id: 5, project_role: "manager".to_string(), email: "a@b.c".to_string(), name: "Ann".to_string() }];
    match f.step(ListMembersEvent::RowsFetched(Some(rows))) {
        ListMembersAction::Respond(Ok(r)) => {
            assert_eq!(r.items.len(), 1);
            assert_eq!(r.items[0].project_role, "manager");
        },
        _ => panic!("expected the members"),
    }
    let (mut f, _) = ListMembersFlow::start("acme".to_string(), "core".to_string(), 5);
    f.step(ListMembersEvent::OrgFound(Some(Some(3))));
    f.step(ListMembersEvent::ProjectFound(Some(Some(1))));
    assert!(matches!(f.step(ListMembersEvent::MemberChecked(Some(false))), ListMembersAction::Respond(Err(AppError::Forbidden))));
}

#[test]
fn event_actors_fill_missing_fields() {
    assert!(event_actor(None, Some("x".to_string()), None).is_none());
    let a = event_actor(Some(5), None, None).unwrap();
    assert_eq!((a.user_id, a.name.as_str(), a.email.as_str()), (5, "Unknown", ""));
    let a = event_actor(Some(5), Some("Ann".to_string()), Some("a@b.c".to_string())).unwrap();
    assert_eq!((a.name.as_str(), a.email.as_str()), ("Ann", "a@b.c"));
}

fn payload() -> serde_json::Value {
    let mut m = serde_json::Map::new();
    m.insert("assignee_id".to_string(), serde_json::Value::String("x".to_string()));
    serde_json::Value::Object(m)
}

fn event(id: u128, actor: Option<u128>) -> EventRow {
    EventRow {
        id,
        event_type: "assigned".to_string(),
        created_at: 99,
        actor_id: actor,
        actor_name: None,
        actor_email: Some("a@b.c".to_string()),
        payload: payload(),
    }
}

#[test]
fn event_log_in_order() {
    let items = event_items(vec![event(1, Some(5)), event(2, None)]);
    assert_eq!(items.len(), 2);
    assert_eq!(items[0].event_id, 1);
    assert_eq!(items[0].actor.as_ref().unwrap().name, "Unknown");
    assert!(items[1].actor.is_none());
    assert_eq!(items[1].payload["assignee_id"], "x");
}

#[test]
fn event_log_flow() {
    let (_, a) = ListEventsFlow::start("acme".to_string(), "bad", 5);
    assert!(matches!(a, ListEventsAction::Respond(Err(AppError::BadRequest(Some("invalid issue key"))))));
    let (mut f, _) = ListEventsFlow::start("acme".to_string(), "CORE-4", 5);
    match f.step(ListEventsEvent::OrgFound(Some(Some(3)))) {
        ListEventsAction::ResolveIssue { org_id, project_key, key_seq } => {
            assert_eq!((org_id, project_key.as_str(), key_seq), (3, "CORE", 4));
        },
        _ => panic!("expected the issue"),
    }
    assert!(matches!(
        f.step(ListEventsEvent::IssueResolved(Some(Some(IssueIdRow { issue_id: 100, project_id: 1 })))),
        ListEventsAction::CheckMember { project_id: 1, user_id: 5 }
    ));
    assert!(matches!(f.step(ListEventsEvent::MemberChecked(Some(true))), ListEventsAction::FetchEvents { issue_id: 100 }));
    match f.step(ListEventsEvent::RowsFetched(Some(vec![event(1, Some(5))]))) {
        ListEventsAction::Respond(Ok(r)) => assert_eq!(r.items.len(), 1),
        _ => panic!("expected the log"),
    }
    let (mut f, _) = ListEventsFlow::start("acme".to_string(), "CORE-4", 5);
    f.step(ListEventsEvent::OrgFound(Some(Some(3))));
    f.step(ListEventsEvent::IssueResolved(Some(Some(IssueIdRow { issue_id: 100, project_id: 1 }))));
    assert!(matches!(f.step(ListEventsEvent::MemberChecked(Some(false))), ListEventsAction::Respond(Err(AppError::Forbidden))));
}
