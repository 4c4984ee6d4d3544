use koro_api::error::AppError;
use koro_api::issue_lists::ProjectRef;
use koro_api::workflow::{default_seed_entry, group_workflow_statuses, is_workflow_category, workflow_category, WorkflowStatusRow};
use koro_api::workflow_edits::{
    DeleteStatusAction, DeleteStatusEvent, DeleteStatusFlow, DeleteWorkflowStatusQuery, PatchStatusAction, PatchStatusEvent,
    PatchStatusFlow, PatchWorkflowStatusRequest,
};
use koro_api::workflow_flows::{
    CreateStatusAction, CreateStatusEvent, CreateStatusFlow, CreateWorkflowStatusRequest, ListStatusesAction,
    ListStatusesEvent, ListStatusesFlow,
};

fn row(id: u128, project_id: u128, category: &str, name: &str, slug: &str, position: i32, is_default: bool) -> WorkflowStatusRow {
    WorkflowStatusRow {
        id,
        project_id,
        category: category.to_string(),
        name: name.to_string(),
        slug: slug.to_string(),
        position,
        is_default,
        created_at: 0,
    }
}

fn project(id: u128) -> Option<Option<ProjectRef>> {
    Some(Some(ProjectRef { id, project_key: "KORO".to_string() }))
}

#[test]
fn categories_in_board_order() {
    let names: Vec<&str> = (0..5).map(workflow_category).collect();
    assert_eq!(names, vec!["backlog", "unstarted", "started", "completed", "canceled"]);
    assert!(is_workflow_category("started"));
    assert!(!is_workflow_category("Started"));
    assert!(!is_workflow_category("done"));
}

#[test]
fn default_seed_has_one_default() {
    let defaults: Vec<_> = (0..5).map(default_seed_entry).filter(|e| e.4).collect();
    assert_eq!(defaults.len(), 1);
    assert_eq!(defaults[0].0, "backlog");
    assert_eq!(defaults[0].2, "backlog");
}

#[test]
fn statuses_grouped_by_category() {
    let rows = vec![
        row(1, 9, "started", "Doing", "doing", 0, false),
        row(2, 9, "backlog", "Ideas", "ideas", 0, false),
        row(3, 9, "started", "Review", "review", 1, false),
    ];
    let r = group_workflow_statuses(&rows);
    assert_eq!(r.groups.len(), 5);
    assert_eq!(r.groups[0].category, "backlog");
    assert_eq!(r.groups[0].statuses.len(), 1);
    assert_eq!(r.groups[0].statuses[0].slug, "ideas");
    assert_eq!(r.groups[2].category, "started");
    assert_eq!(r.groups[2].statuses.len(), 2);
    assert_eq!(r.groups[2].statuses[0].name, "Doing");
    assert_eq!(r.groups[2].statuses[1].name, "Review");
    assert!(r.groups[1].statuses.is_empty());
}

#[test]
fn listing_statuses_needs_membership() {
    let (mut f, a) = ListStatusesFlow::start("acme".to_string(), "KORO".to_string(), 5);
    assert!(matches!(a, ListStatusesAction::FindProject { .. }));
    let a = f.step(ListStatusesEvent::ProjectFound(project(9)));
    assert!(matches!(a, ListStatusesAction::CheckMember { project_id: 9, user_id: 5 }));
    let a = f.step(ListStatusesEvent::MemberChecked(Some(false)));
    assert!(matches!(a, ListStatusesAction::Respond(Err(AppError::Forbidden))));
}

#[test]
fn create_status_refuses_bad_input() {
    let req = CreateWorkflowStatusRequest { category: "done".to_string(), name: "x".to_string(), slug: None };
    let (_, a) = CreateStatusFlow::start("acme".to_string(), "KORO".to_string(), 5, req);
    assert!(matches!(a, CreateStatusAction::Respond(Err(AppError::BadRequest(Some("invalid category"))))));
    let req = CreateWorkflowStatusRequest { category: "started".to_string(), name: "  ".to_string(), slug: None };
    let (_, a) = CreateStatusFlow::start("acme".to_string(), "KORO".to_string(), 5, req);
    assert!(matches!(a, CreateStatusAction::Respond(Err(AppError::BadRequest(Some("name is required"))))));
}

#[test]
fn create_status_numbers_taken_slugs() {
    let req = CreateWorkflowStatusRequest { category: "started".to_string(), name: " In Review ".to_string(), slug: None };
    let (mut f, _) = CreateStatusFlow::start("acme".to_string(), "KORO".to_string(), 5, req);
    let a = f.step(CreateStatusEvent::ProjectFound(project(9)));
    assert!(matches!(a, CreateStatusAction::CheckPermission { project_id: 9, user_id: 5 }));
    let a = f.step(CreateStatusEvent::PermissionChecked(Some(true)));
    match a {
        CreateStatusAction::CheckSlug { project_id, slug } => {
            assert_eq!(project_id, 9);
            assert_eq!(slug, "in_review");
        },
        _ => panic!("expected a slug check"),
    }
    let a = f.step(CreateStatusEvent::SlugChecked(Some(true)));
    match a {
        CreateStatusAction::CheckSlug { slug, .. } => assert_eq!(slug, "in_review_1"),
        _ => panic!("expected a slug check"),
    }
    let a = f.step(CreateStatusEvent::SlugChecked(Some(true)));
    match a {
        CreateStatusAction::CheckSlug { slug, .. } => assert_eq!(slug, "in_review_2"),
        _ => panic!("expected a slug check"),
    }
    let a = f.step(CreateStatusEvent::SlugChecked(Some(false)));
    assert!(matches!(a, CreateStatusAction::FindMaxPosition { project_id: 9, .. }));
    let a = f.step(CreateStatusEvent::MaxPosition(Some(Some(3))));
    match a {
        CreateStatusAction::Insert(n) => {
            assert_eq!(n.slug, "in_review_2");
            assert_eq!(n.name, "In Review");
            assert_eq!(n.position, 4);
            assert_eq!(n.category, "started");
            assert!(!n.is_default);
        },
        _ => panic!("expected an insert"),
    }
    let a = f.step(CreateStatusEvent::Inserted(Some(row(77, 9, "started", "In Review", "in_review_2", 4, false))));
    match a {
        CreateStatusAction::Respond(Ok(item)) => {
            assert_eq!(item.id, 77);
            assert_eq!(item.slug, "in_review_2");
        },
        _ => panic!("expected the created status"),
    }
}

#[test]
fn create_status_first_in_category_at_zero() {
    let req = CreateWorkflowStatusRequest {
        category: "backlog".to_string(),
        name: "Ideas".to_string(),
        slug: Some("Later On".to_string()),
    };
    let (mut f, _) = CreateStatusFlow::start("acme".to_string(), "KORO".to_string(), 5, req);
    f.step(CreateStatusEvent::ProjectFound(project(9)));
    match f.step(CreateStatusEvent::PermissionChecked(Some(true))) {
        CreateStatusAction::CheckSlug { slug, .. } => assert_eq!(slug, "later_on"),
        _ => panic!("expected a slug check"),
    }
    f.step(CreateStatusEvent::SlugChecked(Some(false)));
    match f.step(CreateStatusEvent::MaxPosition(Some(None))) {
        CreateStatusAction::Insert(n) => assert_eq!(n.position, 0),
        _ => panic!("expected an insert"),
    }
}

#[test]
fn create_status_errors() {
    let req = CreateWorkflowStatusRequest { category: "backlog".to_string(), name: "Ideas".to_string(), slug: None };
    let (mut f, _) = CreateStatusFlow::start("acme".to_string(), "KORO".to_string(), 5, req);
    assert!(matches!(f.step(CreateStatusEvent::ProjectFound(Some(None))), CreateStatusAction::Respond(Err(AppError::NotFound))));
    let req = CreateWorkflowStatusRequest { category: "backlog".to_string(), name: "Ideas".to_string(), slug: None };
    let (mut f, _) = CreateStatusFlow::start("acme".to_string(), "KORO".to_string(), 5, req);
    f.step(CreateStatusEvent::ProjectFound(project(9)));
    assert!(matches!(f.step(CreateStatusEvent::PermissionChecked(Some(false))), CreateStatusAction::Respond(Err(AppError::Forbidden))));
    let req = CreateWorkflowStatusRequest { category: "backlog".to_string(), name: "Ideas".to_string(), slug: None };
    let (mut f, _) = CreateStatusFlow::start("acme".to_string(), "KORO".to_string(), 5, req);
    f.step(CreateStatusEvent::ProjectFound(project(9)));
    f.step(CreateStatusEvent::PermissionChecked(Some(true)));
    f.step(CreateStatusEvent::SlugChecked(Some(false)));
    assert!(matches!(f.step(CreateStatusEvent::MaxPosition(Some(Some(i32::MAX)))), CreateStatusAction::Respond(Err(AppError::Internal))));
}

fn patch(name: Option<&str>, slug: Option<&str>, position: Option<i32>, is_default: Option<bool>) -> PatchWorkflowStatusRequest {
    PatchWorkflowStatusRequest {
        name: name.map(|s| s.to_string()),
        slug: slug.map(|s| s.to_string()),
        position,
        is_default,
    }
}

#[test]
fn patch_status_checks_slug_and_sets_default() {
    let (mut f, a) = PatchStatusFlow::start("acme".to_string(), "KORO".to_string(), 40, 5, patch(Some("  Doing "), Some("Work Now"), Some(2), Some(true)));
    assert!(matches!(a, PatchStatusAction::FindProject { .. }));
    assert!(matches!(f.step(PatchStatusEvent::ProjectFound(project(9))), PatchStatusAction::CheckPermission { project_id: 9, user_id: 5 }));
    assert!(matches!(f.step(PatchStatusEvent::PermissionChecked(Some(true))), PatchStatusAction::FindStatus { status_id: 40 }));
    match f.step(PatchStatusEvent::CurrentFound(Some(Some(row(40, 9, "started", "Old", "old", 0, false))))) {
        PatchStatusAction::CheckSlug { project_id, slug, except } => {
            assert_eq!(project_id, 9);
            assert_eq!(slug, "work_now");
            assert_eq!(except, 40);
        },
        _ => panic!("expected a slug check"),
    }
    match f.step(PatchStatusEvent::SlugChecked(Some(false))) {
        PatchStatusAction::Update { status_id, name, slug, position } => {
            assert_eq!(status_id, 40);
            assert_eq!(name.as_deref(), Some("Doing"));
            assert_eq!(slug.as_deref(), Some("work_now"));
            assert_eq!(position, Some(2));
        },
        _ => panic!("expected an update"),
    }
    let updated = row(40, 9, "started", "Doing", "work_now", 2, false);
    assert!(matches!(f.step(PatchStatusEvent::Updated(Some(Some(updated)))), PatchStatusAction::MakeDefault { status_id: 40, project_id: 9 }));
    assert!(matches!(f.step(PatchStatusEvent::DefaultSet(true)), PatchStatusAction::Reload { status_id: 40 }));
    match f.step(PatchStatusEvent::Reloaded(Some(Some(row(40, 9, "started", "Doing", "work_now", 2, true))))) {
        PatchStatusAction::Respond(Ok(item)) => assert!(item.is_default),
        _ => panic!("expected the status"),
    }
}

#[test]
fn patch_status_refusals() {
    let (mut f, _) = PatchStatusFlow::start("acme".to_string(), "KORO".to_string(), 40, 5, patch(None, Some("x"), None, None));
    f.step(PatchStatusEvent::ProjectFound(project(9)));
    f.step(PatchStatusEvent::PermissionChecked(Some(true)));
    let other_project = row(40, 8, "started", "Old", "old", 0, false);
    assert!(matches!(f.step(PatchStatusEvent::CurrentFound(Some(Some(other_project)))), PatchStatusAction::Respond(Err(AppError::NotFound))));

    let (mut f, _) = PatchStatusFlow::start("acme".to_string(), "KORO".to_string(), 40, 5, patch(None, Some("x"), None, None));
    f.step(PatchStatusEvent::ProjectFound(project(9)));
    f.step(PatchStatusEvent::PermissionChecked(Some(true)));
    f.step(PatchStatusEvent::CurrentFound(Some(Some(row(40, 9, "started", "Old", "old", 0, false)))));
    assert!(matches!(
        f.step(PatchStatusEvent::SlugChecked(Some(true))),
        PatchStatusAction::Respond(Err(AppError::BadRequest(Some("slug already in use"))))
    ));

    let (mut f, _) = PatchStatusFlow::start("acme".to_string(), "KORO".to_string(), 40, 5, patch(None, None, Some(1), Some(false)));
    f.step(PatchStatusEvent::ProjectFound(project(9)));
    f.step(PatchStatusEvent::PermissionChecked(Some(true)));
    match f.step(PatchStatusEvent::CurrentFound(Some(Some(row(40, 9, "started", "Old", "old", 0, false))))) {
        PatchStatusAction::Update { name, slug, position, .. } => {
            assert!(name.is_none());
            assert!(slug.is_none());
            assert_eq!(position, Some(1));
        },
        _ => panic!("expected an update"),
    }
    assert!(matches!(f.step(PatchStatusEvent::Updated(Some(None))), PatchStatusAction::Respond(Err(AppError::NotFound))));
}

#[test]
fn delete_status_moves_issues_then_deletes() {
    let (mut f, _) = DeleteStatusFlow::start("acme".to_string(), "KORO".to_string(), 40, 5, DeleteWorkflowStatusQuery { reassign_to: 41 });
    f.step(DeleteStatusEvent::ProjectFound(project(9)));
    assert!(matches!(f.step(DeleteStatusEvent::PermissionChecked(Some(true))), DeleteStatusAction::FindStatus { status_id: 40 }));
    assert!(matches!(
        f.step(DeleteStatusEvent::CurrentFound(Some(Some(row(40, 9, "started", "Old", "old", 0, false))))),
        DeleteStatusAction::CheckTarget { project_id: 9, status_id: 41 }
    ));
    assert!(matches!(f.step(DeleteStatusEvent::TargetChecked(Some(true))), DeleteStatusAction::Reassign { from: 40, to: 41 }));
    assert!(matches!(f.step(DeleteStatusEvent::Reassigned(true)), DeleteStatusAction::CountIssues { status_id: 40 }));
    assert!(matches!(f.step(DeleteStatusEvent::Counted(Some(0))), DeleteStatusAction::Delete { status_id: 40 }));
    assert!(matches!(f.step(DeleteStatusEvent::Deleted(Some(1))), DeleteStatusAction::Commit));
    assert!(matches!(f.step(DeleteStatusEvent::Committed(true)), DeleteStatusAction::Respond(Ok(()))));
}

#[test]
fn delete_status_refusals() {
    let (mut f, _) = DeleteStatusFlow::start("acme".to_string(), "KORO".to_string(), 40, 5, DeleteWorkflowStatusQuery { reassign_to: 40 });
    f.step(DeleteStatusEvent::ProjectFound(project(9)));
    f.step(DeleteStatusEvent::PermissionChecked(Some(true)));
    assert!(matches!(
        f.step(DeleteStatusEvent::CurrentFound(Some(Some(row(40, 9, "started", "Old", "old", 0, false))))),
        DeleteStatusAction::Respond(Err(AppError::BadRequest(Some("reassign_to must differ from deleted status"))))
    ));

    let (mut f, _) = DeleteStatusFlow::start("acme".to_string(), "KORO".to_string(), 40, 5, DeleteWorkflowStatusQuery { reassign_to: 41 });
    f.step(DeleteStatusEvent::ProjectFound(project(9)));
    f.step(DeleteStatusEvent::PermissionChecked(Some(true)));
    f.step(DeleteStatusEvent::CurrentFound(Some(Some(row(40, 9, "started", "Old", "old", 0, false)))));
    assert!(matches!(
        f.step(DeleteStatusEvent::TargetChecked(Some(false))),
        DeleteStatusAction::Respond(Err(AppError::BadRequest(Some("reassign_to not in project"))))
    ));

    let (mut f, _) = DeleteStatusFlow::start("acme".to_string(), "KORO".to_string(), 40, 5, DeleteWorkflowStatusQuery { reassign_to: 41 });
    f.step(DeleteStatusEvent::ProjectFound(project(9)));
    f.step(DeleteStatusEvent::PermissionChecked(Some(true)));
    f.step(DeleteStatusEvent::CurrentFound(Some(Some(row(40, 9, "started", "Old", "old", 0, false)))));
    f.step(DeleteStatusEvent::TargetChecked(Some(true)));
    f.step(DeleteStatusEvent::Reassigned(true));
    assert!(matches!(
        f.step(DeleteStatusEvent::Counted(Some(2))),
        DeleteStatusAction::Respond(Err(AppError::InternalMessage("issues still on status")))
    ));

    let (mut f, _) = DeleteStatusFlow::start("acme".to_string(), "KORO".to_string(), 40, 5, DeleteWorkflowStatusQuery { reassign_to: 41 });
    f.step(DeleteStatusEvent::ProjectFound(project(9)));
    assert!(matches!(f.step(DeleteStatusEvent::PermissionChecked(Some(false))), DeleteStatusAction::Respond(Err(AppError::Forbidden))));
}
