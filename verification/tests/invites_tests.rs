use koro_api::error::AppError;
use koro_api::invites::{
    invite_url, invite_view, AcceptInviteAction, AcceptInviteEvent, AcceptInviteFlow, AcceptInviteInput,
    CreateInviteAction, CreateInviteEvent, CreateInviteFlow, CreateInviteRequest, ExistingUserAuthRow, InvitePreviewRow,
    LockedInviteRow, INVITE_TTL_MICROS,
};

const NOW: i64 = 1_700_000_000_000_000;

#[test]
fn invite_links() {
    assert_eq!(invite_url("tok123"), "http://localhost:3001/invites/tok123");
}

#[test]
fn invite_expiry_in_rfc3339() {
    let v = invite_view(Some(preview(1_662_921_288_000_000, None)), 0).ok().unwrap();
    assert_eq!(v.expires_at, "2022-09-11T18:34:48+00:00");
    assert_eq!(invite_view(Some(preview(i64::MAX, None)), 0).err(), Some(AppError::Internal));
}

#[test]
fn create_invite_expires_in_a_week() {
    let req = CreateInviteRequest { email: "b@x.io".to_string(), role: "member".to_string() };
    let (mut f, a) = CreateInviteFlow::start(3, 5, req, "raw".to_string(), "hash".to_string(), NOW);
    assert!(matches!(a, CreateInviteAction::CheckAdmin { org_id: 3, user_id: 5 }));
    match f.step(CreateInviteEvent::AdminChecked(Some(true))) {
        CreateInviteAction::Insert { email, role, token_hash, expires_at, invited_by, .. } => {
            assert_eq!(email, "b@x.io");
            assert_eq!(role, "member");
            assert_eq!(token_hash, "hash");
            assert_eq!(expires_at, NOW + INVITE_TTL_MICROS);
            assert_eq!(expires_at - NOW, 7 * 24 * 3600 * 1_000_000);
            assert_eq!(invited_by, 5);
        },
        _ => panic!("expected an insert"),
    }
    match f.step(CreateInviteEvent::Inserted(true)) {
        CreateInviteAction::Respond(Ok(r)) => assert_eq!(r.invite_url, "http://localhost:3001/invites/raw"),
        _ => panic!("expected the link"),
    }
}

#[test]
fn create_invite_refusals() {
    let req = || CreateInviteRequest { email: "b@x.io".to_string(), role: "member".to_string() };
    let (mut f, _) = CreateInviteFlow::start(3, 5, req(), "raw".to_string(), "hash".to_string(), NOW);
    assert!(matches!(f.step(CreateInviteEvent::AdminChecked(Some(false))), CreateInviteAction::Respond(Err(AppError::Forbidden))));
    let (mut f, _) = CreateInviteFlow::start(3, 5, req(), "raw".to_string(), "hash".to_string(), NOW);
    f.step(CreateInviteEvent::AdminChecked(Some(true)));
    assert!(matches!(f.step(CreateInviteEvent::Inserted(false)), CreateInviteAction::Respond(Err(AppError::BadRequest(None)))));
}

fn preview(expires_at: i64, used_at: Option<i64>) -> InvitePreviewRow {
    InvitePreviewRow {
        email: "b@x.io".to_string(),
        invited_role: "member".to_string(),
        expires_at,
        used_at,
        org_name: "Acme".to_string(),
    }
}

#[test]
fn invite_view_answers() {
    assert_eq!(invite_view(None, NOW).err(), Some(AppError::NotFound));
    assert_eq!(invite_view(Some(preview(NOW - 1, None)), NOW).err(), Some(AppError::NotFound));
    assert_eq!(invite_view(Some(preview(NOW + 10, Some(NOW - 5))), NOW).err(), Some(AppError::NotFound));
    let v = invite_view(Some(preview(0, None)), -1).ok().unwrap();
    assert_eq!(v.org_name, "Acme");
    assert_eq!(v.role, "member");
    assert_eq!(v.expires_at, "1970-01-01T00:00:00+00:00");
    assert!(invite_view(Some(preview(NOW, None)), NOW).is_ok());
}

fn locked(expires_at: i64, used_at: Option<i64>) -> LockedInviteRow {
    LockedInviteRow {
        id: 77,
        org_id: 3,
        email: "b@x.io".to_string(),
        invited_role: "member".to_string(),
        expires_at,
        used_at,
    }
}

fn input(password: &str) -> AcceptInviteInput {
    AcceptInviteInput { name: "Bea".to_string(), password: password.to_string() }
}

#[test]
fn accept_invite_new_user() {
    let (_, a) = AcceptInviteFlow::start("hash".to_string(), input("short"), NOW);
    assert!(matches!(a, AcceptInviteAction::Respond(Err(AppError::BadRequest(Some("password must be at least 8 chars"))))));
    let (mut f, a) = AcceptInviteFlow::start("hash".to_string(), input("password1"), NOW);
    assert!(matches!(a, AcceptInviteAction::FetchInvite { .. }));
    match f.step(AcceptInviteEvent::InviteFound(Some(Some(locked(NOW + 1, None))))) {
        AcceptInviteAction::FindUser { email } => assert_eq!(email, "b@x.io"),
        _ => panic!("expected a lookup"),
    }
    match f.step(AcceptInviteEvent::UserFound(Some(None))) {
        AcceptInviteAction::CreateUser { email, name } => {
            assert_eq!(email, "b@x.io");
            assert_eq!(name, "Bea");
        },
        _ => panic!("expected a new account"),
    }
    assert!(matches!(f.step(AcceptInviteEvent::UserCreated(Some(9))), AcceptInviteAction::HashPassword { .. }));
    assert!(matches!(f.step(AcceptInviteEvent::PasswordHashed(Some("h".to_string()))), AcceptInviteAction::SetPassword { user_id: 9, .. }));
    match f.step(AcceptInviteEvent::PasswordSet(true)) {
        AcceptInviteAction::AddMember { org_id, user_id, role } => {
            assert_eq!((org_id, user_id), (3, 9));
            assert_eq!(role, "member");
        },
        _ => panic!("expected a membership"),
    }
    assert!(matches!(f.step(AcceptInviteEvent::MemberAdded(true)), AcceptInviteAction::MarkUsed { invite_id: 77 }));
    assert!(matches!(f.step(AcceptInviteEvent::MarkedUsed(true)), AcceptInviteAction::Commit));
    match f.step(AcceptInviteEvent::Committed(true)) {
        AcceptInviteAction::Respond(Ok(r)) => {
            assert_eq!((r.user_id, r.org_id), (9, 3));
            assert_eq!(r.org_role, "member");
        },
        _ => panic!("expected the membership"),
    }
}

#[test]
fn accept_invite_existing_user_with_password_skips_hashing() {
    let (mut f, _) = AcceptInviteFlow::start("hash".to_string(), input("password1"), NOW);
    f.step(AcceptInviteEvent::InviteFound(Some(Some(locked(NOW, None)))));
    let existing = ExistingUserAuthRow { id: 12, password_hash: Some("old".to_string()) };
    assert!(matches!(f.step(AcceptInviteEvent::UserFound(Some(Some(existing)))), AcceptInviteAction::AddMember { user_id: 12, .. }));

    let (mut f, _) = AcceptInviteFlow::start("hash".to_string(), input("password1"), NOW);
    f.step(AcceptInviteEvent::InviteFound(Some(Some(locked(NOW, None)))));
    let existing = ExistingUserAuthRow { id: 12, password_hash: None };
    assert!(matches!(f.step(AcceptInviteEvent::UserFound(Some(Some(existing)))), AcceptInviteAction::HashPassword { .. }));
}

#[test]
fn accept_invite_refusals() {
    let (mut f, _) = AcceptInviteFlow::start("hash".to_string(), input("password1"), NOW);
    assert!(matches!(f.step(AcceptInviteEvent::InviteFound(Some(None))), AcceptInviteAction::Respond(Err(AppError::NotFound))));
    let (mut f, _) = AcceptInviteFlow::start("hash".to_string(), input("password1"), NOW);
    assert!(matches!(f.step(AcceptInviteEvent::InviteFound(Some(Some(locked(NOW - 1, None))))), AcceptInviteAction::Respond(Err(AppError::NotFound))));
    let (mut f, _) = AcceptInviteFlow::start("hash".to_string(), input("password1"), NOW);
    assert!(matches!(
        f.step(AcceptInviteEvent::InviteFound(Some(Some(locked(NOW + 1, Some(NOW - 9)))))),
        AcceptInviteAction::Respond(Err(AppError::NotFound))
    ));
    let (mut f, _) = AcceptInviteFlow::start("hash".to_string(), input("password1"), NOW);
    f.step(AcceptInviteEvent::InviteFound(Some(Some(locked(NOW + 1, None)))));
    assert!(matches!(f.step(AcceptInviteEvent::UserFound(None)), AcceptInviteAction::Respond(Err(AppError::Internal))));
}
