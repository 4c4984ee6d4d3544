use koro_api::accounts::{
    CreateOrgInput, GetMeAction, GetMeEvent, GetMeFlow, OrgAction, OrgEvent, OrgFlow, OrgMembershipRow, OrgReply,
    SetupAction, SetupEvent, SetupFlow, SetupRequest, UserRow,
};
use koro_api::auth::{
    bearer_token, claims_user, token_claims, user_id_from_headers, AuthTokensResponse, Claims, TokenPair, TokenType,
    ACCESS_TOKEN_TTL_SECS, REFRESH_TOKEN_TTL_SECS,
};
use koro_api::auth_flows::{AuthAction, AuthEvent, AuthFlow, InsertUserOutcome, LoginUserRow};
use koro_api::auth::{LoginInput, SignupInput};
use koro_api::error::AppError;

const USER: u128 = 0x550e8400e29b41d4a716446655440000;

#[test]
fn claims_carry_user_and_expiry() {
    let c = token_claims(USER, 1_700_000_000, TokenType::Access);
    assert_eq!(c.sub, "550e8400-e29b-41d4-a716-446655440000");
    assert_eq!(c.exp, 1_700_000_000 + ACCESS_TOKEN_TTL_SECS as usize);
    assert_eq!(c.token_type, TokenType::Access);
    let r = token_claims(USER, 1_700_000_000, TokenType::Refresh);
    assert_eq!(r.exp, 1_700_000_000 + REFRESH_TOKEN_TTL_SECS as usize);
    assert_eq!(claims_user(&c, TokenType::Access), Ok(USER));
    assert_eq!(claims_user(&r, TokenType::Refresh), Ok(USER));
}

#[test]
fn claims_of_wrong_type_or_subject_refused() {
    let c = token_claims(USER, 1_700_000_000, TokenType::Access);
    assert_eq!(claims_user(&c, TokenType::Refresh), Err(AppError::Unauthorized));
    let bad = Claims { sub: "nobody".to_string(), exp: 0, token_type: TokenType::Access };
    assert_eq!(claims_user(&bad, TokenType::Access), Err(AppError::Unauthorized));
}

#[test]
fn bearer_prefix() {
    assert_eq!(bearer_token("Bearer abc.def"), Some("abc.def"));
    assert_eq!(bearer_token("Bearer "), Some(""));
    assert_eq!(bearer_token("bearer abc"), None);
    assert_eq!(bearer_token("Basic abc"), None);
    assert_eq!(bearer_token("Bear"), None);
}

#[test]
fn user_header() {
    assert_eq!(user_id_from_headers(Some("550e8400-e29b-41d4-a716-446655440000")), Ok(USER));
    assert_eq!(user_id_from_headers(Some("x")), Err(AppError::Unauthorized));
    assert_eq!(user_id_from_headers(None), Err(AppError::Unauthorized));
}

#[test]
fn token_pair_becomes_response() {
    let r = AuthTokensResponse::from(TokenPair { access_token: "a".to_string(), refresh_token: "r".to_string() });
    assert_eq!(r.access_token, "a");
    assert_eq!(r.refresh_token, "r");
}

#[test]
fn login_needs_matching_password() {
    let (mut f, a) = AuthFlow::login(LoginInput { email: "a@b.c".to_string(), password: "secret123".to_string() });
    match a {
        AuthAction::FindLoginUser { email } => assert_eq!(email, "a@b.c"),
        _ => panic!("expected a lookup"),
    }
    let row = LoginUserRow { id: USER, password_hash: Some("h".to_string()) };
    match f.step(AuthEvent::LoginUserFound(Some(Some(row)))) {
        AuthAction::VerifyPassword { password, password_hash } => {
            assert_eq!(password, "secret123");
            assert_eq!(password_hash, "h");
        },
        _ => panic!("expected a verification"),
    }
    assert!(matches!(f.step(AuthEvent::PasswordVerified(Some(true))), AuthAction::IssueTokens { user_id: USER }));
    let pair = TokenPair { access_token: "a".to_string(), refresh_token: "r".to_string() };
    match f.step(AuthEvent::TokensIssued(Some(pair))) {
        AuthAction::Respond(Ok(t)) => assert_eq!(t.access_token, "a"),
        _ => panic!("expected tokens"),
    }
}

#[test]
fn login_refusals() {
    let input = || LoginInput { email: "a@b.c".to_string(), password: "secret123".to_string() };
    let (mut f, _) = AuthFlow::login(input());
    assert!(matches!(f.step(AuthEvent::LoginUserFound(Some(None))), AuthAction::Respond(Err(AppError::Unauthorized))));
    let (mut f, _) = AuthFlow::login(input());
    let row = LoginUserRow { id: USER, password_hash: None };
    assert!(matches!(f.step(AuthEvent::LoginUserFound(Some(Some(row)))), AuthAction::Respond(Err(AppError::Unauthorized))));
    let (mut f, _) = AuthFlow::login(input());
    let row = LoginUserRow { id: USER, password_hash: Some("h".to_string()) };
    f.step(AuthEvent::LoginUserFound(Some(Some(row))));
    assert!(matches!(f.step(AuthEvent::PasswordVerified(Some(false))), AuthAction::Respond(Err(AppError::Unauthorized))));
    let (mut f, _) = AuthFlow::login(input());
    assert!(matches!(f.step(AuthEvent::LoginUserFound(None)), AuthAction::Respond(Err(AppError::Internal))));
}

#[test]
fn signup_normalises_and_reports_taken_email() {
    let input = SignupInput { email: "  Ann@Example.COM ".to_string(), name: " Ann ".to_string(), password: "password".to_string() };
    let (mut f, a) = AuthFlow::signup(input);
    assert!(matches!(a, AuthAction::HashPassword { .. }));
    match f.step(AuthEvent::PasswordHashed(Some("hash".to_string()))) {
        AuthAction::InsertUser { email, name, password_hash } => {
            assert_eq!(email, "ann@example.com");
            assert_eq!(name, "Ann");
            assert_eq!(password_hash, "hash");
        },
        _ => panic!("expected an insert"),
    }
    assert!(matches!(
        f.step(AuthEvent::UserInserted(InsertUserOutcome::EmailTaken)),
        AuthAction::Respond(Err(AppError::Conflict(Some("email already registered"))))
    ));
}

#[test]
fn signup_refusals() {
    let (_, a) = AuthFlow::signup(SignupInput { email: "a@b.c".to_string(), name: "Ann".to_string(), password: "short".to_string() });
    assert!(matches!(a, AuthAction::Respond(Err(AppError::BadRequest(Some("password must be at least 8 chars"))))));
    let (_, a) = AuthFlow::signup(SignupInput { email: "a@b.c".to_string(), name: "   ".to_string(), password: "longenough".to_string() });
    assert!(matches!(a, AuthAction::Respond(Err(AppError::BadRequest(Some("name is required"))))));
    let (_, a) = AuthFlow::signup(SignupInput { email: "a@b.c".to_string(), name: "Ann".to_string(), password: "ééé4".to_string() });
    assert!(matches!(a, AuthAction::Respond(Err(AppError::BadRequest(Some("password must be at least 8 chars"))))));
    let (_, a) = AuthFlow::signup(SignupInput { email: "a@b.c".to_string(), name: "Ann".to_string(), password: "éééé".to_string() });
    assert!(matches!(a, AuthAction::HashPassword { .. }));
}

#[test]
fn refresh_needs_refresh_token_of_active_user() {
    let (_, a) = AuthFlow::refresh(None);
    assert!(matches!(a, AuthAction::Respond(Err(AppError::Unauthorized))));
    let (_, a) = AuthFlow::refresh(Some(token_claims(USER, 1_700_000_000, TokenType::Access)));
    assert!(matches!(a, AuthAction::Respond(Err(AppError::Unauthorized))));
    let (mut f, a) = AuthFlow::refresh(Some(token_claims(USER, 1_700_000_000, TokenType::Refresh)));
    assert!(matches!(a, AuthAction::FindActiveUser { user_id: USER }));
    assert!(matches!(f.step(AuthEvent::ActiveUserFound(Some(None))), AuthAction::Respond(Err(AppError::Unauthorized))));
    let (mut f, _) = AuthFlow::refresh(Some(token_claims(USER, 1_700_000_000, TokenType::Refresh)));
    assert!(matches!(f.step(AuthEvent::ActiveUserFound(Some(Some(USER)))), AuthAction::IssueTokens { user_id: USER }));
}

#[test]
fn me_lists_organizations() {
    let (mut f, a) = GetMeFlow::start(USER);
    assert!(matches!(a, GetMeAction::FindUser { user_id: USER }));
    let user = UserRow { id: USER, email: "a@b.c".to_string(), name: "Ann".to_string() };
    assert!(matches!(f.step(GetMeEvent::UserFound(Some(Some(user)))), GetMeAction::FetchOrgs { user_id: USER }));
    let rows = vec![OrgMembershipRow { id: 3, name: "Acme".to_string(), slug: "acme".to_string(), org_role: "admin".to_string() }];
    match f.step(GetMeEvent::OrgsFetched(Some(rows))) {
        GetMeAction::Respond(Ok(me)) => {
            assert_eq!(me.email, "a@b.c");
            assert_eq!(me.organizations.len(), 1);
            assert_eq!(me.organizations[0].role, "admin");
        },
        _ => panic!("expected the account"),
    }
    let (mut f, _) = GetMeFlow::start(USER);
    assert!(matches!(f.step(GetMeEvent::UserFound(Some(None))), GetMeAction::Respond(Err(AppError::NotFound))));
}

#[test]
fn setup_only_on_empty_platform() {
    let req = |p: &str| SetupRequest { email: "root@x.io".to_string(), name: "Root".to_string(), password: p.to_string() };
    let (_, a) = SetupFlow::start(req("short"));
    assert!(matches!(a, SetupAction::Respond(Err(AppError::BadRequest(Some("password must be at least 8 chars"))))));
    let (mut f, a) = SetupFlow::start(req("long enough"));
    assert!(matches!(a, SetupAction::CountUsers));
    assert!(matches!(f.step(SetupEvent::UsersCounted(Some(2))), SetupAction::Respond(Err(AppError::Forbidden))));
    let (mut f, _) = SetupFlow::start(req("long enough"));
    assert!(matches!(f.step(SetupEvent::UsersCounted(Some(0))), SetupAction::HashPassword { .. }));
    assert!(matches!(f.step(SetupEvent::PasswordHashed(Some("h".to_string()))), SetupAction::InsertAdmin { .. }));
    assert!(matches!(f.step(SetupEvent::AdminInserted(Some((USER, "root@x.io".to_string())))), SetupAction::Commit));
    match f.step(SetupEvent::Committed(true)) {
        SetupAction::Respond(Ok(r)) => {
            assert_eq!(r.user_id, USER);
            assert_eq!(r.platform_role, "platform_admin");
        },
        _ => panic!("expected the admin"),
    }
}

#[test]
fn organizations_created_and_renamed() {
    let (mut f, a) = OrgFlow::create(USER, CreateOrgInput { name: "Acme", slug: "acme" });
    assert!(matches!(a, OrgAction::Insert { created_by: USER, .. }));
    assert!(matches!(
        f.step(OrgEvent::Inserted(Some((3, "Acme".to_string(), "acme".to_string())))),
        OrgAction::AddAdminMember { org_id: 3, user_id: USER }
    ));
    assert!(matches!(f.step(OrgEvent::AdminMemberAdded(true)), OrgAction::Commit));
    match f.step(OrgEvent::Committed(true)) {
        OrgAction::Respond(Ok(OrgReply::Created(r))) => assert_eq!(r.slug, "acme"),
        _ => panic!("expected the organization"),
    }
    let (mut f, _) = OrgFlow::create(USER, CreateOrgInput { name: "Acme", slug: "acme" });
    assert!(matches!(f.step(OrgEvent::Inserted(None)), OrgAction::Respond(Err(AppError::BadRequest(None)))));

    let (_, a) = OrgFlow::rename("acme".to_string(), USER, "   ");
    assert!(matches!(a, OrgAction::Respond(Err(AppError::BadRequest(Some("name is required"))))));
    let long = "x".repeat(201);
    let (_, a) = OrgFlow::rename("acme".to_string(), USER, &long);
    assert!(matches!(a, OrgAction::Respond(Err(AppError::BadRequest(Some("name is too long"))))));
    let (mut f, _) = OrgFlow::rename("acme".to_string(), USER, "  Acme Inc ");
    f.step(OrgEvent::OrgFound(Some(Some(3))));
    match f.step(OrgEvent::AdminChecked(Some(true))) {
        OrgAction::Rename { org_id, name } => {
            assert_eq!(org_id, 3);
            assert_eq!(name, "Acme Inc");
        },
        _ => panic!("expected a rename"),
    }
    assert!(matches!(f.step(OrgEvent::Renamed(Some(None))), OrgAction::Respond(Err(AppError::NotFound))));
    let (mut f, _) = OrgFlow::rename("acme".to_string(), USER, "Acme");
    f.step(OrgEvent::OrgFound(Some(Some(3))));
    assert!(matches!(f.step(OrgEvent::AdminChecked(Some(false))), OrgAction::Respond(Err(AppError::Forbidden))));
}
