use vstd::prelude::*;
use crate::auth::{claims_user, claims_user_of, AuthTokensResponse, Claims, LoginInput, SignupInput, TokenPair, TokenType};
use crate::error::AppError;
use crate::text::{byte_len, lowercase, to_lowercase, trim, trim_str, utf8_len};

verus! {

/// A password long enough to be set: at least 8 bytes.
pub open spec fn long_enough(password: Seq<char>) -> bool {
    utf8_len(password) >= 8
}

/// An active account found by email for a login.
pub struct LoginUserRow {
    pub id: u128,
    pub password_hash: Option<String>,
}

/// How the insertion of an account ended.
pub enum InsertUserOutcome {
    Created(u128),
    /// The email is already registered.
    EmailTaken,
    Failed,
}

/// Where a login, a sign-up or a refresh stands.
pub enum AuthStep {
    AwaitLoginUser,
    AwaitActiveUser,
    AwaitVerify { user_id: u128 },
    AwaitHash,
    AwaitInsert,
    AwaitTokens,
    Finished,
}

/// What the outside world reports back; `None` stands for a failed call.
pub enum AuthEvent {
    /// The active account with the email, for a login.
    LoginUserFound(Option<Option<LoginUserRow>>),
    /// Whether the password matches the stored hash.
    PasswordVerified(Option<bool>),
    PasswordHashed(Option<String>),
    UserInserted(InsertUserOutcome),
    /// Whether the account of a refresh is still active.
    ActiveUserFound(Option<Option<u128>>),
    TokensIssued(Option<TokenPair>),
}

/// What the authentication asks for next.
pub enum AuthAction {
    FindLoginUser { email: String },
    VerifyPassword { password: String, password_hash: String },
    HashPassword { password: String },
    InsertUser { email: String, name: String, password_hash: String },
    FindActiveUser { user_id: u128 },
    /// Signs an access token and a refresh token for the user.
    IssueTokens { user_id: u128 },
    /// Answer: `Ok` is `200 OK` (`201 Created` for a sign-up).
    Respond(Result<AuthTokensResponse, AppError>),
}

/// What is being done.
pub enum AuthKind {
    Login { input: LoginInput },
    /// A sign-up, with the trimmed lower-case email and the trimmed name.
    Signup { email: String, name: String, password: String },
    Refresh,
}

/// A login, a sign-up or a refresh.
pub struct AuthFlow {
    pub kind: AuthKind,
    pub step: AuthStep,
}

/// The answer that a pair of tokens makes.
pub open spec fn tokens_reply(pair: TokenPair) -> AuthTokensResponse {
    AuthTokensResponse { access_token: pair.access_token, refresh_token: pair.refresh_token }
}

/// The decision table of a login, a sign-up or a refresh.
pub open spec fn auth_next(before: AuthFlow, event: AuthEvent, after: AuthFlow, action: AuthAction) -> bool {
    match (before.step, event) {
        (AuthStep::AwaitLoginUser, AuthEvent::LoginUserFound(Some(found))) => match found {
            Some(row) => match row.password_hash {
                Some(h) => (after.step == AuthStep::AwaitVerify { user_id: row.id }) && (
                action matches AuthAction::VerifyPassword { password, password_hash } && password_hash@ == h@ && (
                before.kind matches AuthKind::Login { input } && password@ == input.password@)),
                None => after.step is Finished && action == AuthAction::Respond(Err(AppError::Unauthorized)),
            },
            None => after.step is Finished && action == AuthAction::Respond(Err(AppError::Unauthorized)),
        },
        (AuthStep::AwaitVerify { .. }, AuthEvent::PasswordVerified(Some(false))) => after.step is Finished && action
            == AuthAction::Respond(Err(AppError::Unauthorized)),
        (AuthStep::AwaitVerify { user_id }, AuthEvent::PasswordVerified(Some(true))) => after.step is AwaitTokens && action
            == (AuthAction::IssueTokens { user_id }),
        (AuthStep::AwaitHash, AuthEvent::PasswordHashed(Some(hash))) => match before.kind {
            AuthKind::Signup { email, name, .. } => after.step is AwaitInsert && (action matches AuthAction::InsertUser {
                email: e,
                name: n,
                password_hash,
            } && e@ == email@ && n@ == name@ && password_hash@ == hash@),
            _ => after.step is Finished && action == AuthAction::Respond(Err(AppError::Internal)),
        },
        (AuthStep::AwaitInsert, AuthEvent::UserInserted(outcome)) => match outcome {
            InsertUserOutcome::Created(user_id) => after.step is AwaitTokens && action == (AuthAction::IssueTokens {
                user_id,
            }),
            InsertUserOutcome::EmailTaken => after.step is Finished && action == AuthAction::Respond(
                Err(AppError::Conflict(Some("email already registered"))),
            ),
            InsertUserOutcome::Failed => after.step is Finished && action == AuthAction::Respond(Err(AppError::Internal)),
        },
        (AuthStep::AwaitActiveUser, AuthEvent::ActiveUserFound(Some(found))) => match found {
            Some(user_id) => after.step is AwaitTokens && action == (AuthAction::IssueTokens { user_id }),
            None => after.step is Finished && action == AuthAction::Respond(Err(AppError::Unauthorized)),
        },
        (AuthStep::AwaitTokens, AuthEvent::TokensIssued(Some(pair))) => after.step is Finished && action
            == AuthAction::Respond(Ok(tokens_reply(pair))),
        _ => after.step is Finished && action == AuthAction::Respond(Err(AppError::Internal)),
    }
}

/// Each kind of authentication goes only through its own steps.
pub open spec fn auth_inv(f: AuthFlow) -> bool {
    match f.kind {
        AuthKind::Login { .. } => f.step is AwaitLoginUser || f.step is AwaitVerify || f.step is AwaitTokens
            || f.step is Finished,
        AuthKind::Signup { .. } => f.step is AwaitHash || f.step is AwaitInsert || f.step is AwaitTokens || f.step is Finished,
        AuthKind::Refresh => f.step is AwaitActiveUser || f.step is AwaitTokens || f.step is Finished,
    }
}

impl AuthFlow {
    /// Starts a login: find the active account with the email.
    pub fn login(input: LoginInput) -> (r: (AuthFlow, AuthAction))
        ensures
            r.0.kind == (AuthKind::Login { input }),
            auth_inv(r.0),
            r.0.step is AwaitLoginUser,
            r.1 matches AuthAction::FindLoginUser { email } && email@ == input.email@,
    {
        let email = input.email.clone();
        (AuthFlow { kind: AuthKind::Login { input }, step: AuthStep::AwaitLoginUser }, AuthAction::FindLoginUser { email })
    }

    /// Starts a sign-up: a short password or a blank name is refused at once;
    /// else the password is hashed.
    pub fn signup(input: SignupInput) -> (r: (AuthFlow, AuthAction))
        ensures
            auth_inv(r.0),
            !long_enough(input.password@) ==> r.0.step is Finished && r.1 == AuthAction::Respond(
                Err(AppError::BadRequest(Some("password must be at least 8 chars"))),
            ),
            long_enough(input.password@) && trim(input.name@).len() == 0 ==> r.0.step is Finished && r.1
                == AuthAction::Respond(Err(AppError::BadRequest(Some("name is required")))),
            long_enough(input.password@) && trim(input.name@).len() > 0 ==> r.0.step is AwaitHash && (
            r.0.kind matches AuthKind::Signup { email, name, password } && email@ == lowercase(trim(input.email@)) && name@
                == trim(input.name@) && password@ == input.password@) && (r.1 matches AuthAction::HashPassword {
                password,
            } && password@ == input.password@),
    {
        if byte_len(input.password.as_str()) < 8 {
            return (
                AuthFlow { kind: AuthKind::Refresh, step: AuthStep::Finished },
                AuthAction::Respond(Err(AppError::BadRequest(Some("password must be at least 8 chars")))),
            );
        }
        let email = to_lowercase(trim_str(input.email.as_str()));
        let name = trim_str(input.name.as_str());
        if name.unicode_len() == 0 {
            return (
                AuthFlow { kind: AuthKind::Refresh, step: AuthStep::Finished },
                AuthAction::Respond(Err(AppError::BadRequest(Some("name is required")))),
            );
        }
        let name = name.to_string();
        let asked = input.password.clone();
        (
            AuthFlow { kind: AuthKind::Signup { email, name, password: input.password }, step: AuthStep::AwaitHash },
            AuthAction::HashPassword { password: asked },
        )
    }

    /// Starts a refresh, from the claims that the refresh token verified to
    /// (`None` when it did not verify): it must be a refresh token naming a
    /// user, whose account is then looked up.
    pub fn refresh(claims: Option<Claims>) -> (r: (AuthFlow, AuthAction))
        ensures
            r.0.kind is Refresh,
            auth_inv(r.0),
            match claims {
                None => r.0.step is Finished && r.1 == AuthAction::Respond(Err(AppError::Unauthorized)),
                Some(c) => match claims_user_of(c, TokenType::Refresh) {
                    Ok(user_id) => r.0.step is AwaitActiveUser && r.1 == (AuthAction::FindActiveUser { user_id }),
                    Err(e) => r.0.step is Finished && r.1 == AuthAction::Respond(Err(e)),
                },
            },
    {
        match claims {
            None => (AuthFlow { kind: AuthKind::Refresh, step: AuthStep::Finished }, AuthAction::Respond(Err(AppError::Unauthorized))),
            Some(c) => match claims_user(&c, TokenType::Refresh) {
                Ok(user_id) => (AuthFlow { kind: AuthKind::Refresh, step: AuthStep::AwaitActiveUser }, AuthAction::FindActiveUser {
                    user_id,
                }),
                Err(e) => (AuthFlow { kind: AuthKind::Refresh, step: AuthStep::Finished }, AuthAction::Respond(Err(e))),
            },
        }
    }

    /// Takes in what the outside world reports and says what to do next.
    pub fn step(&mut self, event: AuthEvent) -> (action: AuthAction)
        requires
            auth_inv(*old(self)),
        ensures
            auth_inv(*final(self)),
            final(self).kind == old(self).kind,
            auth_next(*old(self), event, *final(self), action),
    {
        let mut step = AuthStep::Finished;
        std::mem::swap(&mut step, &mut self.step);
        match (step, event) {
            (AuthStep::AwaitLoginUser, AuthEvent::LoginUserFound(Some(found))) => {
                match found {
                    Some(row) => match row.password_hash {
                        Some(h) => match &self.kind {
                            AuthKind::Login { input } => {
                                self.step = AuthStep::AwaitVerify { user_id: row.id };
                                AuthAction::VerifyPassword { password: input.password.clone(), password_hash: h }
                            },
                            _ => AuthAction::Respond(Err(AppError::Internal)),
                        },
                        None => AuthAction::Respond(Err(AppError::Unauthorized)),
                    },
                    None => AuthAction::Respond(Err(AppError::Unauthorized)),
                }
            },
            (AuthStep::AwaitVerify { .. }, AuthEvent::PasswordVerified(Some(false))) => AuthAction::Respond(
                Err(AppError::Unauthorized),
            ),
            (AuthStep::AwaitVerify { user_id }, AuthEvent::PasswordVerified(Some(true))) => {
                self.step = AuthStep::AwaitTokens;
                AuthAction::IssueTokens { user_id }
            },
            (AuthStep::AwaitHash, AuthEvent::PasswordHashed(Some(hash))) => {
                match &self.kind {
                    AuthKind::Signup { email, name, .. } => {
                        self.step = AuthStep::AwaitInsert;
                        AuthAction::InsertUser { email: email.clone(), name: name.clone(), password_hash: hash }
                    },
                    _ => AuthAction::Respond(Err(AppError::Internal)),
                }
            },
            (AuthStep::AwaitInsert, AuthEvent::UserInserted(outcome)) => {
                match outcome {
                    InsertUserOutcome::Created(user_id) => {
                        self.step = AuthStep::AwaitTokens;
                        AuthAction::IssueTokens { user_id }
                    },
                    InsertUserOutcome::EmailTaken => AuthAction::Respond(
                        Err(AppError::Conflict(Some("email already registered"))),
                    ),
                    InsertUserOutcome::Failed => AuthAction::Respond(Err(AppError::Internal)),
                }
            },
            (AuthStep::AwaitActiveUser, AuthEvent::ActiveUserFound(Some(found))) => {
                match found {
                    Some(user_id) => {
                        self.step = AuthStep::AwaitTokens;
                        AuthAction::IssueTokens { user_id }
                    },
                    None => AuthAction::Respond(Err(AppError::Unauthorized)),
                }
            },
            (AuthStep::AwaitTokens, AuthEvent::TokensIssued(Some(pair))) => AuthAction::Respond(
                Ok(AuthTokensResponse::from(pair)),
            ),
            _ => AuthAction::Respond(Err(AppError::Internal)),
        }
    }
}

/// Tokens are issued on a login only for the account found and only after its
/// password was verified to match.
pub proof fn lemma_login_tokens_need_password(before: AuthFlow, event: AuthEvent, after: AuthFlow, action: AuthAction)
    requires
        auth_inv(before),
        auth_next(before, event, after, action),
        before.kind is Login,
        action is IssueTokens,
    ensures
        before.step matches AuthStep::AwaitVerify { user_id } && action->IssueTokens_user_id == user_id,
        event == AuthEvent::PasswordVerified(Some(true)),
{
}

} // verus!
