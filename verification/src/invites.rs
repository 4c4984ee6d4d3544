use vstd::prelude::*;
use crate::auth_flows::long_enough;
use crate::error::AppError;
use crate::text::{byte_len, chars_of, string_from_chars};

verus! {

/// The invitation of an email address to an organization, with a role.
pub struct CreateInviteRequest {
    pub email: String,
    pub role: String,
}

/// Where the invited person accepts the invitation.
pub struct CreateInviteResponse {
    pub invite_url: String,
}

/// An invitation, as shown to the invited person.
pub struct GetInviteResponse {
    pub org_name: String,
    pub email: String,
    pub role: String,
    /// RFC 3339.
    pub expires_at: String,
}

/// What the invited person gives on accepting.
pub struct AcceptInviteRequest {
    pub name: String,
    pub password: String,
}

/// What the invited person gives on accepting, as the service takes it.
pub struct AcceptInviteInput {
    pub name: String,
    pub password: String,
}

/// The membership that an accepted invitation made.
pub struct AcceptInviteResponse {
    pub user_id: u128,
    pub org_id: u128,
    pub org_role: String,
}

/// An invitation, as stored, for showing. Times are in microseconds since the Unix epoch.
pub struct InvitePreviewRow {
    pub email: String,
    pub invited_role: String,
    pub expires_at: i64,
    pub used_at: Option<i64>,
    pub org_name: String,
}

/// An invitation, as stored and locked for accepting. Times are in microseconds since the Unix epoch.
pub struct LockedInviteRow {
    pub id: u128,
    pub org_id: u128,
    pub email: String,
    pub invited_role: String,
    pub expires_at: i64,
    pub used_at: Option<i64>,
}

/// An active account with the invited email.
pub struct ExistingUserAuthRow {
    pub id: u128,
    pub password_hash: Option<String>,
}

/// Where an invitation link points, before its token.
pub const INVITE_URL_PREFIX: &'static str = "http://localhost:3001/invites/";

/// How long an invitation holds: 7 days, in microseconds.
pub const INVITE_TTL_MICROS: i64 = 604800000000;

/// The last microsecond that a `chrono` date-time can hold (the end of year 262142).
pub const MAX_TIMESTAMP_MICROS: i64 = 8210266876799999999;

/// The first microsecond that a `chrono` date-time can hold (the start of year -262143).
pub const MIN_TIMESTAMP_MICROS: i64 = -8334601315200000000;

/// The text that `chrono`'s `to_rfc3339` writes for the UTC date-time this many
/// microseconds after the Unix epoch: a function of the number alone.
pub uninterp spec fn rfc3339_text(micros: i64) -> Seq<char>;

/// Calls `chrono::DateTime::<Utc>::from_timestamp_micros` and `to_rfc3339`;
/// trusted to give `rfc3339_text` of the number, and to give a text exactly for
/// the numbers within the range that a `chrono` date-time holds.
#[verifier::external_body]
pub(crate) fn rfc3339(micros: i64) -> (r: Option<String>)
    ensures
        r matches Some(t) ==> t@ == rfc3339_text(micros),
        r is Some <==> MIN_TIMESTAMP_MICROS <= micros <= MAX_TIMESTAMP_MICROS,
{
    chrono::DateTime::<chrono::Utc>::from_timestamp_micros(micros).map(|d| d.to_rfc3339())
}

/// An invitation may still be used at `now`: it was not used and has not expired.
pub open spec fn usable(used_at: Option<i64>, expires_at: i64, now: i64) -> bool {
    used_at is None && expires_at >= now
}

/// The link of an invitation with this token.
pub open spec fn invite_url_of(raw_token: Seq<char>) -> Seq<char> {
    INVITE_URL_PREFIX@ + raw_token
}

/// The link of an invitation with this token.
pub fn invite_url(raw_token: &str) -> (r: String)
    ensures
        r@ == invite_url_of(raw_token@),
{
    let mut v = chars_of(INVITE_URL_PREFIX);
    let t = chars_of(raw_token);
    let ghost p = v@;
    let mut k: usize = 0;
    while k < t.len()
        invariant
            k <= t.len(),
            v@ == p + t@.subrange(0, k as int),
        decreases t.len() - k,
    {
        v.push(t[k]);
        k = k + 1;
        assert(v@ =~= p + t@.subrange(0, k as int));
    }
    assert(t@.subrange(0, t.len() as int) =~= t@);
    string_from_chars(v.as_slice())
}

/// Where the creation of an invitation stands.
pub enum CreateInviteStep {
    AwaitAdmin,
    AwaitInsert,
    Finished,
}

/// What the outside world reports back; `None` (or `false`) stands for a failed database call.
pub enum CreateInviteEvent {
    AdminChecked(Option<bool>),
    Inserted(bool),
}

/// What the creation asks for next.
pub enum CreateInviteAction {
    CheckAdmin { org_id: u128, user_id: u128 },
    /// Stores the invitation under the hash of its token.
    Insert { org_id: u128, email: String, role: String, token_hash: String, expires_at: i64, invited_by: u128 },
    /// Answer: `Ok` is `201 Created`.
    Respond(Result<CreateInviteResponse, AppError>),
}

/// The invitation by `user_id` of `req.email` to organization `org_id`, under a
/// fresh token and its hash, made at `now` (microseconds since the Unix epoch).
pub struct CreateInviteFlow {
    pub org_id: u128,
    pub user_id: u128,
    pub req: CreateInviteRequest,
    pub raw_token: String,
    pub token_hash: String,
    pub now: i64,
    pub step: CreateInviteStep,
}

/// The decision table of the creation of an invitation.
pub open spec fn create_invite_next(
    before: CreateInviteFlow,
    event: CreateInviteEvent,
    after: CreateInviteFlow,
    action: CreateInviteAction,
) -> bool {
    match (before.step, event) {
        (CreateInviteStep::AwaitAdmin, CreateInviteEvent::AdminChecked(Some(false))) => after.step is Finished && action
            == CreateInviteAction::Respond(Err(AppError::Forbidden)),
        (CreateInviteStep::AwaitAdmin, CreateInviteEvent::AdminChecked(Some(true))) => after.step is AwaitInsert && (
        action matches CreateInviteAction::Insert { org_id, email, role, token_hash, expires_at, invited_by } && org_id
            == before.org_id && email@ == before.req.email@ && role@ == before.req.role@ && token_hash@
            == before.token_hash@ && expires_at == before.now + INVITE_TTL_MICROS && invited_by == before.user_id),
        (CreateInviteStep::AwaitInsert, CreateInviteEvent::Inserted(false)) => after.step is Finished && action
            == CreateInviteAction::Respond(Err(AppError::BadRequest(None))),
        (CreateInviteStep::AwaitInsert, CreateInviteEvent::Inserted(true)) => after.step is Finished && (
        action matches CreateInviteAction::Respond(Ok(r)) && r.invite_url@ == invite_url_of(before.raw_token@)),
        _ => after.step is Finished && action == CreateInviteAction::Respond(Err(AppError::Internal)),
    }
}

impl CreateInviteFlow {
    /// Starts the creation: check that the user is an admin of the organization.
    pub fn start(
        org_id: u128,
        user_id: u128,
        req: CreateInviteRequest,
        raw_token: String,
        token_hash: String,
        now: i64,
    ) -> (r: (CreateInviteFlow, CreateInviteAction))
        requires
            now + INVITE_TTL_MICROS <= MAX_TIMESTAMP_MICROS,
        ensures
            r.0.org_id == org_id && r.0.user_id == user_id && r.0.req == req && r.0.raw_token == raw_token
                && r.0.token_hash == token_hash && r.0.now == now && r.0.step is AwaitAdmin,
            r.1 == (CreateInviteAction::CheckAdmin { org_id, user_id }),
    {
        (
            CreateInviteFlow { org_id, user_id, req, raw_token, token_hash, now, step: CreateInviteStep::AwaitAdmin },
            CreateInviteAction::CheckAdmin { org_id, user_id },
        )
    }

    /// Takes in what the outside world reports and says what to do next.
    pub fn step(&mut self, event: CreateInviteEvent) -> (action: CreateInviteAction)
        requires
            old(self).now + INVITE_TTL_MICROS <= MAX_TIMESTAMP_MICROS,
        ensures
            final(self).org_id == old(self).org_id && final(self).user_id == old(self).user_id && final(self).req == old(
                self,
            ).req && final(self).raw_token == old(self).raw_token && final(self).token_hash == old(self).token_hash
                && final(self).now == old(self).now,
            create_invite_next(*old(self), event, *final(self), action),
    {
        let mut step = CreateInviteStep::Finished;
        std::mem::swap(&mut step, &mut self.step);
        match (step, event) {
            (CreateInviteStep::AwaitAdmin, CreateInviteEvent::AdminChecked(Some(false))) => CreateInviteAction::Respond(
                Err(AppError::Forbidden),
            ),
            (CreateInviteStep::AwaitAdmin, CreateInviteEvent::AdminChecked(Some(true))) => {
                self.step = CreateInviteStep::AwaitInsert;
                CreateInviteAction::Insert {
                    org_id: self.org_id,
                    email: self.req.email.clone(),
                    role: self.req.role.clone(),
                    token_hash: self.token_hash.clone(),
                    expires_at: self.now + INVITE_TTL_MICROS,
                    invited_by: self.user_id,
                }
            },
            (CreateInviteStep::AwaitInsert, CreateInviteEvent::Inserted(false)) => CreateInviteAction::Respond(
                Err(AppError::BadRequest(None)),
            ),
            (CreateInviteStep::AwaitInsert, CreateInviteEvent::Inserted(true)) => CreateInviteAction::Respond(
                Ok(CreateInviteResponse { invite_url: invite_url(self.raw_token.as_str()) }),
            ),
            _ => CreateInviteAction::Respond(Err(AppError::Internal)),
        }
    }
}

/// The answer to a look at an invitation at `now`: `NotFound` without one;
/// `NotFound` too once used or expired; else the invitation, its expiry in RFC 3339.
pub open spec fn invite_view_of(found: Option<InvitePreviewRow>, now: i64, r: Result<GetInviteResponse, AppError>) -> bool {
    match found {
        None => r == Err::<GetInviteResponse, AppError>(AppError::NotFound),
        Some(row) => if !usable(row.used_at, row.expires_at, now) {
            r == Err::<GetInviteResponse, AppError>(AppError::NotFound)
        } else if MIN_TIMESTAMP_MICROS <= row.expires_at <= MAX_TIMESTAMP_MICROS {
            r matches Ok(v) && v.org_name@ == row.org_name@ && v.email@ == row.email@ && v.role@ == row.invited_role@
                && v.expires_at@ == rfc3339_text(row.expires_at)
        } else {
            r == Err::<GetInviteResponse, AppError>(AppError::Internal)
        },
    }
}

/// The answer to a look at an invitation, from the invitation found under the
/// hash of its token (`None` for none) and the time `now`.
pub fn invite_view(found: Option<InvitePreviewRow>, now: i64) -> (r: Result<GetInviteResponse, AppError>)
    ensures
        invite_view_of(found, now, r),
{
    match found {
        None => Err(AppError::NotFound),
        Some(row) => {
            if row.used_at.is_some() || row.expires_at < now {
                return Err(AppError::NotFound);
            }
            match rfc3339(row.expires_at) {
                Some(expires_at) => Ok(
                    GetInviteResponse { org_name: row.org_name, email: row.email, role: row.invited_role, expires_at },
                ),
                None => Err(AppError::Internal),
            }
        },
    }
}

/// Where the acceptance of an invitation stands.
pub enum AcceptInviteStep {
    AwaitInvite,
    AwaitUser { invite: LockedInviteRow },
    AwaitCreateUser { invite: LockedInviteRow },
    AwaitHash { invite: LockedInviteRow, user_id: u128 },
    AwaitSetPassword { invite: LockedInviteRow, user_id: u128 },
    AwaitMember { invite: LockedInviteRow, user_id: u128 },
    AwaitMarkUsed { invite: LockedInviteRow, user_id: u128 },
    AwaitCommit { invite: LockedInviteRow, user_id: u128 },
    Finished,
}

/// What the outside world reports back; `None` (or `false`) stands for a failed call.
pub enum AcceptInviteEvent {
    InviteFound(Option<Option<LockedInviteRow>>),
    UserFound(Option<Option<ExistingUserAuthRow>>),
    UserCreated(Option<u128>),
    PasswordHashed(Option<String>),
    PasswordSet(bool),
    MemberAdded(bool),
    MarkedUsed(bool),
    Committed(bool),
}

/// What the acceptance asks for next. Everything from the locking of the
/// invitation to the commit runs in one transaction, which an error answer abandons.
pub enum AcceptInviteAction {
    /// Opens the transaction and locks the invitation stored under the hash.
    FetchInvite { token_hash: String },
    FindUser { email: String },
    CreateUser { email: String, name: String },
    HashPassword { password: String },
    SetPassword { user_id: u128, password_hash: String, name: String },
    /// Adds the user to the organization with the role, unless already a member.
    AddMember { org_id: u128, user_id: u128, role: String },
    MarkUsed { invite_id: u128 },
    Commit,
    /// Answer: `Ok` is `200 OK`.
    Respond(Result<AcceptInviteResponse, AppError>),
}

/// The acceptance, at `now` (microseconds since the Unix epoch), of the
/// invitation whose token hashes to `token_hash`.
pub struct AcceptInviteFlow {
    pub token_hash: String,
    pub input: AcceptInviteInput,
    pub now: i64,
    pub step: AcceptInviteStep,
}

/// The step after the account is known: set a password unless it has one.
pub open spec fn after_user(
    before: AcceptInviteFlow,
    invite: LockedInviteRow,
    user_id: u128,
    had_password: bool,
    after: AcceptInviteFlow,
    action: AcceptInviteAction,
) -> bool {
    if had_password {
        after.step == (AcceptInviteStep::AwaitMember { invite, user_id }) && (action matches AcceptInviteAction::AddMember {
            org_id,
            user_id: u,
            role,
        } && org_id == invite.org_id && u == user_id && role@ == invite.invited_role@)
    } else {
        after.step == (AcceptInviteStep::AwaitHash { invite, user_id }) && (action matches AcceptInviteAction::HashPassword {
            password,
        } && password@ == before.input.password@)
    }
}

/// The decision table of the acceptance of an invitation.
pub open spec fn accept_invite_next(
    before: AcceptInviteFlow,
    event: AcceptInviteEvent,
    after: AcceptInviteFlow,
    action: AcceptInviteAction,
) -> bool {
    match (before.step, event) {
        (AcceptInviteStep::AwaitInvite, AcceptInviteEvent::InviteFound(Some(found))) => match found {
            None => after.step is Finished && action == AcceptInviteAction::Respond(Err(AppError::NotFound)),
            Some(invite) => if usable(invite.used_at, invite.expires_at, before.now) {
                after.step == (AcceptInviteStep::AwaitUser { invite }) && (action matches AcceptInviteAction::FindUser {
                    email,
                } && email@ == invite.email@)
            } else {
                after.step is Finished && action == AcceptInviteAction::Respond(Err(AppError::NotFound))
            },
        },
        (AcceptInviteStep::AwaitUser { invite }, AcceptInviteEvent::UserFound(Some(found))) => match found {
            Some(u) => after_user(before, invite, u.id, u.password_hash is Some, after, action),
            None => after.step == (AcceptInviteStep::AwaitCreateUser { invite }) && (
            action matches AcceptInviteAction::CreateUser { email, name } && email@ == invite.email@ && name@
                == before.input.name@),
        },
        (AcceptInviteStep::AwaitCreateUser { invite }, AcceptInviteEvent::UserCreated(Some(user_id))) => after_user(
            before,
            invite,
            user_id,
            false,
            after,
            action,
        ),
        (AcceptInviteStep::AwaitHash { invite, user_id }, AcceptInviteEvent::PasswordHashed(Some(hash))) => after.step
            == (AcceptInviteStep::AwaitSetPassword { invite, user_id }) && (action matches AcceptInviteAction::SetPassword {
            user_id: u,
            password_hash,
            name,
        } && u == user_id && password_hash@ == hash@ && name@ == before.input.name@),
        (AcceptInviteStep::AwaitSetPassword { invite, user_id }, AcceptInviteEvent::PasswordSet(true)) => after_user(
            before,
            invite,
            user_id,
            true,
            after,
            action,
        ),
        (AcceptInviteStep::AwaitMember { invite, user_id }, AcceptInviteEvent::MemberAdded(true)) => after.step
            == (AcceptInviteStep::AwaitMarkUsed { invite, user_id }) && action == (AcceptInviteAction::MarkUsed {
            invite_id: invite.id,
        }),
        (AcceptInviteStep::AwaitMarkUsed { invite, user_id }, AcceptInviteEvent::MarkedUsed(true)) => after.step
            == (AcceptInviteStep::AwaitCommit { invite, user_id }) && action == AcceptInviteAction::Commit,
        (AcceptInviteStep::AwaitCommit { invite, user_id }, AcceptInviteEvent::Committed(true)) => after.step is Finished
            && (action matches AcceptInviteAction::Respond(Ok(r)) && r.user_id == user_id && r.org_id == invite.org_id
            && r.org_role@ == invite.invited_role@),
        _ => after.step is Finished && action == AcceptInviteAction::Respond(Err(AppError::Internal)),
    }
}

/// Every invitation that an acceptance holds was usable when it was locked.
pub open spec fn accept_invite_inv(f: AcceptInviteFlow) -> bool {
    match f.step {
        AcceptInviteStep::AwaitUser { invite } => usable(invite.used_at, invite.expires_at, f.now),
        AcceptInviteStep::AwaitCreateUser { invite } => usable(invite.used_at, invite.expires_at, f.now),
        AcceptInviteStep::AwaitHash { invite, .. } => usable(invite.used_at, invite.expires_at, f.now),
        AcceptInviteStep::AwaitSetPassword { invite, .. } => usable(invite.used_at, invite.expires_at, f.now),
        AcceptInviteStep::AwaitMember { invite, .. } => usable(invite.used_at, invite.expires_at, f.now),
        AcceptInviteStep::AwaitMarkUsed { invite, .. } => usable(invite.used_at, invite.expires_at, f.now),
        AcceptInviteStep::AwaitCommit { invite, .. } => usable(invite.used_at, invite.expires_at, f.now),
        _ => true,
    }
}

impl AcceptInviteFlow {
    /// Starts the acceptance: a short password is refused at once; else lock the invitation.
    pub fn start(token_hash: String, input: AcceptInviteInput, now: i64) -> (r: (AcceptInviteFlow, AcceptInviteAction))
        ensures
            r.0.token_hash == token_hash && r.0.input == input && r.0.now == now,
            accept_invite_inv(r.0),
            !long_enough(input.password@) ==> r.0.step is Finished && r.1 == AcceptInviteAction::Respond(
                Err(AppError::BadRequest(Some("password must be at least 8 chars"))),
            ),
            long_enough(input.password@) ==> r.0.step is AwaitInvite && (r.1 matches AcceptInviteAction::FetchInvite {
                token_hash: t,
            } && t@ == token_hash@),
    {
        if byte_len(input.password.as_str()) < 8 {
            return (
                AcceptInviteFlow { token_hash, input, now, step: AcceptInviteStep::Finished },
                AcceptInviteAction::Respond(Err(AppError::BadRequest(Some("password must be at least 8 chars")))),
            );
        }
        let asked = token_hash.clone();
        (
            AcceptInviteFlow { token_hash, input, now, step: AcceptInviteStep::AwaitInvite },
            AcceptInviteAction::FetchInvite { token_hash: asked },
        )
    }

    fn after_user_step(&mut self, invite: LockedInviteRow, user_id: u128, had_password: bool) -> (action: AcceptInviteAction)
        requires
            old(self).step is Finished,
            usable(invite.used_at, invite.expires_at, old(self).now),
        ensures
            final(self).token_hash == old(self).token_hash && final(self).input == old(self).input && final(self).now == old(
                self,
            ).now,
            accept_invite_inv(*final(self)),
            after_user(*old(self), invite, user_id, had_password, *final(self), action),
    {
        if had_password {
            let org_id = invite.org_id;
            let role = invite.invited_role.clone();
            self.step = AcceptInviteStep::AwaitMember { invite, user_id };
            AcceptInviteAction::AddMember { org_id, user_id, role }
        } else {
            self.step = AcceptInviteStep::AwaitHash { invite, user_id };
            AcceptInviteAction::HashPassword { password: self.input.password.clone() }
        }
    }

    /// Takes in what the outside world reports and says what to do next.
    pub fn step(&mut self, event: AcceptInviteEvent) -> (action: AcceptInviteAction)
        requires
            accept_invite_inv(*old(self)),
        ensures
            final(self).token_hash == old(self).token_hash && final(self).input == old(self).input && final(self).now == old(
                self,
            ).now,
            accept_invite_inv(*final(self)),
            accept_invite_next(*old(self), event, *final(self), action),
    {
        let mut step = AcceptInviteStep::Finished;
        std::mem::swap(&mut step, &mut self.step);
        match (step, event) {
            (AcceptInviteStep::AwaitInvite, AcceptInviteEvent::InviteFound(Some(found))) => {
                match found {
                    None => AcceptInviteAction::Respond(Err(AppError::NotFound)),
                    Some(invite) => {
                        if invite.used_at.is_some() || invite.expires_at < self.now {
                            AcceptInviteAction::Respond(Err(AppError::NotFound))
                        } else {
                            let email = invite.email.clone();
                            self.step = AcceptInviteStep::AwaitUser { invite };
                            AcceptInviteAction::FindUser { email }
                        }
                    },
                }
            },
            (AcceptInviteStep::AwaitUser { invite }, AcceptInviteEvent::UserFound(Some(found))) => {
                match found {
                    Some(u) => {
                        let had_password = u.password_hash.is_some();
                        self.after_user_step(invite, u.id, had_password)
                    },
                    None => {
                        let email = invite.email.clone();
                        self.step = AcceptInviteStep::AwaitCreateUser { invite };
                        AcceptInviteAction::CreateUser { email, name: self.input.name.clone() }
                    },
                }
            },
            (AcceptInviteStep::AwaitCreateUser { invite }, AcceptInviteEvent::UserCreated(Some(user_id))) => {
                self.after_user_step(invite, user_id, false)
            },
            (AcceptInviteStep::AwaitHash { invite, user_id }, AcceptInviteEvent::PasswordHashed(Some(hash))) => {
                self.step = AcceptInviteStep::AwaitSetPassword { invite, user_id };
                AcceptInviteAction::SetPassword { user_id, password_hash: hash, name: self.input.name.clone() }
            },
            (AcceptInviteStep::AwaitSetPassword { invite, user_id }, AcceptInviteEvent::PasswordSet(true)) => {
                self.after_user_step(invite, user_id, true)
            },
            (AcceptInviteStep::AwaitMember { invite, user_id }, AcceptInviteEvent::MemberAdded(true)) => {
                let invite_id = invite.id;
                self.step = AcceptInviteStep::AwaitMarkUsed { invite, user_id };
                AcceptInviteAction::MarkUsed { invite_id }
            },
            (AcceptInviteStep::AwaitMarkUsed { invite, user_id }, AcceptInviteEvent::MarkedUsed(true)) => {
                self.step = AcceptInviteStep::AwaitCommit { invite, user_id };
                AcceptInviteAction::Commit
            },
            (AcceptInviteStep::AwaitCommit { invite, user_id }, AcceptInviteEvent::Committed(true)) => {
                AcceptInviteAction::Respond(
                    Ok(AcceptInviteResponse { user_id, org_id: invite.org_id, org_role: invite.invited_role }),
                )
            },
            _ => AcceptInviteAction::Respond(Err(AppError::Internal)),
        }
    }
}

/// An invitation is accepted only if it was neither used nor expired when it
/// was locked, and the membership made is the one it offered.
pub proof fn lemma_accepted_invite_was_usable(
    before: AcceptInviteFlow,
    event: AcceptInviteEvent,
    after: AcceptInviteFlow,
    action: AcceptInviteAction,
)
    requires
        accept_invite_inv(before),
        accept_invite_next(before, event, after, action),
        action matches AcceptInviteAction::Respond(Ok(_)),
    ensures
        before.step matches AcceptInviteStep::AwaitCommit { invite, user_id } && usable(
            invite.used_at,
            invite.expires_at,
            before.now,
        ) && action->Respond_0->Ok_0.org_id == invite.org_id && action->Respond_0->Ok_0.user_id == user_id,
{
}

} // verus!
