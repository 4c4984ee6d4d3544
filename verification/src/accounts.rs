use vstd::prelude::*;
use crate::auth_flows::long_enough;
use crate::error::AppError;
use crate::text::{byte_len, trim, trim_str, utf8_len};

verus! {

/// A user's account, as stored.
pub struct UserRow {
    pub id: u128,
    pub email: String,
    pub name: String,
}

/// An organization the user belongs to, with the user's role in it, as stored.
pub struct OrgMembershipRow {
    pub id: u128,
    pub name: String,
    pub slug: String,
    pub org_role: String,
}

/// An organization of the user, as shown.
pub struct UserOrganization {
    pub id: u128,
    pub name: String,
    pub slug: String,
    pub role: String,
}

/// The caller's account and organizations.
pub struct MeResponse {
    pub id: u128,
    pub email: String,
    pub name: String,
    pub organizations: Vec<UserOrganization>,
}

/// The first account of the platform.
pub struct SetupRequest {
    pub email: String,
    pub name: String,
    pub password: String,
}

/// The platform admin created.
pub struct SetupResponse {
    pub user_id: u128,
    pub email: String,
    pub platform_role: &'static str,
}

/// `o` shows the membership `row`.
pub open spec fn shows_membership(o: UserOrganization, row: OrgMembershipRow) -> bool {
    o.id == row.id && o.name@ == row.name@ && o.slug@ == row.slug@ && o.role@ == row.org_role@
}

/// The shown form of each membership, in order.
pub fn user_organizations(rows: Vec<OrgMembershipRow>) -> (orgs: Vec<UserOrganization>)
    ensures
        orgs.len() == rows.len(),
        forall|k: int| 0 <= k < rows.len() ==> shows_membership(#[trigger] orgs@[k], rows@[k]),
{
    let ghost all = rows@;
    let mut rows = rows;
    let mut orgs: Vec<UserOrganization> = Vec::new();
    while rows.len() > 0
        invariant
            orgs.len() + rows.len() == all.len(),
            rows@ == all.subrange(orgs.len() as int, all.len() as int),
            forall|k: int| 0 <= k < orgs.len() ==> shows_membership(#[trigger] orgs@[k], all[k]),
        decreases rows.len(),
    {
        let r = rows.remove(0);
        assert(r == all[orgs.len() as int]);
        orgs.push(UserOrganization { id: r.id, name: r.name, slug: r.slug, role: r.org_role });
        assert(rows@ =~= all.subrange(orgs.len() as int, all.len() as int));
    }
    orgs
}

/// Where the showing of the caller's account stands.
pub enum GetMeStep {
    AwaitUser,
    AwaitOrgs { user: UserRow },
    Finished,
}

/// What the outside world reports back; `None` stands for a failed database call.
pub enum GetMeEvent {
    UserFound(Option<Option<UserRow>>),
    OrgsFetched(Option<Vec<OrgMembershipRow>>),
}

/// What the showing asks for next.
pub enum GetMeAction {
    FindUser { user_id: u128 },
    FetchOrgs { user_id: u128 },
    /// Answer: `Ok` is `200 OK`.
    Respond(Result<MeResponse, AppError>),
}

/// The showing of `user_id`'s account.
pub struct GetMeFlow {
    pub user_id: u128,
    pub step: GetMeStep,
}

/// The decision table of the showing of the caller's account.
pub open spec fn get_me_next(before: GetMeFlow, event: GetMeEvent, after: GetMeFlow, action: GetMeAction) -> bool {
    match (before.step, event) {
        (GetMeStep::AwaitUser, GetMeEvent::UserFound(Some(None))) => after.step is Finished && action == GetMeAction::Respond(
            Err(AppError::NotFound),
        ),
        (GetMeStep::AwaitUser, GetMeEvent::UserFound(Some(Some(user)))) => after.step == (GetMeStep::AwaitOrgs { user })
            && action == (GetMeAction::FetchOrgs { user_id: before.user_id }),
        (GetMeStep::AwaitOrgs { user }, GetMeEvent::OrgsFetched(Some(rows))) => after.step is Finished && (
        action matches GetMeAction::Respond(Ok(r)) && r.id == user.id && r.email@ == user.email@ && r.name@ == user.name@
            && r.organizations.len() == rows.len() && forall|k: int|
            0 <= k < rows.len() ==> shows_membership(#[trigger] r.organizations@[k], rows@[k])),
        _ => after.step is Finished && action == GetMeAction::Respond(Err(AppError::Internal)),
    }
}

impl GetMeFlow {
    /// Starts the showing: find the account.
    pub fn start(user_id: u128) -> (r: (GetMeFlow, GetMeAction))
        ensures
            r.0.user_id == user_id && r.0.step is AwaitUser,
            r.1 == (GetMeAction::FindUser { user_id }),
    {
        (GetMeFlow { user_id, step: GetMeStep::AwaitUser }, GetMeAction::FindUser { user_id })
    }

    /// Takes in what the outside world reports and says what to do next.
    pub fn step(&mut self, event: GetMeEvent) -> (action: GetMeAction)
        ensures
            final(self).user_id == old(self).user_id,
            get_me_next(*old(self), event, *final(self), action),
    {
        let mut step = GetMeStep::Finished;
        std::mem::swap(&mut step, &mut self.step);
        match (step, event) {
            (GetMeStep::AwaitUser, GetMeEvent::UserFound(Some(None))) => GetMeAction::Respond(Err(AppError::NotFound)),
            (GetMeStep::AwaitUser, GetMeEvent::UserFound(Some(Some(user)))) => {
                self.step = GetMeStep::AwaitOrgs { user };
                GetMeAction::FetchOrgs { user_id: self.user_id }
            },
            (GetMeStep::AwaitOrgs { user }, GetMeEvent::OrgsFetched(Some(rows))) => GetMeAction::Respond(
                Ok(MeResponse { id: user.id, email: user.email, name: user.name, organizations: user_organizations(rows) }),
            ),
            _ => GetMeAction::Respond(Err(AppError::Internal)),
        }
    }
}

/// Where the setting up of the platform admin stands.
pub enum SetupStep {
    AwaitCount,
    AwaitHash,
    AwaitInsert,
    AwaitCommit { user_id: u128, email: String },
    Finished,
}

/// What the outside world reports back; `None` (or `false`) stands for a failed call.
pub enum SetupEvent {
    /// How many accounts there are.
    UsersCounted(Option<i64>),
    PasswordHashed(Option<String>),
    /// The id and email of the account inserted.
    AdminInserted(Option<(u128, String)>),
    Committed(bool),
}

/// What the setting up asks for next. The count, the insertion and the commit
/// run in one transaction, which an error answer abandons.
pub enum SetupAction {
    /// Opens the transaction and counts the accounts.
    CountUsers,
    HashPassword { password: String },
    InsertAdmin { email: String, name: String, password_hash: String },
    Commit,
    /// Answer: `Ok` is `201 Created`.
    Respond(Result<SetupResponse, AppError>),
}

/// The setting up of the platform admin, allowed only while there is no account.
pub struct SetupFlow {
    pub req: SetupRequest,
    pub step: SetupStep,
}

/// The decision table of the setting up of the platform admin.
pub open spec fn setup_next(before: SetupFlow, event: SetupEvent, after: SetupFlow, action: SetupAction) -> bool {
    match (before.step, event) {
        (SetupStep::AwaitCount, SetupEvent::UsersCounted(Some(n))) => if n > 0 {
            after.step is Finished && action == SetupAction::Respond(Err(AppError::Forbidden))
        } else {
            after.step is AwaitHash && (action matches SetupAction::HashPassword { password } && password@
                == before.req.password@)
        },
        (SetupStep::AwaitHash, SetupEvent::PasswordHashed(Some(hash))) => after.step is AwaitInsert && (
        action matches SetupAction::InsertAdmin { email, name, password_hash } && email@ == before.req.email@ && name@
            == before.req.name@ && password_hash@ == hash@),
        (SetupStep::AwaitInsert, SetupEvent::AdminInserted(Some(inserted))) => (after.step matches SetupStep::AwaitCommit {
            user_id,
            email,
        } && user_id == inserted.0 && email@ == inserted.1@) && action == SetupAction::Commit,
        (SetupStep::AwaitCommit { user_id, email }, SetupEvent::Committed(true)) => after.step is Finished && (
        action matches SetupAction::Respond(Ok(r)) && r.user_id == user_id && r.email@ == email@ && r.platform_role
            == "platform_admin"),
        _ => after.step is Finished && action == SetupAction::Respond(Err(AppError::Internal)),
    }
}

impl SetupFlow {
    /// Starts the setting up: a short password is refused at once; else count the accounts.
    pub fn start(req: SetupRequest) -> (r: (SetupFlow, SetupAction))
        ensures
            r.0.req == req,
            !long_enough(req.password@) ==> r.0.step is Finished && r.1 == SetupAction::Respond(
                Err(AppError::BadRequest(Some("password must be at least 8 chars"))),
            ),
            long_enough(req.password@) ==> r.0.step is AwaitCount && r.1 == SetupAction::CountUsers,
    {
        if byte_len(req.password.as_str()) < 8 {
            return (
                SetupFlow { req, step: SetupStep::Finished },
                SetupAction::Respond(Err(AppError::BadRequest(Some("password must be at least 8 chars")))),
            );
        }
        (SetupFlow { req, step: SetupStep::AwaitCount }, SetupAction::CountUsers)
    }

    /// Takes in what the outside world reports and says what to do next.
    pub fn step(&mut self, event: SetupEvent) -> (action: SetupAction)
        ensures
            final(self).req == old(self).req,
            setup_next(*old(self), event, *final(self), action),
    {
        let mut step = SetupStep::Finished;
        std::mem::swap(&mut step, &mut self.step);
        match (step, event) {
            (SetupStep::AwaitCount, SetupEvent::UsersCounted(Some(n))) => {
                if n > 0 {
                    SetupAction::Respond(Err(AppError::Forbidden))
                } else {
                    self.step = SetupStep::AwaitHash;
                    SetupAction::HashPassword { password: self.req.password.clone() }
                }
            },
            (SetupStep::AwaitHash, SetupEvent::PasswordHashed(Some(hash))) => {
                self.step = SetupStep::AwaitInsert;
                SetupAction::InsertAdmin { email: self.req.email.clone(), name: self.req.name.clone(), password_hash: hash }
            },
            (SetupStep::AwaitInsert, SetupEvent::AdminInserted(Some(inserted))) => {
                let (user_id, email) = inserted;
                self.step = SetupStep::AwaitCommit { user_id, email };
                SetupAction::Commit
            },
            (SetupStep::AwaitCommit { user_id, email }, SetupEvent::Committed(true)) => SetupAction::Respond(
                Ok(SetupResponse { user_id, email, platform_role: "platform_admin" }),
            ),
            _ => SetupAction::Respond(Err(AppError::Internal)),
        }
    }
}

/// The platform admin is created only when no account was counted.
pub proof fn lemma_setup_only_when_empty(before: SetupFlow, event: SetupEvent, after: SetupFlow, action: SetupAction)
    requires
        setup_next(before, event, after, action),
        action is HashPassword,
    ensures
        event matches SetupEvent::UsersCounted(Some(n)) && n <= 0,
{
}

/// The request to create an organization.
pub struct CreateOrgRequest {
    pub name: String,
    pub slug: String,
}

/// The name and slug of a new organization, as the service takes them.
pub struct CreateOrgInput<'a> {
    pub name: &'a str,
    pub slug: &'a str,
}

/// The organization created.
pub struct CreateOrgResult {
    pub org_id: u128,
    pub name: String,
    pub slug: String,
}

/// The renamed organization.
pub struct PatchOrgResponse {
    pub id: u128,
    pub name: String,
    pub slug: String,
}

/// Where a request about an organization stands.
pub enum OrgStep {
    AwaitInsert,
    AwaitAdminMember { created: CreateOrgResult },
    AwaitCommit { created: CreateOrgResult },
    AwaitOrg,
    AwaitAdminCheck { org_id: u128 },
    AwaitRename,
    Finished,
}

/// What the outside world reports back; `None` (or `false`) stands for a failed database call.
pub enum OrgEvent {
    /// The id, name and slug of the organization inserted.
    Inserted(Option<(u128, String, String)>),
    AdminMemberAdded(bool),
    Committed(bool),
    OrgFound(Option<Option<u128>>),
    AdminChecked(Option<bool>),
    /// The id, name and slug after the rename, if the organization was there.
    Renamed(Option<Option<(u128, String, String)>>),
}

/// The answer to a request about an organization.
pub enum OrgReply {
    /// `201 Created`.
    Created(CreateOrgResult),
    /// `200 OK`.
    Renamed(PatchOrgResponse),
}

/// What a request about an organization asks for next. The insertion, the
/// membership and the commit of a creation run in one transaction, which an
/// error answer abandons.
pub enum OrgAction {
    /// Opens the transaction and inserts the organization.
    Insert { name: String, slug: String, created_by: u128 },
    /// Makes the creator an admin member of the new organization.
    AddAdminMember { org_id: u128, user_id: u128 },
    Commit,
    FindOrg { org_slug: String },
    /// Is the user an admin of the organization?
    CheckAdmin { org_id: u128, user_id: u128 },
    Rename { org_id: u128, name: String },
    Respond(Result<OrgReply, AppError>),
}

/// A creation or a rename of an organization by `user_id`; `name` is the trimmed
/// new name of a rename.
pub struct OrgFlow {
    pub user_id: u128,
    pub name: String,
    pub step: OrgStep,
}

/// `r` is the organization that a write reported.
pub open spec fn is_org(id: u128, name: Seq<char>, slug: Seq<char>, row: (u128, String, String)) -> bool {
    id == row.0 && name == row.1@ && slug == row.2@
}

/// The decision table of a request about an organization.
pub open spec fn org_next(before: OrgFlow, event: OrgEvent, after: OrgFlow, action: OrgAction) -> bool {
    match (before.step, event) {
        (OrgStep::AwaitInsert, OrgEvent::Inserted(None)) => after.step is Finished && action == OrgAction::Respond(
            Err(AppError::BadRequest(None)),
        ),
        (OrgStep::AwaitInsert, OrgEvent::Inserted(Some(row))) => (after.step matches OrgStep::AwaitAdminMember { created }
            && is_org(created.org_id, created.name@, created.slug@, row)) && action == (OrgAction::AddAdminMember {
            org_id: row.0,
            user_id: before.user_id,
        }),
        (OrgStep::AwaitAdminMember { created }, OrgEvent::AdminMemberAdded(true)) => after.step == (OrgStep::AwaitCommit {
            created,
        }) && action == OrgAction::Commit,
        (OrgStep::AwaitCommit { created }, OrgEvent::Committed(true)) => after.step is Finished && action
            == OrgAction::Respond(Ok(OrgReply::Created(created))),
        (OrgStep::AwaitOrg, OrgEvent::OrgFound(Some(None))) => after.step is Finished && action == OrgAction::Respond(
            Err(AppError::NotFound),
        ),
        (OrgStep::AwaitOrg, OrgEvent::OrgFound(Some(Some(org_id)))) => after.step == (OrgStep::AwaitAdminCheck { org_id })
            && action == (OrgAction::CheckAdmin { org_id, user_id: before.user_id }),
        (OrgStep::AwaitAdminCheck { .. }, OrgEvent::AdminChecked(Some(false))) => after.step is Finished && action
            == OrgAction::Respond(Err(AppError::Forbidden)),
        (OrgStep::AwaitAdminCheck { org_id }, OrgEvent::AdminChecked(Some(true))) => after.step is AwaitRename && (
        action matches OrgAction::Rename { org_id: o, name } && o == org_id && name@ == before.name@),
        (OrgStep::AwaitRename, OrgEvent::Renamed(Some(None))) => after.step is Finished && action == OrgAction::Respond(
            Err(AppError::NotFound),
        ),
        (OrgStep::AwaitRename, OrgEvent::Renamed(Some(Some(row)))) => after.step is Finished && (
        action matches OrgAction::Respond(Ok(OrgReply::Renamed(r))) && is_org(r.id, r.name@, r.slug@, row)),
        _ => after.step is Finished && action == OrgAction::Respond(Err(AppError::Internal)),
    }
}

impl OrgFlow {
    /// Starts the creation of an organization: insert it.
    pub fn create(user_id: u128, input: CreateOrgInput) -> (r: (OrgFlow, OrgAction))
        ensures
            r.0.user_id == user_id && r.0.step is AwaitInsert,
            r.1 matches OrgAction::Insert { name, slug, created_by } && name@ == input.name@ && slug@ == input.slug@
                && created_by == user_id,
    {
        (
            OrgFlow { user_id, name: input.name.to_string(), step: OrgStep::AwaitInsert },
            OrgAction::Insert { name: input.name.to_string(), slug: input.slug.to_string(), created_by: user_id },
        )
    }

    /// Starts the rename of an organization: a blank or long name is refused at
    /// once; else find the organization.
    pub fn rename(org_slug: String, user_id: u128, name: &str) -> (r: (OrgFlow, OrgAction))
        ensures
            r.0.user_id == user_id,
            trim(name@).len() == 0 ==> r.0.step is Finished && r.1 == OrgAction::Respond(
                Err(AppError::BadRequest(Some("name is required"))),
            ),
            trim(name@).len() > 0 && utf8_len(trim(name@)) > 200 ==> r.0.step is Finished && r.1 == OrgAction::Respond(
                Err(AppError::BadRequest(Some("name is too long"))),
            ),
            trim(name@).len() > 0 && utf8_len(trim(name@)) <= 200 ==> r.0.step is AwaitOrg && r.0.name@ == trim(name@)
                && r.1 == (OrgAction::FindOrg { org_slug }),
    {
        let trimmed = trim_str(name);
        if trimmed.unicode_len() == 0 {
            return (
                OrgFlow { user_id, name: trimmed.to_string(), step: OrgStep::Finished },
                OrgAction::Respond(Err(AppError::BadRequest(Some("name is required")))),
            );
        }
        if byte_len(trimmed) > 200 {
            return (
                OrgFlow { user_id, name: trimmed.to_string(), step: OrgStep::Finished },
                OrgAction::Respond(Err(AppError::BadRequest(Some("name is too long")))),
            );
        }
        (OrgFlow { user_id, name: trimmed.to_string(), step: OrgStep::AwaitOrg }, OrgAction::FindOrg { org_slug })
    }

    /// Takes in what the outside world reports and says what to do next.
    pub fn step(&mut self, event: OrgEvent) -> (action: OrgAction)
        ensures
            final(self).user_id == old(self).user_id && final(self).name == old(self).name,
            org_next(*old(self), event, *final(self), action),
    {
        let mut step = OrgStep::Finished;
        std::mem::swap(&mut step, &mut self.step);
        match (step, event) {
            (OrgStep::AwaitInsert, OrgEvent::Inserted(None)) => OrgAction::Respond(Err(AppError::BadRequest(None))),
            (OrgStep::AwaitInsert, OrgEvent::Inserted(Some(row))) => {
                let (org_id, name, slug) = row;
                self.step = OrgStep::AwaitAdminMember { created: CreateOrgResult { org_id, name, slug } };
                OrgAction::AddAdminMember { org_id, user_id: self.user_id }
            },
            (OrgStep::AwaitAdminMember { created }, OrgEvent::AdminMemberAdded(true)) => {
                self.step = OrgStep::AwaitCommit { created };
                OrgAction::Commit
            },
            (OrgStep::AwaitCommit { created }, OrgEvent::Committed(true)) => OrgAction::Respond(Ok(OrgReply::Created(created))),
            (OrgStep::AwaitOrg, OrgEvent::OrgFound(Some(None))) => OrgAction::Respond(Err(AppError::NotFound)),
            (OrgStep::AwaitOrg, OrgEvent::OrgFound(Some(Some(org_id)))) => {
                self.step = OrgStep::AwaitAdminCheck { org_id };
                OrgAction::CheckAdmin { org_id, user_id: self.user_id }
            },
            (OrgStep::AwaitAdminCheck { .. }, OrgEvent::AdminChecked(Some(false))) => OrgAction::Respond(
                Err(AppError::Forbidden),
            ),
            (OrgStep::AwaitAdminCheck { org_id }, OrgEvent::AdminChecked(Some(true))) => {
                self.step = OrgStep::AwaitRename;
                OrgAction::Rename { org_id, name: self.name.clone() }
            },
            (OrgStep::AwaitRename, OrgEvent::Renamed(Some(None))) => OrgAction::Respond(Err(AppError::NotFound)),
            (OrgStep::AwaitRename, OrgEvent::Renamed(Some(Some(row)))) => {
                let (id, name, slug) = row;
                OrgAction::Respond(Ok(OrgReply::Renamed(PatchOrgResponse { id, name, slug })))
            },
            _ => OrgAction::Respond(Err(AppError::Internal)),
        }
    }
}

} // verus!
