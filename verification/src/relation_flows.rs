use vstd::prelude::*;
use crate::error::AppError;
use crate::issue_edit::{read_issue_key, IssueKey};
use crate::issue_key::issue_key_parts;
use crate::issue_view::IssueIdRow;
use crate::relations::{
    build_relations, is_relation_type, relation_types, relations_of, CreateRelationRequest, CreateRelationResponse,
    GetRelationsResponse, RelationEdgeRow, RelationRecord,
};

verus! {

/// `k` is the issue key whose parts are `parts`.
pub open spec fn key_is(k: IssueKey, parts: (Seq<char>, i32)) -> bool {
    k.project_key@ == parts.0 && k.key_seq == parts.1
}

/// Where the relating of two issues stands.
pub enum CreateRelationStep {
    AwaitOrg { source: IssueKey, target: IssueKey },
    AwaitMember { org_id: u128, source: IssueKey, target: IssueKey },
    AwaitSource { org_id: u128, target: IssueKey },
    AwaitTarget { org_id: u128, source_id: u128 },
    AwaitInsert { org_id: u128, source_id: u128 },
    AwaitEvent { relation_id: u128 },
    Finished,
}

/// What the outside world reports back; `None` stands for a failed database call.
pub enum CreateRelationEvent {
    OrgFound(Option<Option<u128>>),
    MemberChecked(Option<bool>),
    IssueResolved(Option<Option<IssueIdRow>>),
    /// The id of the new relation.
    Inserted(Option<u128>),
    /// The event was recorded, or its failure logged.
    EventRecorded,
}

/// What the relating asks for next.
pub enum CreateRelationAction {
    FindOrg { org_slug: String },
    CheckMember { org_id: u128, user_id: u128 },
    ResolveIssue { org_id: u128, project_key: String, key_seq: i32 },
    Insert { org_id: u128, source_issue_id: u128, target_issue_id: u128, relation_type: String },
    /// Record a `relation_added` event on the source issue, with payload
    /// `{"relation_type": …, "target_issue_key": …}`; a failure is only logged.
    RecordAdded { org_id: u128, issue_id: u128, actor_id: u128, relation_type: String, target_issue_key: String },
    /// Answer: `Ok` is `201 Created`.
    Respond(Result<CreateRelationResponse, AppError>),
}

/// The relating of two issues by `user_id`.
pub struct CreateRelationFlow {
    pub user_id: u128,
    pub req: CreateRelationRequest,
    pub step: CreateRelationStep,
}

/// The decision table of the relating of two issues.
pub open spec fn create_relation_next(
    before: CreateRelationFlow,
    event: CreateRelationEvent,
    after: CreateRelationFlow,
    action: CreateRelationAction,
) -> bool {
    match (before.step, event) {
        (CreateRelationStep::AwaitOrg { .. }, CreateRelationEvent::OrgFound(Some(None))) => after.step is Finished && action
            == CreateRelationAction::Respond(Err(AppError::NotFound)),
        (CreateRelationStep::AwaitOrg { source, target }, CreateRelationEvent::OrgFound(Some(Some(org_id)))) => after.step
            == (CreateRelationStep::AwaitMember { org_id, source, target }) && action == (CreateRelationAction::CheckMember {
            org_id,
            user_id: before.user_id,
        }),
        (CreateRelationStep::AwaitMember { .. }, CreateRelationEvent::MemberChecked(Some(false))) => after.step is Finished
            && action == CreateRelationAction::Respond(Err(AppError::Forbidden)),
        (CreateRelationStep::AwaitMember { org_id, source, target }, CreateRelationEvent::MemberChecked(Some(true))) => after.step
            == (CreateRelationStep::AwaitSource { org_id, target }) && action == (CreateRelationAction::ResolveIssue {
            org_id,
            project_key: source.project_key,
            key_seq: source.key_seq,
        }),
        (CreateRelationStep::AwaitSource { .. }, CreateRelationEvent::IssueResolved(Some(None))) => after.step is Finished
            && action == CreateRelationAction::Respond(Err(AppError::NotFound)),
        (CreateRelationStep::AwaitSource { org_id, target }, CreateRelationEvent::IssueResolved(Some(Some(row)))) => after.step
            == (CreateRelationStep::AwaitTarget { org_id, source_id: row.issue_id }) && action == (
        CreateRelationAction::ResolveIssue { org_id, project_key: target.project_key, key_seq: target.key_seq }),
        (CreateRelationStep::AwaitTarget { .. }, CreateRelationEvent::IssueResolved(Some(None))) => after.step is Finished
            && action == CreateRelationAction::Respond(Err(AppError::NotFound)),
        (CreateRelationStep::AwaitTarget { org_id, source_id }, CreateRelationEvent::IssueResolved(Some(Some(row)))) => after.step
            == (CreateRelationStep::AwaitInsert { org_id, source_id }) && (action matches CreateRelationAction::Insert {
            org_id: o,
            source_issue_id,
            target_issue_id,
            relation_type,
        } && o == org_id && source_issue_id == source_id && target_issue_id == row.issue_id && relation_type@
            == before.req.relation_type@),
        (CreateRelationStep::AwaitInsert { .. }, CreateRelationEvent::Inserted(None)) => after.step is Finished && action
            == CreateRelationAction::Respond(Err(AppError::BadRequest(None))),
        (CreateRelationStep::AwaitInsert { org_id, source_id }, CreateRelationEvent::Inserted(Some(relation_id))) => after.step
            == (CreateRelationStep::AwaitEvent { relation_id }) && (action matches CreateRelationAction::RecordAdded {
            org_id: o,
            issue_id,
            actor_id,
            relation_type,
            target_issue_key,
        } && o == org_id && issue_id == source_id && actor_id == before.user_id && relation_type@ == before.req.relation_type@
            && target_issue_key@ == before.req.target_issue_key@),
        (CreateRelationStep::AwaitEvent { relation_id }, CreateRelationEvent::EventRecorded) => after.step is Finished && action
            == CreateRelationAction::Respond(Ok(CreateRelationResponse { relation_id })),
        _ => after.step is Finished && action == CreateRelationAction::Respond(Err(AppError::Internal)),
    }
}

/// A relating in progress asks for one of the known kinds.
pub open spec fn create_relation_inv(f: CreateRelationFlow) -> bool {
    !(f.step is Finished) ==> relation_types().contains(f.req.relation_type@)
}

impl CreateRelationFlow {
    /// Starts the relating: the kind and both keys are checked first, then the organization is looked up.
    pub fn start(org_slug: String, source_issue_key: &str, user_id: u128, req: CreateRelationRequest) -> (r: (
        CreateRelationFlow,
        CreateRelationAction,
    ))
        ensures
            r.0.user_id == user_id && r.0.req == req,
            create_relation_inv(r.0),
            !relation_types().contains(req.relation_type@) ==> r.0.step is Finished && r.1 == CreateRelationAction::Respond(
                Err(AppError::BadRequest(Some("invalid relation_type"))),
            ),
            relation_types().contains(req.relation_type@) && issue_key_parts(source_issue_key@) is None ==> r.0.step is Finished
                && r.1 == CreateRelationAction::Respond(Err(AppError::BadRequest(Some("invalid source issue key")))),
            relation_types().contains(req.relation_type@) && issue_key_parts(source_issue_key@) is Some && issue_key_parts(
                req.target_issue_key@,
            ) is None ==> r.0.step is Finished && r.1 == CreateRelationAction::Respond(
                Err(AppError::BadRequest(Some("invalid target issue key"))),
            ),
            relation_types().contains(req.relation_type@) && issue_key_parts(source_issue_key@) is Some && issue_key_parts(
                req.target_issue_key@,
            ) is Some ==> (r.0.step matches CreateRelationStep::AwaitOrg { source, target } && key_is(
                source,
                issue_key_parts(source_issue_key@)->0,
            ) && key_is(target, issue_key_parts(req.target_issue_key@)->0)) && r.1 == (CreateRelationAction::FindOrg {
                org_slug,
            }),
    {
        if !is_relation_type(req.relation_type.as_str()) {
            return (
                CreateRelationFlow { user_id, req, step: CreateRelationStep::Finished },
                CreateRelationAction::Respond(Err(AppError::BadRequest(Some("invalid relation_type")))),
            );
        }
        let source = match read_issue_key(source_issue_key) {
            Ok(k) => k,
            Err(_) => {
                return (
                    CreateRelationFlow { user_id, req, step: CreateRelationStep::Finished },
                    CreateRelationAction::Respond(Err(AppError::BadRequest(Some("invalid source issue key")))),
                );
            },
        };
        let target = match read_issue_key(req.target_issue_key.as_str()) {
            Ok(k) => k,
            Err(_) => {
                return (
                    CreateRelationFlow { user_id, req, step: CreateRelationStep::Finished },
                    CreateRelationAction::Respond(Err(AppError::BadRequest(Some("invalid target issue key")))),
                );
            },
        };
        (
            CreateRelationFlow { user_id, req, step: CreateRelationStep::AwaitOrg { source, target } },
            CreateRelationAction::FindOrg { org_slug },
        )
    }

    /// Takes in what the outside world reports and says what to do next.
    pub fn step(&mut self, event: CreateRelationEvent) -> (action: CreateRelationAction)
        requires
            create_relation_inv(*old(self)),
        ensures
            create_relation_inv(*final(self)),
            final(self).user_id == old(self).user_id && final(self).req == old(self).req,
            create_relation_next(*old(self), event, *final(self), action),
    {
        let mut step = CreateRelationStep::Finished;
        std::mem::swap(&mut step, &mut self.step);
        match (step, event) {
            (CreateRelationStep::AwaitOrg { .. }, CreateRelationEvent::OrgFound(Some(None))) => CreateRelationAction::Respond(
                Err(AppError::NotFound),
            ),
            (CreateRelationStep::AwaitOrg { source, target }, CreateRelationEvent::OrgFound(Some(Some(org_id)))) => {
                self.step = CreateRelationStep::AwaitMember { org_id, source, target };
                CreateRelationAction::CheckMember { org_id, user_id: self.user_id }
            },
            (CreateRelationStep::AwaitMember { .. }, CreateRelationEvent::MemberChecked(Some(false))) => CreateRelationAction::Respond(
                Err(AppError::Forbidden),
            ),
            (
                CreateRelationStep::AwaitMember { org_id, source, target },
                CreateRelationEvent::MemberChecked(Some(true)),
            ) => {
                self.step = CreateRelationStep::AwaitSource { org_id, target };
                CreateRelationAction::ResolveIssue { org_id, project_key: source.project_key, key_seq: source.key_seq }
            },
            (CreateRelationStep::AwaitSource { .. }, CreateRelationEvent::IssueResolved(Some(None))) => CreateRelationAction::Respond(
                Err(AppError::NotFound),
            ),
            (CreateRelationStep::AwaitSource { org_id, target }, CreateRelationEvent::IssueResolved(Some(Some(row)))) => {
                self.step = CreateRelationStep::AwaitTarget { org_id, source_id: row.issue_id };
                CreateRelationAction::ResolveIssue { org_id, project_key: target.project_key, key_seq: target.key_seq }
            },
            (CreateRelationStep::AwaitTarget { .. }, CreateRelationEvent::IssueResolved(Some(None))) => CreateRelationAction::Respond(
                Err(AppError::NotFound),
            ),
            (CreateRelationStep::AwaitTarget { org_id, source_id }, CreateRelationEvent::IssueResolved(Some(Some(row)))) => {
                self.step = CreateRelationStep::AwaitInsert { org_id, source_id };
                CreateRelationAction::Insert {
                    org_id,
                    source_issue_id: source_id,
                    target_issue_id: row.issue_id,
                    relation_type: self.req.relation_type.clone(),
                }
            },
            (CreateRelationStep::AwaitInsert { .. }, CreateRelationEvent::Inserted(None)) => CreateRelationAction::Respond(
                Err(AppError::BadRequest(None)),
            ),
            (CreateRelationStep::AwaitInsert { org_id, source_id }, CreateRelationEvent::Inserted(Some(relation_id))) => {
                self.step = CreateRelationStep::AwaitEvent { relation_id };
                CreateRelationAction::RecordAdded {
                    org_id,
                    issue_id: source_id,
                    actor_id: self.user_id,
                    relation_type: self.req.relation_type.clone(),
                    target_issue_key: self.req.target_issue_key.clone(),
                }
            },
            (CreateRelationStep::AwaitEvent { relation_id }, CreateRelationEvent::EventRecorded) => CreateRelationAction::Respond(
                Ok(CreateRelationResponse { relation_id }),
            ),
            _ => CreateRelationAction::Respond(Err(AppError::Internal)),
        }
    }
}

/// Where the listing of an issue's relations stands.
pub enum GetRelationsStep {
    AwaitOrg { key: IssueKey },
    AwaitMember { org_id: u128, key: IssueKey },
    AwaitIssue { org_id: u128 },
    AwaitOutgoing { org_id: u128, issue_id: u128 },
    AwaitIncoming { outgoing: Vec<RelationEdgeRow> },
    Finished,
}

/// What the outside world reports back; `None` stands for a failed database call.
pub enum GetRelationsEvent {
    OrgFound(Option<Option<u128>>),
    MemberChecked(Option<bool>),
    IssueResolved(Option<Option<IssueIdRow>>),
    /// The relations that start at the issue.
    OutgoingFetched(Option<Vec<RelationEdgeRow>>),
    /// The relations that end at the issue.
    IncomingFetched(Option<Vec<RelationEdgeRow>>),
}

/// What the listing asks for next.
pub enum GetRelationsAction {
    FindOrg { org_slug: String },
    CheckMember { org_id: u128, user_id: u128 },
    ResolveIssue { org_id: u128, project_key: String, key_seq: i32 },
    FetchOutgoing { org_id: u128, issue_id: u128 },
    FetchIncoming { org_id: u128, issue_id: u128 },
    /// Answer: `Ok` is `200 OK`.
    Respond(Result<GetRelationsResponse, AppError>),
}

/// The listing of an issue's relations for `user_id`.
pub struct GetRelationsFlow {
    pub user_id: u128,
    pub step: GetRelationsStep,
}

/// The decision table of the listing of an issue's relations.
pub open spec fn get_relations_next(
    before: GetRelationsFlow,
    event: GetRelationsEvent,
    after: GetRelationsFlow,
    action: GetRelationsAction,
) -> bool {
    match (before.step, event) {
        (GetRelationsStep::AwaitOrg { .. }, GetRelationsEvent::OrgFound(Some(None))) => after.step is Finished && action
            == GetRelationsAction::Respond(Err(AppError::NotFound)),
        (GetRelationsStep::AwaitOrg { key }, GetRelationsEvent::OrgFound(Some(Some(org_id)))) => after.step
            == (GetRelationsStep::AwaitMember { org_id, key }) && action == (GetRelationsAction::CheckMember {
            org_id,
            user_id: before.user_id,
        }),
        (GetRelationsStep::AwaitMember { .. }, GetRelationsEvent::MemberChecked(Some(false))) => after.step is Finished
            && action == GetRelationsAction::Respond(Err(AppError::Forbidden)),
        (GetRelationsStep::AwaitMember { org_id, key }, GetRelationsEvent::MemberChecked(Some(true))) => after.step
            == (GetRelationsStep::AwaitIssue { org_id }) && action == (GetRelationsAction::ResolveIssue {
            org_id,
            project_key: key.project_key,
            key_seq: key.key_seq,
        }),
        (GetRelationsStep::AwaitIssue { .. }, GetRelationsEvent::IssueResolved(Some(None))) => after.step is Finished
            && action == GetRelationsAction::Respond(Err(AppError::NotFound)),
        (GetRelationsStep::AwaitIssue { org_id }, GetRelationsEvent::IssueResolved(Some(Some(row)))) => after.step
            == (GetRelationsStep::AwaitOutgoing { org_id, issue_id: row.issue_id }) && action
            == (GetRelationsAction::FetchOutgoing { org_id, issue_id: row.issue_id }),
        (GetRelationsStep::AwaitOutgoing { org_id, issue_id }, GetRelationsEvent::OutgoingFetched(Some(outgoing))) => after.step
            == (GetRelationsStep::AwaitIncoming { outgoing }) && action == (GetRelationsAction::FetchIncoming {
            org_id,
            issue_id,
        }),
        (GetRelationsStep::AwaitIncoming { outgoing }, GetRelationsEvent::IncomingFetched(Some(incoming))) => after.step is Finished
            && (action matches GetRelationsAction::Respond(Ok(r)) && relations_of(r, outgoing@, incoming@)),
        _ => after.step is Finished && action == GetRelationsAction::Respond(Err(AppError::Internal)),
    }
}

impl GetRelationsFlow {
    /// Starts the listing: the key is read first, then the organization is looked up.
    pub fn start(org_slug: String, issue_key: &str, user_id: u128) -> (r: (GetRelationsFlow, GetRelationsAction))
        ensures
            r.0.user_id == user_id,
            issue_key_parts(issue_key@) is None ==> r.0.step is Finished && r.1 == GetRelationsAction::Respond(
                Err(AppError::BadRequest(Some("invalid issue key"))),
            ),
            issue_key_parts(issue_key@) is Some ==> (r.0.step matches GetRelationsStep::AwaitOrg { key } && key_is(
                key,
                issue_key_parts(issue_key@)->0,
            )) && r.1 == (GetRelationsAction::FindOrg { org_slug }),
    {
        match read_issue_key(issue_key) {
            Ok(key) => (GetRelationsFlow { user_id, step: GetRelationsStep::AwaitOrg { key } }, GetRelationsAction::FindOrg {
                org_slug,
            }),
            Err(e) => (GetRelationsFlow { user_id, step: GetRelationsStep::Finished }, GetRelationsAction::Respond(Err(e))),
        }
    }

    /// Takes in what the outside world reports and says what to do next.
    pub fn step(&mut self, event: GetRelationsEvent) -> (action: GetRelationsAction)
        ensures
            final(self).user_id == old(self).user_id,
            get_relations_next(*old(self), event, *final(self), action),
    {
        let mut step = GetRelationsStep::Finished;
        std::mem::swap(&mut step, &mut self.step);
        match (step, event) {
            (GetRelationsStep::AwaitOrg { .. }, GetRelationsEvent::OrgFound(Some(None))) => GetRelationsAction::Respond(
                Err(AppError::NotFound),
            ),
            (GetRelationsStep::AwaitOrg { key }, GetRelationsEvent::OrgFound(Some(Some(org_id)))) => {
                self.step = GetRelationsStep::AwaitMember { org_id, key };
                GetRelationsAction::CheckMember { org_id, user_id: self.user_id }
            },
            (GetRelationsStep::AwaitMember { .. }, GetRelationsEvent::MemberChecked(Some(false))) => GetRelationsAction::Respond(
                Err(AppError::Forbidden),
            ),
            (GetRelationsStep::AwaitMember { org_id, key }, GetRelationsEvent::MemberChecked(Some(true))) => {
                self.step = GetRelationsStep::AwaitIssue { org_id };
                GetRelationsAction::ResolveIssue { org_id, project_key: key.project_key, key_seq: key.key_seq }
            },
            (GetRelationsStep::AwaitIssue { .. }, GetRelationsEvent::IssueResolved(Some(None))) => GetRelationsAction::Respond(
                Err(AppError::NotFound),
            ),
            (GetRelationsStep::AwaitIssue { org_id }, GetRelationsEvent::IssueResolved(Some(Some(row)))) => {
                self.step = GetRelationsStep::AwaitOutgoing { org_id, issue_id: row.issue_id };
                GetRelationsAction::FetchOutgoing { org_id, issue_id: row.issue_id }
            },
            (GetRelationsStep::AwaitOutgoing { org_id, issue_id }, GetRelationsEvent::OutgoingFetched(Some(outgoing))) => {
                self.step = GetRelationsStep::AwaitIncoming { outgoing };
                GetRelationsAction::FetchIncoming { org_id, issue_id }
            },
            (GetRelationsStep::AwaitIncoming { outgoing }, GetRelationsEvent::IncomingFetched(Some(incoming))) => {
                GetRelationsAction::Respond(Ok(build_relations(&outgoing, &incoming)))
            },
            _ => GetRelationsAction::Respond(Err(AppError::Internal)),
        }
    }
}

/// Where the removal of a relation stands.
pub enum DeleteRelationStep {
    AwaitOrg,
    AwaitMember { org_id: u128 },
    AwaitRelation { org_id: u128 },
    AwaitDelete { org_id: u128, record: RelationRecord },
    AwaitEvent,
    Finished,
}

/// What the outside world reports back; `None` stands for a failed database call.
pub enum DeleteRelationEvent {
    OrgFound(Option<Option<u128>>),
    MemberChecked(Option<bool>),
    RelationFound(Option<Option<RelationRecord>>),
    /// How many relations were deleted.
    Deleted(Option<u64>),
    /// The event was recorded, or its failure logged.
    EventRecorded,
}

/// What the removal asks for next.
pub enum DeleteRelationAction {
    FindOrg { org_slug: String },
    CheckMember { org_id: u128, user_id: u128 },
    FindRelation { org_id: u128, relation_id: u128 },
    Delete { org_id: u128, relation_id: u128 },
    /// Record a `relation_removed` event on the source issue, with payload
    /// `{"relation_id": …, "relation_type": …}`; a failure is only logged.
    RecordRemoved { org_id: u128, issue_id: u128, actor_id: u128, relation_id: u128, relation_type: String },
    /// Answer: `Ok` is `204 No Content`.
    Respond(Result<(), AppError>),
}

/// The removal of relation `relation_id` by `user_id`.
pub struct DeleteRelationFlow {
    pub user_id: u128,
    pub relation_id: u128,
    pub step: DeleteRelationStep,
}

/// The decision table of the removal of a relation.
pub open spec fn delete_relation_next(
    before: DeleteRelationFlow,
    event: DeleteRelationEvent,
    after: DeleteRelationFlow,
    action: DeleteRelationAction,
) -> bool {
    match (before.step, event) {
        (DeleteRelationStep::AwaitOrg, DeleteRelationEvent::OrgFound(Some(None))) => after.step is Finished && action
            == DeleteRelationAction::Respond(Err(AppError::NotFound)),
        (DeleteRelationStep::AwaitOrg, DeleteRelationEvent::OrgFound(Some(Some(org_id)))) => after.step
            == (DeleteRelationStep::AwaitMember { org_id }) && action == (DeleteRelationAction::CheckMember {
            org_id,
            user_id: before.user_id,
        }),
        (DeleteRelationStep::AwaitMember { .. }, DeleteRelationEvent::MemberChecked(Some(false))) => after.step is Finished
            && action == DeleteRelationAction::Respond(Err(AppError::Forbidden)),
        (DeleteRelationStep::AwaitMember { org_id }, DeleteRelationEvent::MemberChecked(Some(true))) => after.step
            == (DeleteRelationStep::AwaitRelation { org_id }) && action == (DeleteRelationAction::FindRelation {
            org_id,
            relation_id: before.relation_id,
        }),
        (DeleteRelationStep::AwaitRelation { .. }, DeleteRelationEvent::RelationFound(Some(None))) => after.step is Finished
            && action == DeleteRelationAction::Respond(Err(AppError::NotFound)),
        (DeleteRelationStep::AwaitRelation { org_id }, DeleteRelationEvent::RelationFound(Some(Some(record)))) => after.step
            == (DeleteRelationStep::AwaitDelete { org_id, record }) && action == (DeleteRelationAction::Delete {
            org_id,
            relation_id: before.relation_id,
        }),
        (DeleteRelationStep::AwaitDelete { org_id, record }, DeleteRelationEvent::Deleted(Some(n))) => if n == 0 {
            after.step is Finished && action == DeleteRelationAction::Respond(Err(AppError::NotFound))
        } else {
            after.step is AwaitEvent && (action matches DeleteRelationAction::RecordRemoved {
                org_id: o,
                issue_id,
                actor_id,
                relation_id,
                relation_type,
            } && o == org_id && issue_id == record.source_issue_id && actor_id == before.user_id && relation_id
                == before.relation_id && relation_type@ == record.relation_type@)
        },
        (DeleteRelationStep::AwaitEvent, DeleteRelationEvent::EventRecorded) => after.step is Finished && action
            == DeleteRelationAction::Respond(Ok(())),
        _ => after.step is Finished && action == DeleteRelationAction::Respond(Err(AppError::Internal)),
    }
}

impl DeleteRelationFlow {
    /// Starts the removal: find the organization.
    pub fn start(org_slug: String, user_id: u128, relation_id: u128) -> (r: (DeleteRelationFlow, DeleteRelationAction))
        ensures
            r.0.user_id == user_id && r.0.relation_id == relation_id && r.0.step is AwaitOrg,
            r.1 == (DeleteRelationAction::FindOrg { org_slug }),
    {
        (DeleteRelationFlow { user_id, relation_id, step: DeleteRelationStep::AwaitOrg }, DeleteRelationAction::FindOrg {
            org_slug,
        })
    }

    /// Takes in what the outside world reports and says what to do next.
    pub fn step(&mut self, event: DeleteRelationEvent) -> (action: DeleteRelationAction)
        ensures
            final(self).user_id == old(self).user_id && final(self).relation_id == old(self).relation_id,
            delete_relation_next(*old(self), event, *final(self), action),
    {
        let mut step = DeleteRelationStep::Finished;
        std::mem::swap(&mut step, &mut self.step);
        match (step, event) {
            (DeleteRelationStep::AwaitOrg, DeleteRelationEvent::OrgFound(Some(None))) => DeleteRelationAction::Respond(
                Err(AppError::NotFound),
            ),
            (DeleteRelationStep::AwaitOrg, DeleteRelationEvent::OrgFound(Some(Some(org_id)))) => {
                self.step = DeleteRelationStep::AwaitMember { org_id };
                DeleteRelationAction::CheckMember { org_id, user_id: self.user_id }
            },
            (DeleteRelationStep::AwaitMember { .. }, DeleteRelationEvent::MemberChecked(Some(false))) => DeleteRelationAction::Respond(
                Err(AppError::Forbidden),
            ),
            (DeleteRelationStep::AwaitMember { org_id }, DeleteRelationEvent::MemberChecked(Some(true))) => {
                self.step = DeleteRelationStep::AwaitRelation { org_id };
                DeleteRelationAction::FindRelation { org_id, relation_id: self.relation_id }
            },
            (DeleteRelationStep::AwaitRelation { .. }, DeleteRelationEvent::RelationFound(Some(None))) => DeleteRelationAction::Respond(
                Err(AppError::NotFound),
            ),
            (DeleteRelationStep::AwaitRelation { org_id }, DeleteRelationEvent::RelationFound(Some(Some(record)))) => {
                self.step = DeleteRelationStep::AwaitDelete { org_id, record };
                DeleteRelationAction::Delete { org_id, relation_id: self.relation_id }
            },
            (DeleteRelationStep::AwaitDelete { org_id, record }, DeleteRelationEvent::Deleted(Some(n))) => {
                if n == 0 {
                    DeleteRelationAction::Respond(Err(AppError::NotFound))
                } else {
                    self.step = DeleteRelationStep::AwaitEvent;
                    DeleteRelationAction::RecordRemoved {
                        org_id,
                        issue_id: record.source_issue_id,
                        actor_id: self.user_id,
                        relation_id: self.relation_id,
                        relation_type: record.relation_type,
                    }
                }
            },
            (DeleteRelationStep::AwaitEvent, DeleteRelationEvent::EventRecorded) => DeleteRelationAction::Respond(Ok(())),
            _ => DeleteRelationAction::Respond(Err(AppError::Internal)),
        }
    }
}

/// A relation is inserted once both issues were resolved, only of a known kind,
/// and the kind inserted is the one requested.
pub proof fn lemma_relation_insert_checked(
    before: CreateRelationFlow,
    event: CreateRelationEvent,
    after: CreateRelationFlow,
    action: CreateRelationAction,
)
    requires
        create_relation_inv(before),
        create_relation_next(before, event, after, action),
        action is Insert,
    ensures
        before.step is AwaitTarget,
        event matches CreateRelationEvent::IssueResolved(Some(Some(row))) && action->Insert_target_issue_id == row.issue_id,
        action->Insert_relation_type@ == before.req.relation_type@,
        relation_types().contains(action->Insert_relation_type@),
{
}

} // verus!
