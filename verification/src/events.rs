use vstd::prelude::*;
use crate::error::AppError;
use crate::issue_edit::{read_issue_key, IssueKey};
use crate::issue_key::issue_key_parts;
use crate::issue_view::IssueIdRow;

verus! {

/// A JSON document, carried through unread.
#[verifier::external_type_specification]
#[verifier::external_body]
pub struct ExJsonValue(serde_json::Value);

/// An event of an issue's activity log, as stored with its actor's account, if any.
pub struct EventRow {
    pub id: u128,
    pub event_type: String,
    /// Microseconds since the Unix epoch.
    pub created_at: i64,
    pub actor_id: Option<u128>,
    pub actor_name: Option<String>,
    pub actor_email: Option<String>,
    pub payload: serde_json::Value,
}

/// Who did something.
pub struct EventActor {
    pub user_id: u128,
    pub name: String,
    pub email: String,
}

/// An event, as shown.
pub struct EventItem {
    pub event_id: u128,
    pub event_type: String,
    /// Microseconds since the Unix epoch.
    pub created_at: i64,
    pub actor: Option<EventActor>,
    pub payload: serde_json::Value,
}

/// An issue's activity log, oldest first as stored.
pub struct ListEventsResponse {
    pub items: Vec<EventItem>,
}

/// The actor shown for an event: none without an actor id; else the id, with the
/// name (`"Unknown"` when missing) and the email (empty when missing).
pub open spec fn shows_actor(a: Option<EventActor>, id: Option<u128>, name: Option<String>, email: Option<String>) -> bool {
    match id {
        None => a is None,
        Some(u) => a matches Some(actor) && actor.user_id == u && actor.name@ == match name {
            Some(n) => n@,
            None => "Unknown"@,
        } && actor.email@ == match email {
            Some(e) => e@,
            None => ""@,
        },
    }
}

/// `item` shows the event `row`.
pub open spec fn shows_event(item: EventItem, row: EventRow) -> bool {
    &&& item.event_id == row.id
    &&& item.event_type@ == row.event_type@
    &&& item.created_at == row.created_at
    &&& item.payload == row.payload
    &&& shows_actor(item.actor, row.actor_id, row.actor_name, row.actor_email)
}

/// The actor of an event, from what is stored of it.
pub fn event_actor(id: Option<u128>, name: Option<String>, email: Option<String>) -> (a: Option<EventActor>)
    ensures
        shows_actor(a, id, name, email),
{
    proof {
        reveal_strlit("Unknown");
        reveal_strlit("");
    }
    match id {
        None => None,
        Some(user_id) => {
            let name = match name {
                Some(n) => n,
                None => "Unknown".to_string(),
            };
            let email = match email {
                Some(e) => e,
                None => "".to_string(),
            };
            Some(EventActor { user_id, name, email })
        },
    }
}

/// Shows each event of the log, in order.
pub fn event_items(rows: Vec<EventRow>) -> (items: Vec<EventItem>)
    ensures
        items.len() == rows.len(),
        forall|k: int| 0 <= k < rows.len() ==> shows_event(#[trigger] items@[k], rows@[k]),
{
    let ghost all = rows@;
    let mut rows = rows;
    let mut items: Vec<EventItem> = Vec::new();
    while rows.len() > 0
        invariant
            items.len() + rows.len() == all.len(),
            rows@ == all.subrange(items.len() as int, all.len() as int),
            forall|k: int| 0 <= k < items.len() ==> shows_event(#[trigger] items@[k], all[k]),
        decreases rows.len(),
    {
        let r = rows.remove(0);
        assert(r == all[items.len() as int]);
        let actor = event_actor(r.actor_id, r.actor_name, r.actor_email);
        items.push(
            EventItem { event_id: r.id, event_type: r.event_type, created_at: r.created_at, actor, payload: r.payload },
        );
        assert(rows@ =~= all.subrange(items.len() as int, all.len() as int));
    }
    items
}

/// Where the listing of an issue's activity log stands.
pub enum ListEventsStep {
    AwaitOrg { key: IssueKey },
    AwaitIssue,
    AwaitMember { issue_id: u128 },
    AwaitRows,
    Finished,
}

/// What the outside world reports back; `None` stands for a failed database call.
pub enum ListEventsEvent {
    OrgFound(Option<Option<u128>>),
    IssueResolved(Option<Option<IssueIdRow>>),
    MemberChecked(Option<bool>),
    RowsFetched(Option<Vec<EventRow>>),
}

/// What the listing asks for next.
pub enum ListEventsAction {
    FindOrg { org_slug: String },
    ResolveIssue { org_id: u128, project_key: String, key_seq: i32 },
    /// Is the user a member of the issue's project?
    CheckMember { project_id: u128, user_id: u128 },
    FetchEvents { issue_id: u128 },
    /// Answer: `Ok` is `200 OK`.
    Respond(Result<ListEventsResponse, AppError>),
}

/// The listing of an issue's activity log for `user_id`.
pub struct ListEventsFlow {
    pub user_id: u128,
    pub step: ListEventsStep,
}

/// The decision table of the listing of an issue's activity log.
pub open spec fn list_events_next(before: ListEventsFlow, event: ListEventsEvent, after: ListEventsFlow, action: ListEventsAction) -> bool {
    match (before.step, event) {
        (ListEventsStep::AwaitOrg { .. }, ListEventsEvent::OrgFound(Some(None))) => after.step is Finished && action
            == ListEventsAction::Respond(Err(AppError::NotFound)),
        (ListEventsStep::AwaitOrg { key }, ListEventsEvent::OrgFound(Some(Some(org_id)))) => after.step is AwaitIssue
            && action == (ListEventsAction::ResolveIssue { org_id, project_key: key.project_key, key_seq: key.key_seq }),
        (ListEventsStep::AwaitIssue, ListEventsEvent::IssueResolved(Some(None))) => after.step is Finished && action
            == ListEventsAction::Respond(Err(AppError::NotFound)),
        (ListEventsStep::AwaitIssue, ListEventsEvent::IssueResolved(Some(Some(row)))) => after.step
            == (ListEventsStep::AwaitMember { issue_id: row.issue_id }) && action == (ListEventsAction::CheckMember {
            project_id: row.project_id,
            user_id: before.user_id,
        }),
        (ListEventsStep::AwaitMember { .. }, ListEventsEvent::MemberChecked(Some(false))) => after.step is Finished && action
            == ListEventsAction::Respond(Err(AppError::Forbidden)),
        (ListEventsStep::AwaitMember { issue_id }, ListEventsEvent::MemberChecked(Some(true))) => after.step is AwaitRows
            && action == (ListEventsAction::FetchEvents { issue_id }),
        (ListEventsStep::AwaitRows, ListEventsEvent::RowsFetched(Some(rows))) => after.step is Finished && (
        action matches ListEventsAction::Respond(Ok(r)) && r.items.len() == rows.len() && forall|k: int|
            0 <= k < rows.len() ==> shows_event(#[trigger] r.items@[k], rows@[k])),
        _ => after.step is Finished && action == ListEventsAction::Respond(Err(AppError::Internal)),
    }
}

impl ListEventsFlow {
    /// Starts the listing: the key is read first, then the organization is looked up.
    pub fn start(org_slug: String, issue_key: &str, user_id: u128) -> (r: (ListEventsFlow, ListEventsAction))
        ensures
            r.0.user_id == user_id,
            issue_key_parts(issue_key@) is None ==> r.0.step is Finished && r.1 == ListEventsAction::Respond(
                Err(AppError::BadRequest(Some("invalid issue key"))),
            ),
            issue_key_parts(issue_key@) matches Some(parts) ==> (r.0.step matches ListEventsStep::AwaitOrg { key }
                && key.project_key@ == parts.0 && key.key_seq == parts.1) && r.1 == (ListEventsAction::FindOrg { org_slug }),
    {
        match read_issue_key(issue_key) {
            Ok(key) => (ListEventsFlow { user_id, step: ListEventsStep::AwaitOrg { key } }, ListEventsAction::FindOrg {
                org_slug,
            }),
            Err(e) => (ListEventsFlow { user_id, step: ListEventsStep::Finished }, ListEventsAction::Respond(Err(e))),
        }
    }

    /// Takes in what the outside world reports and says what to do next.
    pub fn step(&mut self, event: ListEventsEvent) -> (action: ListEventsAction)
        ensures
            final(self).user_id == old(self).user_id,
            list_events_next(*old(self), event, *final(self), action),
    {
        let mut step = ListEventsStep::Finished;
        std::mem::swap(&mut step, &mut self.step);
        match (step, event) {
            (ListEventsStep::AwaitOrg { .. }, ListEventsEvent::OrgFound(Some(None))) => ListEventsAction::Respond(
                Err(AppError::NotFound),
            ),
            (ListEventsStep::AwaitOrg { key }, ListEventsEvent::OrgFound(Some(Some(org_id)))) => {
                self.step = ListEventsStep::AwaitIssue;
                ListEventsAction::ResolveIssue { org_id, project_key: key.project_key, key_seq: key.key_seq }
            },
            (ListEventsStep::AwaitIssue, ListEventsEvent::IssueResolved(Some(None))) => ListEventsAction::Respond(
                Err(AppError::NotFound),
            ),
            (ListEventsStep::AwaitIssue, ListEventsEvent::IssueResolved(Some(Some(row)))) => {
                self.step = ListEventsStep::AwaitMember { issue_id: row.issue_id };
                ListEventsAction::CheckMember { project_id: row.project_id, user_id: self.user_id }
            },
            (ListEventsStep::AwaitMember { .. }, ListEventsEvent::MemberChecked(Some(false))) => ListEventsAction::Respond(
                Err(AppError::Forbidden),
            ),
            (ListEventsStep::AwaitMember { issue_id }, ListEventsEvent::MemberChecked(Some(true))) => {
                self.step = ListEventsStep::AwaitRows;
                ListEventsAction::FetchEvents { issue_id }
            },
            (ListEventsStep::AwaitRows, ListEventsEvent::RowsFetched(Some(rows))) => ListEventsAction::Respond(
                Ok(ListEventsResponse { items: event_items(rows) }),
            ),
            _ => ListEventsAction::Respond(Err(AppError::Internal)),
        }
    }
}

} // verus!
