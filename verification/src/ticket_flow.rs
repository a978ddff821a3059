//! Creating and deleting a ticket, as the steps of one database transaction.
//! Each flow is a state machine: given where it stands and what the database
//! answered, it says what to ask the database next, or how the transaction
//! ends (commit on `Ok`, roll back on `Err`). The caller runs the steps.

use crate::records::{Ticket, Timestamp, UserRelation};
use crate::query::Order;
use crate::ticket_query::{TicketCondition, TicketOrderKey, TicketSelection};
use crate::ticket_service::{
    applied_first_giving_date, apply_first_giving_date_update_at, first_giving_date_update_after_create,
    first_giving_dates_consistent, is_oldest_ticket, law_create_keeps_first_giving_dates,
    law_delete_keeps_first_giving_dates, new_ticket_at, new_ticket_status, oldest_giving_ticket_query,
    recount_update, side_after_deleted, side_to_recount_after_delete, update_after_created,
    CreateTicketParams, FirstGivingDateUpdate, GivingSide, NewTicket, TicketServiceError,
};
use crate::user_relations::{UserRelationQuery, UserRelationSelection};
use vstd::prelude::*;

verus! {

/// What a ticket flow asks the database to do next.
#[derive(Clone, Debug)]
pub enum TicketAction {
    /// Look up one relation; answered by `RelationFound`.
    FindRelation(UserRelationSelection),
    /// Insert a ticket row; answered by `TicketInserted` with the stored row.
    InsertTicket(NewTicket),
    /// Delete the ticket with this id; answered by `TicketDeleted`.
    DeleteTicket(i64),
    /// Fetch the first ticket that the query selects; answered by `TicketFound`.
    FindFirstTicket(TicketSelection),
    /// Store the relation; answered by `RelationUpdated`.
    UpdateRelation(UserRelation),
}

/// How the transaction that a flow runs in ends.
#[derive(Clone, Copy, Debug, PartialEq, Eq, Structural)]
pub enum TransactionEnd {
    Commit,
    Rollback,
}

/// The database as it stands once a transaction has ended: what the
/// transaction wrote when it is committed, what stood before when it is
/// rolled back.
pub open spec fn settled<D>(before: D, written: D, end: TransactionEnd) -> D {
    match end {
        TransactionEnd::Commit => written,
        TransactionEnd::Rollback => before,
    }
}

/// What the database answered.
#[derive(Clone, Debug)]
pub enum TicketEvent {
    RelationFound(Option<UserRelation>),
    TicketInserted(Ticket),
    TicketDeleted,
    TicketFound(Option<Ticket>),
    RelationUpdated,
    /// The database failed, with its message.
    DbFailed(String),
}

/// The lookup of relation `id` among those of `user_id`.
pub open spec fn finds_relation(s: UserRelationSelection, id: i64, user_id: i64) -> bool {
    &&& forall|r: UserRelation| #[trigger] s.admits(r) <==> r.id == id && r.has_member(user_id)
    &&& s.order_by_created_at is None
}

/// The query for the oldest ticket that `user_id` gave in the relation.
pub open spec fn finds_oldest_given(q: TicketSelection, user_relation_id: i64, user_id: i64) -> bool {
    &&& !q.join_wish
    &&& !q.join_user_relation
    &&& q.conditions@ == seq![
        TicketCondition::UserRelation(user_relation_id),
        TicketCondition::GivingUser(user_id),
    ]
    &&& q.order_by@ == seq![(TicketOrderKey::GiftDate, Order::Asc)]
}

/// `row` is the ticket that `user_id` asks for with `params`, stamped `now`.
pub open spec fn is_new_ticket(row: NewTicket, user_id: i64, params: CreateTicketParams, now: Timestamp) -> bool {
    &&& row.giving_user_id == user_id
    &&& row.description == params.description
    &&& row.user_relation_id == params.user_relation_id
    &&& row.gift_date == params.gift_date
    &&& row.status@ == new_ticket_status(params.is_draft).value()
    &&& row.is_special == params.is_special
    &&& row.created_at == now
    &&& row.updated_at == now
}

// ---------------------------------------------------------------------------
// Creating a ticket.

/// Where creating a ticket stands.
#[derive(Debug)]
pub enum CreateTicketState {
    /// Waiting for the relation the ticket is given in.
    FindingRelation { user_id: i64, params: CreateTicketParams, now: Timestamp },
    /// Waiting for the stored ticket.
    Inserting { relation: UserRelation, now: Timestamp },
    /// Waiting for the relation's new earliest gift date to be stored.
    UpdatingRelation { ticket: Ticket },
    /// The outcome.
    Done(Result<Ticket, TicketServiceError>),
}

impl CreateTicketState {
    /// The flow waits for `event` (a failure may come at any step).
    pub open spec fn expects(self, event: TicketEvent) -> bool {
        match (self, event) {
            (CreateTicketState::Done(_), _) => false,
            (_, TicketEvent::DbFailed(_)) => true,
            (CreateTicketState::FindingRelation { .. }, TicketEvent::RelationFound(_)) => true,
            (CreateTicketState::Inserting { .. }, TicketEvent::TicketInserted(_)) => true,
            (CreateTicketState::UpdatingRelation { .. }, TicketEvent::RelationUpdated) => true,
            _ => false,
        }
    }

    /// Whether the flow waits for `event`.
    pub fn accepts(&self, event: &TicketEvent) -> (res: bool)
        ensures
            res == self.expects(*event),
    {
        match (self, event) {
            (CreateTicketState::Done(_), _) => false,
            (_, TicketEvent::DbFailed(_)) => true,
            (CreateTicketState::FindingRelation { .. }, TicketEvent::RelationFound(_)) => true,
            (CreateTicketState::Inserting { .. }, TicketEvent::TicketInserted(_)) => true,
            (CreateTicketState::UpdatingRelation { .. }, TicketEvent::RelationUpdated) => true,
            _ => false,
        }
    }
}

impl CreateTicketState {
    /// How the transaction ends once the flow is done: committed after
    /// success, rolled back after a failure.
    pub open spec fn end(self) -> Option<TransactionEnd> {
        match self {
            CreateTicketState::Done(Ok(_)) => Some(TransactionEnd::Commit),
            CreateTicketState::Done(Err(_)) => Some(TransactionEnd::Rollback),
            _ => None,
        }
    }

    /// How the transaction ends, if the flow is done.
    pub fn transaction_end(&self) -> (res: Option<TransactionEnd>)
        ensures
            res == self.end(),
    {
        match self {
            CreateTicketState::Done(Ok(_)) => Some(TransactionEnd::Commit),
            CreateTicketState::Done(Err(_)) => Some(TransactionEnd::Rollback),
            _ => None,
        }
    }
}

/// Starts creating the ticket that `user_id` asks for, at time `now`: first
/// the relation is looked up among those of the user.
pub fn create_ticket_start(user_id: i64, params: CreateTicketParams, now: Timestamp) -> (res: (
    CreateTicketState,
    TicketAction,
))
    ensures
        res.0 == (CreateTicketState::FindingRelation { user_id, params, now }),
        res.1 matches TicketAction::FindRelation(s) && finds_relation(s, params.user_relation_id, user_id),
{
    let find = UserRelationQuery::find_by_id(params.user_relation_id, user_id);
    (CreateTicketState::FindingRelation { user_id, params, now }, TicketAction::FindRelation(find))
}

/// What one step of creating a ticket does: `res` is the next state and the
/// next request to the database, if any.
pub open spec fn create_step(
    state: CreateTicketState,
    event: TicketEvent,
    res: (CreateTicketState, Option<TicketAction>),
) -> bool {
    match (state, event) {
        (_, TicketEvent::DbFailed(m)) => res.0 == CreateTicketState::Done(
            Err(TicketServiceError::DbErr(m)),
        ) && res.1 is None,
        (
            CreateTicketState::FindingRelation { user_id, params, now },
            TicketEvent::RelationFound(found),
        ) => match found {
            None => res.0 == CreateTicketState::Done(
                Err(TicketServiceError::UserRelationNotFound(params.user_relation_id)),
            ) && res.1 is None,
            Some(relation) => {
                &&& res.0 == (CreateTicketState::Inserting { relation, now })
                &&& res.1 matches Some(TicketAction::InsertTicket(row)) && is_new_ticket(
                    row,
                    user_id,
                    params,
                    now,
                )
            },
        },
        (CreateTicketState::Inserting { relation, now }, TicketEvent::TicketInserted(ticket)) => {
            match update_after_created(relation, ticket) {
                None => res.0 == CreateTicketState::Done(Ok(ticket)) && res.1 is None,
                Some(update) => res.0 == (CreateTicketState::UpdatingRelation { ticket })
                    && res.1 == Some(
                    TicketAction::UpdateRelation(applied_first_giving_date(relation, update, now)),
                ),
            }
        },
        (CreateTicketState::UpdatingRelation { ticket }, TicketEvent::RelationUpdated) => res.0
            == CreateTicketState::Done(Ok(ticket)) && res.1 is None,
        _ => false,
    }
}

/// One step of creating a ticket: a failure ends the flow with the database
/// error; a missing relation ends it with `UserRelationNotFound`; a found
/// relation leads to inserting the ticket; the stored ticket ends the flow,
/// unless it is earlier than the earliest gift date that the relation
/// remembers for its giver (or there is none), which is stored first.
pub fn create_ticket_step(state: CreateTicketState, event: TicketEvent) -> (res: (
    CreateTicketState,
    Option<TicketAction>,
))
    requires
        state.expects(event),
    ensures
        create_step(state, event, res),
        match (state, event) {
            (
                CreateTicketState::FindingRelation { user_id, params, now },
                TicketEvent::RelationFound(Some(_)),
            ) => res.1 matches Some(TicketAction::InsertTicket(row)) && (params.is_draft ==> row.status@
                == "draft"@) && (!params.is_draft ==> row.status@ == "unread"@),
            _ => true,
        },
{
    match event {
        TicketEvent::DbFailed(m) => (CreateTicketState::Done(Err(TicketServiceError::DbErr(m))), None),
        TicketEvent::RelationFound(found) => match state {
            CreateTicketState::FindingRelation { user_id, params, now } => match found {
                None => (
                    CreateTicketState::Done(
                        Err(TicketServiceError::UserRelationNotFound(params.user_relation_id)),
                    ),
                    None,
                ),
                Some(relation) => {
                    let row = new_ticket_at(user_id, params, now);
                    (CreateTicketState::Inserting { relation, now }, Some(TicketAction::InsertTicket(row)))
                },
            },
            _ => {
                proof {
                    assert(false);
                }
                (state, None)
            },
        },
        TicketEvent::TicketInserted(ticket) => match state {
            CreateTicketState::Inserting { relation, now } => {
                match first_giving_date_update_after_create(&relation, &ticket) {
                    None => (CreateTicketState::Done(Ok(ticket)), None),
                    Some(update) => {
                        let updated = apply_first_giving_date_update_at(relation, update, now);
                        (
                            CreateTicketState::UpdatingRelation { ticket },
                            Some(TicketAction::UpdateRelation(updated)),
                        )
                    },
                }
            },
            _ => {
                proof {
                    assert(false);
                }
                (state, None)
            },
        },
        TicketEvent::RelationUpdated => match state {
            CreateTicketState::UpdatingRelation { ticket } => (CreateTicketState::Done(Ok(ticket)), None),
            _ => {
                proof {
                    assert(false);
                }
                (state, None)
            },
        },
        _ => {
            proof {
                assert(false);
            }
            (state, None)
        },
    }
}

// ---------------------------------------------------------------------------
// Deleting a ticket.

/// Where deleting a ticket stands.
#[derive(Debug)]
pub enum DeleteTicketState {
    /// Waiting for the relation the ticket was given in.
    FindingRelation { user_id: i64, ticket: Ticket },
    /// Waiting for the ticket to be deleted.
    Deleting { user_id: i64, relation: UserRelation, ticket: Ticket },
    /// Waiting for the oldest ticket the user still gave in the relation.
    FindingOldest { relation: UserRelation, side: GivingSide },
    /// Waiting for the relation's recounted earliest gift date to be stored.
    UpdatingRelation,
    /// The outcome.
    Done(Result<(), TicketServiceError>),
}

impl DeleteTicketState {
    /// The flow waits for `event` (a failure may come at any step).
    pub open spec fn expects(self, event: TicketEvent) -> bool {
        match (self, event) {
            (DeleteTicketState::Done(_), _) => false,
            (_, TicketEvent::DbFailed(_)) => true,
            (DeleteTicketState::FindingRelation { .. }, TicketEvent::RelationFound(_)) => true,
            (DeleteTicketState::Deleting { .. }, TicketEvent::TicketDeleted) => true,
            (DeleteTicketState::FindingOldest { .. }, TicketEvent::TicketFound(_)) => true,
            (DeleteTicketState::UpdatingRelation, TicketEvent::RelationUpdated) => true,
            _ => false,
        }
    }

    /// Whether the flow waits for `event`.
    pub fn accepts(&self, event: &TicketEvent) -> (res: bool)
        ensures
            res == self.expects(*event),
    {
        match (self, event) {
            (DeleteTicketState::Done(_), _) => false,
            (_, TicketEvent::DbFailed(_)) => true,
            (DeleteTicketState::FindingRelation { .. }, TicketEvent::RelationFound(_)) => true,
            (DeleteTicketState::Deleting { .. }, TicketEvent::TicketDeleted) => true,
            (DeleteTicketState::FindingOldest { .. }, TicketEvent::TicketFound(_)) => true,
            (DeleteTicketState::UpdatingRelation, TicketEvent::RelationUpdated) => true,
            _ => false,
        }
    }
}

impl DeleteTicketState {
    /// How the transaction ends once the flow is done: committed after
    /// success, rolled back after a failure.
    pub open spec fn end(self) -> Option<TransactionEnd> {
        match self {
            DeleteTicketState::Done(Ok(_)) => Some(TransactionEnd::Commit),
            DeleteTicketState::Done(Err(_)) => Some(TransactionEnd::Rollback),
            _ => None,
        }
    }

    /// How the transaction ends, if the flow is done.
    pub fn transaction_end(&self) -> (res: Option<TransactionEnd>)
        ensures
            res == self.end(),
    {
        match self {
            DeleteTicketState::Done(Ok(_)) => Some(TransactionEnd::Commit),
            DeleteTicketState::Done(Err(_)) => Some(TransactionEnd::Rollback),
            _ => None,
        }
    }
}

/// Starts deleting `ticket` on behalf of `user_id`: first the ticket's
/// relation is looked up among those of the user.
pub fn delete_ticket_start(user_id: i64, ticket: Ticket) -> (res: (DeleteTicketState, TicketAction))
    ensures
        res.0 == (DeleteTicketState::FindingRelation { user_id, ticket }),
        res.1 matches TicketAction::FindRelation(s) && finds_relation(s, ticket.user_relation_id, user_id),
{
    let find = UserRelationQuery::find_by_id(ticket.user_relation_id, user_id);
    (DeleteTicketState::FindingRelation { user_id, ticket }, TicketAction::FindRelation(find))
}

/// What one step of deleting a ticket does at time `now`: `res` is the next
/// state and the next request to the database, if any.
pub open spec fn delete_step(
    state: DeleteTicketState,
    event: TicketEvent,
    now: Timestamp,
    res: (DeleteTicketState, Option<TicketAction>),
) -> bool {
    match (state, event) {
        (_, TicketEvent::DbFailed(m)) => res.0 == DeleteTicketState::Done(
            Err(TicketServiceError::DbErr(m)),
        ) && res.1 is None,
        (DeleteTicketState::FindingRelation { user_id, ticket }, TicketEvent::RelationFound(found)) => {
            match found {
                None => res.0 == DeleteTicketState::Done(
                    Err(TicketServiceError::UserRelationNotFound(ticket.user_relation_id)),
                ) && res.1 is None,
                Some(relation) => res.0 == (DeleteTicketState::Deleting { user_id, relation, ticket })
                    && res.1 == Some(TicketAction::DeleteTicket(ticket.id)),
            }
        },
        (DeleteTicketState::Deleting { user_id, relation, ticket }, TicketEvent::TicketDeleted) => {
            match side_after_deleted(relation, ticket) {
                None => res.0 == DeleteTicketState::Done(Ok(())) && res.1 is None,
                Some(side) => {
                    &&& res.0 == (DeleteTicketState::FindingOldest { relation, side })
                    &&& res.1 matches Some(TicketAction::FindFirstTicket(q)) && finds_oldest_given(
                        q,
                        relation.id,
                        user_id,
                    )
                },
            }
        },
        (DeleteTicketState::FindingOldest { relation, side }, TicketEvent::TicketFound(oldest)) => res.0
            == DeleteTicketState::UpdatingRelation && res.1 == Some(
            TicketAction::UpdateRelation(
                applied_first_giving_date(
                    relation,
                    FirstGivingDateUpdate {
                        side,
                        date: match oldest {
                            Some(t) => Some(t.gift_date),
                            None => None,
                        },
                    },
                    now,
                ),
            ),
        ),
        (DeleteTicketState::UpdatingRelation, TicketEvent::RelationUpdated) => res.0
            == DeleteTicketState::Done(Ok(())) && res.1 is None,
        _ => false,
    }
}

/// One step of deleting a ticket: a failure ends the flow with the database
/// error; a missing relation ends it with `UserRelationNotFound`; a found
/// relation leads to deleting the ticket; once deleted, when the ticket
/// carried the earliest gift date that the relation remembers for its giver,
/// the oldest ticket that the user still gave there is fetched and its date
/// (none, if there is none) stored at time `now`.
pub fn delete_ticket_step(state: DeleteTicketState, event: TicketEvent, now: Timestamp) -> (res: (
    DeleteTicketState,
    Option<TicketAction>,
))
    requires
        state.expects(event),
    ensures
        delete_step(state, event, now, res),
{
    match event {
        TicketEvent::DbFailed(m) => (DeleteTicketState::Done(Err(TicketServiceError::DbErr(m))), None),
        TicketEvent::RelationFound(found) => match state {
            DeleteTicketState::FindingRelation { user_id, ticket } => match found {
                None => (
                    DeleteTicketState::Done(
                        Err(TicketServiceError::UserRelationNotFound(ticket.user_relation_id)),
                    ),
                    None,
                ),
                Some(relation) => {
                    let id = ticket.id;
                    (
                        DeleteTicketState::Deleting { user_id, relation, ticket },
                        Some(TicketAction::DeleteTicket(id)),
                    )
                },
            },
            _ => {
                proof {
                    assert(false);
                }
                (state, None)
            },
        },
        TicketEvent::TicketDeleted => match state {
            DeleteTicketState::Deleting { user_id, relation, ticket } => {
                match side_to_recount_after_delete(&relation, &ticket) {
                    None => (DeleteTicketState::Done(Ok(())), None),
                    Some(side) => {
                        let q = oldest_giving_ticket_query(relation.id, user_id);
                        (
                            DeleteTicketState::FindingOldest { relation, side },
                            Some(TicketAction::FindFirstTicket(q)),
                        )
                    },
                }
            },
            _ => {
                proof {
                    assert(false);
                }
                (state, None)
            },
        },
        TicketEvent::TicketFound(oldest) => match state {
            DeleteTicketState::FindingOldest { relation, side } => {
                let update = recount_update(side, &oldest);
                let updated = apply_first_giving_date_update_at(relation, update, now);
                (DeleteTicketState::UpdatingRelation, Some(TicketAction::UpdateRelation(updated)))
            },
            _ => {
                proof {
                    assert(false);
                }
                (state, None)
            },
        },
        TicketEvent::RelationUpdated => match state {
            DeleteTicketState::UpdatingRelation => (DeleteTicketState::Done(Ok(())), None),
            _ => {
                proof {
                    assert(false);
                }
                (state, None)
            },
        },
        _ => {
            proof {
                assert(false);
            }
            (state, None)
        },
    }
}

// ---------------------------------------------------------------------------
// What the flows leave stored.

/// The relation as stored once a step is done: the relation that the step
/// asks to store, or else `relation` as it was.
pub open spec fn stored_relation(relation: UserRelation, action: Option<TicketAction>) -> UserRelation {
    match action {
        Some(TicketAction::UpdateRelation(r)) => r,
        _ => relation,
    }
}

/// Creating a ticket keeps the remembered earliest gift dates right: when the
/// stored ticket arrives, the relation that the flow stores next (or the
/// relation as found, when it stores none) holds the earliest gift date of
/// each of its users over the tickets with the new one.
pub proof fn law_create_flow_keeps_first_giving_dates(
    relation: UserRelation,
    tickets: Seq<Ticket>,
    ticket: Ticket,
    now: Timestamp,
    res: (CreateTicketState, Option<TicketAction>),
)
    requires
        relation.user_1_id != relation.user_2_id,
        first_giving_dates_consistent(relation, tickets),
        ticket.user_relation_id == relation.id,
        relation.has_member(ticket.giving_user_id),
        create_step(CreateTicketState::Inserting { relation, now }, TicketEvent::TicketInserted(ticket), res),
    ensures
        first_giving_dates_consistent(stored_relation(relation, res.1), tickets.push(ticket)),
{
    law_create_keeps_first_giving_dates(relation, tickets, ticket, now);
}

/// Deleting a ticket keeps the remembered earliest gift dates right, when the
/// user who deletes is the one who gave it: once the ticket is deleted, the
/// flow either stores nothing, or asks for the user's oldest remaining ticket
/// in the relation and stores the relation with that ticket's date; either
/// way the relation holds the earliest gift date of each of its users over the
/// remaining tickets.
pub proof fn law_delete_flow_keeps_first_giving_dates(
    relation: UserRelation,
    tickets: Seq<Ticket>,
    index: int,
    user_id: i64,
    oldest: Option<Ticket>,
    now: Timestamp,
    after_delete: (DeleteTicketState, Option<TicketAction>),
    after_oldest: (DeleteTicketState, Option<TicketAction>),
)
    requires
        relation.user_1_id != relation.user_2_id,
        first_giving_dates_consistent(relation, tickets),
        0 <= index < tickets.len(),
        tickets[index].user_relation_id == relation.id,
        tickets[index].giving_user_id == user_id,
        relation.has_member(user_id),
        delete_step(
            DeleteTicketState::Deleting { user_id, relation, ticket: tickets[index] },
            TicketEvent::TicketDeleted,
            now,
            after_delete,
        ),
        after_delete.1 is Some ==> is_oldest_ticket(tickets.remove(index), relation.id, user_id, oldest)
            && delete_step(after_delete.0, TicketEvent::TicketFound(oldest), now, after_oldest),
    ensures
        first_giving_dates_consistent(
            if after_delete.1 is Some {
                stored_relation(relation, after_oldest.1)
            } else {
                relation
            },
            tickets.remove(index),
        ),
{
    law_delete_keeps_first_giving_dates(relation, tickets, index, user_id, oldest, now);
}

/// A failed ticket creation leaves the database as it was: whatever step
/// fails, the flow ends in an error, its transaction is rolled back, and
/// the database settles on what stood before, whatever had been written.
pub proof fn law_failed_create_leaves_database<D>(
    state: CreateTicketState,
    event: TicketEvent,
    res: (CreateTicketState, Option<TicketAction>),
    before: D,
    written: D,
)
    requires
        state.expects(event),
        create_step(state, event, res),
        res.0 matches CreateTicketState::Done(Err(_)),
    ensures
        res.1 is None,
        res.0.end() == Some(TransactionEnd::Rollback),
        settled(before, written, res.0.end().unwrap()) == before,
{
}

/// A failed ticket deletion leaves the database as it was, for the same reason.
pub proof fn law_failed_delete_leaves_database<D>(
    state: DeleteTicketState,
    event: TicketEvent,
    now: Timestamp,
    res: (DeleteTicketState, Option<TicketAction>),
    before: D,
    written: D,
)
    requires
        state.expects(event),
        delete_step(state, event, now, res),
        res.0 matches DeleteTicketState::Done(Err(_)),
    ensures
        res.1 is None,
        res.0.end() == Some(TransactionEnd::Rollback),
        settled(before, written, res.0.end().unwrap()) == before,
{
}


/// A ticket is stored as a draft exactly when it is asked for as one: once the
/// relation is found, the row to insert has status `draft` when `is_draft` is
/// set and `unread` otherwise, is given by the user who asks, in the asked
/// relation, on the asked gift date.
pub proof fn law_created_ticket_is_draft_exactly_when_asked(
    user_id: i64,
    params: CreateTicketParams,
    now: Timestamp,
    relation: UserRelation,
    res: (CreateTicketState, Option<TicketAction>),
)
    requires
        create_step(
            CreateTicketState::FindingRelation { user_id, params, now },
            TicketEvent::RelationFound(Some(relation)),
            res,
        ),
    ensures
        res.1 matches Some(TicketAction::InsertTicket(row)) && (params.is_draft ==> row.status@ == "draft"@),
        res.1 matches Some(TicketAction::InsertTicket(row)) && (!params.is_draft ==> row.status@ == "unread"@),
        res.1 matches Some(TicketAction::InsertTicket(row)) && row.giving_user_id == user_id
            && row.user_relation_id == params.user_relation_id && row.gift_date == params.gift_date,
{
}

} // verus!
