//! The ticket service's rules. A ticket is given by one user of a relation to
//! the other. Each relation remembers, per user, the earliest gift date among
//! the tickets that user has given; creating and deleting tickets keep that
//! record up to date. The database work is done by the caller, which hands the
//! rows it read to these functions and stores the rows they return.

use crate::calendar::{first_day_of_month, last_day_of_month, Date, MAX_YEAR};
use crate::clock::current_timestamp;
use crate::query::{copy_terms, lemma_same_terms_pass, terms_view, Order, TextMatch};
use crate::records::{Ticket, TicketStatus, Timestamp, UserRelation};
use crate::text::{decimal_text, i64_text};
use crate::ticket_query::{
    condition_holds, TicketCondition, TicketOrderKey, TicketQuery, TicketRow, TicketSelection,
};
use vstd::prelude::*;

verus! {

/// What a user submits to create a ticket.
#[derive(Clone, Debug)]
pub struct CreateTicketParams {
    pub gift_date: Date,
    pub description: String,
    pub user_relation_id: i64,
    pub is_special: bool,
    pub is_draft: bool,
}

/// The fields of a ticket that an update may change; `None` keeps a field.
#[derive(Clone, Debug)]
pub struct UpdateTicketParams {
    pub description: Option<String>,
    pub status: Option<TicketStatus>,
    pub is_special: Option<bool>,
}

/// A ticket row before the database has assigned its id.
#[derive(Clone, Debug)]
pub struct NewTicket {
    pub giving_user_id: i64,
    pub description: String,
    pub user_relation_id: i64,
    pub gift_date: Date,
    pub status: String,
    pub is_special: bool,
    pub created_at: Timestamp,
    pub updated_at: Timestamp,
}

/// Which of the two users of a relation gave a ticket.
#[derive(Clone, Copy, Debug, PartialEq, Eq, Structural)]
pub enum GivingSide {
    User1,
    User2,
}

/// A change of the remembered earliest gift date of one side of a relation.
#[derive(Clone, Copy, Debug, PartialEq, Eq, Structural)]
pub struct FirstGivingDateUpdate {
    pub side: GivingSide,
    pub date: Option<Date>,
}

pub open spec fn new_ticket_status(is_draft: bool) -> TicketStatus {
    if is_draft { TicketStatus::Draft } else { TicketStatus::Unread }
}

/// The status a new ticket starts in: a draft stays hidden from the receiver.
pub fn new_ticket_status_for(is_draft: bool) -> (res: TicketStatus)
    ensures
        res == new_ticket_status(is_draft),
{
    if is_draft { TicketStatus::Draft } else { TicketStatus::Unread }
}

/// The row to insert for a ticket that `user_id` gives, stamped with `now`.
pub fn new_ticket_at(user_id: i64, params: CreateTicketParams, now: Timestamp) -> (res: NewTicket)
    ensures
        res.giving_user_id == user_id,
        res.description == params.description,
        res.user_relation_id == params.user_relation_id,
        res.gift_date == params.gift_date,
        res.status@ == new_ticket_status(params.is_draft).value(),
        res.is_special == params.is_special,
        res.created_at == now,
        res.updated_at == now,
{
    let status = new_ticket_status_for(params.is_draft);
    NewTicket {
        giving_user_id: user_id,
        description: params.description,
        user_relation_id: params.user_relation_id,
        gift_date: params.gift_date,
        status: status.to_value(),
        is_special: params.is_special,
        created_at: now,
        updated_at: now,
    }
}

/// The row to insert for a ticket that `user_id` gives, stamped with the
/// current time.
pub fn new_ticket(user_id: i64, params: CreateTicketParams) -> (res: NewTicket)
    ensures
        res.giving_user_id == user_id,
        res.description == params.description,
        res.user_relation_id == params.user_relation_id,
        res.gift_date == params.gift_date,
        res.status@ == new_ticket_status(params.is_draft).value(),
        res.is_special == params.is_special,
        res.created_at == res.updated_at,
{
    let now = current_timestamp();
    new_ticket_at(user_id, params, now)
}

/// The side a giver stands on: the first user, or else the second.
pub open spec fn side_of_giver(relation: UserRelation, giver: i64) -> GivingSide {
    if giver == relation.user_1_id { GivingSide::User1 } else { GivingSide::User2 }
}

pub open spec fn first_giving_date(relation: UserRelation, side: GivingSide) -> Option<Date> {
    match side {
        GivingSide::User1 => relation.first_user_1_giving_ticket_date,
        GivingSide::User2 => relation.first_user_2_giving_ticket_date,
    }
}

pub open spec fn applied_first_giving_date(
    relation: UserRelation,
    update: FirstGivingDateUpdate,
    now: Timestamp,
) -> UserRelation {
    match update.side {
        GivingSide::User1 => UserRelation {
            first_user_1_giving_ticket_date: update.date,
            updated_at: now,
            ..relation
        },
        GivingSide::User2 => UserRelation {
            first_user_2_giving_ticket_date: update.date,
            updated_at: now,
            ..relation
        },
    }
}

pub open spec fn update_after_created(relation: UserRelation, ticket: Ticket) -> Option<
    FirstGivingDateUpdate,
> {
    let side = side_of_giver(relation, ticket.giving_user_id);
    let replace = match first_giving_date(relation, side) {
        None => true,
        Some(date) => ticket.gift_date.before(date),
    };
    if replace {
        Some(FirstGivingDateUpdate { side, date: Some(ticket.gift_date) })
    } else {
        None
    }
}

pub open spec fn side_after_deleted(relation: UserRelation, ticket: Ticket) -> Option<GivingSide> {
    let side = side_of_giver(relation, ticket.giving_user_id);
    if first_giving_date(relation, side) == Some(ticket.gift_date) {
        Some(side)
    } else {
        None
    }
}

/// The relation as stored after a ticket was created.
pub open spec fn relation_after_created(
    relation: UserRelation,
    ticket: Ticket,
    now: Timestamp,
) -> UserRelation {
    match update_after_created(relation, ticket) {
        None => relation,
        Some(update) => applied_first_giving_date(relation, update, now),
    }
}

/// The relation as stored after a ticket was deleted, given the oldest ticket
/// that the giver still has in the relation.
pub open spec fn relation_after_deleted(
    relation: UserRelation,
    ticket: Ticket,
    oldest: Option<Ticket>,
    now: Timestamp,
) -> UserRelation {
    match side_after_deleted(relation, ticket) {
        None => relation,
        Some(side) => applied_first_giving_date(
            relation,
            FirstGivingDateUpdate {
                side,
                date: match oldest {
                    Some(t) => Some(t.gift_date),
                    None => None,
                },
            },
            now,
        ),
    }
}

/// After `ticket` was stored, whether the relation's remembered earliest gift
/// date of the giver must change: when there is none yet or the new ticket is
/// earlier. A giver who is not the first user is taken as the second.
pub fn first_giving_date_update_after_create(relation: &UserRelation, ticket: &Ticket) -> (res:
    Option<FirstGivingDateUpdate>)
    ensures
        res == update_after_created(*relation, *ticket),
{
    let side = if ticket.giving_user_id == relation.user_1_id {
        GivingSide::User1
    } else {
        GivingSide::User2
    };
    let current = match side {
        GivingSide::User1 => relation.first_user_1_giving_ticket_date,
        GivingSide::User2 => relation.first_user_2_giving_ticket_date,
    };
    let replace = match current {
        None => true,
        Some(date) => ticket.gift_date.is_before(&date),
    };
    if replace {
        Some(FirstGivingDateUpdate { side, date: Some(ticket.gift_date) })
    } else {
        None
    }
}

/// After `ticket` was deleted, the side whose remembered earliest gift date
/// must be found again: that of the giver, when the deleted ticket's gift date
/// is the remembered one.
pub fn side_to_recount_after_delete(relation: &UserRelation, ticket: &Ticket) -> (res: Option<
    GivingSide,
>)
    ensures
        res == side_after_deleted(*relation, *ticket),
{
    let side = if ticket.giving_user_id == relation.user_1_id {
        GivingSide::User1
    } else {
        GivingSide::User2
    };
    let current = match side {
        GivingSide::User1 => relation.first_user_1_giving_ticket_date,
        GivingSide::User2 => relation.first_user_2_giving_ticket_date,
    };
    let same = match current {
        Some(date) => date == ticket.gift_date,
        None => false,
    };
    if same {
        Some(side)
    } else {
        None
    }
}

/// The relation with one side's earliest gift date replaced, stamped `now`.
pub fn apply_first_giving_date_update_at(
    relation: UserRelation,
    update: FirstGivingDateUpdate,
    now: Timestamp,
) -> (res: UserRelation)
    ensures
        res == applied_first_giving_date(relation, update, now),
{
    let mut relation = relation;
    match update.side {
        GivingSide::User1 => {
            relation.first_user_1_giving_ticket_date = update.date;
        },
        GivingSide::User2 => {
            relation.first_user_2_giving_ticket_date = update.date;
        },
    }
    relation.updated_at = now;
    relation
}

/// The relation with one side's earliest gift date replaced, stamped with the
/// current time.
pub fn apply_first_giving_date_update(relation: UserRelation, update: FirstGivingDateUpdate) -> (res:
    UserRelation)
    ensures
        exists|now: Timestamp| res == applied_first_giving_date(relation, update, now),
{
    let now = current_timestamp();
    apply_first_giving_date_update_at(relation, update, now)
}

/// The update that records the gift date of the giver's oldest remaining
/// ticket (none when the giver has none left) on `side`.
pub fn recount_update(side: GivingSide, oldest: &Option<Ticket>) -> (res: FirstGivingDateUpdate)
    ensures
        res == (FirstGivingDateUpdate {
            side,
            date: match *oldest {
                Some(t) => Some(t.gift_date),
                None => None,
            },
        }),
{
    let date = match oldest {
        Some(t) => Some(t.gift_date),
        None => None,
    };
    FirstGivingDateUpdate { side, date }
}

/// What the ticket service reports when it cannot do what was asked.
#[derive(Clone, Debug)]
pub enum TicketServiceError {
    /// The database failed; its message.
    DbErr(String),
    /// No relation with this id has the requesting user.
    UserRelationNotFound(i64),
    /// No ticket with this id is visible to the requesting user.
    TicketNotFound(i64),
    ValidationError(String),
}

/// A failed database transaction: the connection failed, or the work inside
/// the transaction returned an error.
#[derive(Clone, Debug)]
pub enum TransactionError<E> {
    Connection(String),
    Transaction(E),
}

impl TicketServiceError {
    pub open spec fn text(self) -> Seq<char> {
        match self {
            TicketServiceError::DbErr(m) => m@,
            TicketServiceError::UserRelationNotFound(id) => "UserRelation not found for id: "@
                + decimal_text(id as int),
            TicketServiceError::TicketNotFound(id) => "Ticket not found for id: "@ + decimal_text(
                id as int,
            ),
            TicketServiceError::ValidationError(m) => m@,
        }
    }

    /// The error's message.
    pub fn message(&self) -> (res: String)
        ensures
            res@ == self.text(),
    {
        match self {
            TicketServiceError::DbErr(m) => m.clone(),
            TicketServiceError::UserRelationNotFound(id) => String::from_str(
                "UserRelation not found for id: ",
            ).concat(i64_text(*id).as_str()),
            TicketServiceError::TicketNotFound(id) => String::from_str(
                "Ticket not found for id: ",
            ).concat(i64_text(*id).as_str()),
            TicketServiceError::ValidationError(m) => m.clone(),
        }
    }
}

/// A failed transaction as a service error: a connection failure is a
/// database error, an error from inside the transaction is passed on.
pub fn parse_transaction_error(e: TransactionError<TicketServiceError>) -> (res: TicketServiceError)
    ensures
        match e {
            TransactionError::Connection(m) => res == TicketServiceError::DbErr(m),
            TransactionError::Transaction(inner) => res == inner,
        },
{
    match e {
        TransactionError::Connection(m) => TicketServiceError::DbErr(m),
        TransactionError::Transaction(inner) => inner,
    }
}

/// The relation that the lookup found, or `UserRelationNotFound`.
pub fn user_relation_or_not_found(found: Option<UserRelation>, user_relation_id: i64) -> (res: Result<
    UserRelation,
    TicketServiceError,
>)
    ensures
        match found {
            Some(r) => res == Ok::<UserRelation, TicketServiceError>(r),
            None => res == Err::<UserRelation, TicketServiceError>(
                TicketServiceError::UserRelationNotFound(user_relation_id),
            ),
        },
{
    match found {
        Some(r) => Ok(r),
        None => Err(TicketServiceError::UserRelationNotFound(user_relation_id)),
    }
}

/// The ticket (with whatever was fetched along) that the lookup found, or
/// `TicketNotFound`.
pub fn ticket_or_not_found<T>(found: Option<T>, ticket_id: i64) -> (res: Result<T, TicketServiceError>)
    ensures
        match found {
            Some(t) => res == Ok::<T, TicketServiceError>(t),
            None => res == Err::<T, TicketServiceError>(TicketServiceError::TicketNotFound(ticket_id)),
        },
{
    match found {
        Some(t) => Ok(t),
        None => Err(TicketServiceError::TicketNotFound(ticket_id)),
    }
}

/// The tickets of the relations that `user_id` belongs to.
pub fn tickets_with_access_to_user(user_id: i64) -> (res: TicketSelection)
    ensures
        !res.join_wish,
        res.join_user_relation,
        res.conditions@ == seq![TicketCondition::UserHasAccess(user_id)],
        res.order_by@ == Seq::<(TicketOrderKey, Order)>::empty(),
{
    let res = TicketQuery::init_query().filter_which_user_has_access(user_id).query;
    assert(res.conditions@ =~= seq![TicketCondition::UserHasAccess(user_id)]);
    res
}

/// The ticket `ticket_id`, if `user_id` belongs to its relation.
pub fn ticket_by_id_query(user_id: i64, ticket_id: i64) -> (res: TicketSelection)
    ensures
        !res.join_wish,
        res.join_user_relation,
        res.conditions@ == seq![TicketCondition::UserHasAccess(user_id), TicketCondition::Id(ticket_id)],
        res.order_by@ == Seq::<(TicketOrderKey, Order)>::empty(),
{
    let res = tickets_with_access_to_user(user_id).with_condition(TicketCondition::Id(ticket_id));
    assert(res.conditions@ =~= seq![
        TicketCondition::UserHasAccess(user_id),
        TicketCondition::Id(ticket_id),
    ]);
    res
}

/// The ticket `ticket_id` with its wish, if `user_id` belongs to its relation.
pub fn ticket_with_wish_by_id_query(user_id: i64, ticket_id: i64) -> (res: TicketSelection)
    ensures
        res.join_wish,
        res.join_user_relation,
        res.conditions@ == seq![TicketCondition::UserHasAccess(user_id), TicketCondition::Id(ticket_id)],
        res.order_by@ == Seq::<(TicketOrderKey, Order)>::empty(),
{
    ticket_by_id_query(user_id, ticket_id).joining_wish()
}

/// The tickets given to `receiving_user_id` in the relation, special or not
/// as asked, on which no wish was made yet, oldest gift date first; the first
/// of them is the ticket to use next.
pub fn oldest_available_ticket_query(
    receiving_user_id: i64,
    user_relation_id: i64,
    is_special: bool,
) -> (res: TicketSelection)
    ensures
        res.join_wish,
        res.join_user_relation,
        res.conditions@ == seq![
            TicketCondition::UserHasAccess(receiving_user_id),
            TicketCondition::NotGivingUser(receiving_user_id),
            TicketCondition::UserRelation(user_relation_id),
            TicketCondition::IsSpecial(is_special),
            TicketCondition::WithoutWish,
        ],
        res.order_by@ == seq![(TicketOrderKey::GiftDate, Order::Asc)],
{
    let res = tickets_with_access_to_user(receiving_user_id).joining_wish().with_condition(
        TicketCondition::NotGivingUser(receiving_user_id),
    ).with_condition(TicketCondition::UserRelation(user_relation_id)).with_condition(
        TicketCondition::IsSpecial(is_special),
    ).with_condition(TicketCondition::WithoutWish).with_order(TicketOrderKey::GiftDate, Order::Asc);
    assert(res.conditions@ =~= seq![
        TicketCondition::UserHasAccess(receiving_user_id),
        TicketCondition::NotGivingUser(receiving_user_id),
        TicketCondition::UserRelation(user_relation_id),
        TicketCondition::IsSpecial(is_special),
        TicketCondition::WithoutWish,
    ]);
    assert(res.order_by@ =~= seq![(TicketOrderKey::GiftDate, Order::Asc)]);
    res
}

/// What a user may narrow the ticket list by.
#[derive(Clone, Debug)]
pub struct ListTicketsWithWishParams {
    pub text_query: Option<Vec<String>>,
    pub gift_date_gte: Option<Date>,
    pub gift_date_lte: Option<Date>,
    pub is_giving: bool,
}

pub open spec fn listed_in_relation(row: TicketRow, user_id: i64, user_relation_id: i64) -> bool {
    &&& row.relation matches Some(r) && r.has_member(user_id)
    &&& row.ticket.user_relation_id == user_relation_id
}

pub open spec fn matches_terms(row: TicketRow, terms: Option<Vec<String>>, text_match: TextMatch) -> bool {
    terms matches Some(terms) ==> forall|i: int|
        0 <= i < terms@.len() ==> {
            ||| text_match(row.ticket.description@, #[trigger] terms@[i]@)
            ||| row.wish matches Some(w) && text_match(w.description@, terms@[i]@)
        }
}

pub open spec fn within_gift_dates(row: TicketRow, from: Option<Date>, to: Option<Date>) -> bool {
    &&& from matches Some(d) ==> d.not_after(row.ticket.gift_date)
    &&& to matches Some(d) ==> row.ticket.gift_date.not_after(d)
}

pub open spec fn on_listed_side(row: TicketRow, user_id: i64, is_giving: bool) -> bool {
    if is_giving {
        row.ticket.giving_user_id == user_id
    } else {
        row.ticket.giving_user_id != user_id && row.ticket.status@ != TicketStatus::Draft.value()
    }
}

/// The row `row` is listed for `user_id` in the relation under `params`.
pub open spec fn listed_for(
    row: TicketRow,
    user_id: i64,
    user_relation_id: i64,
    params: ListTicketsWithWishParams,
    text_match: TextMatch,
) -> bool {
    &&& listed_in_relation(row, user_id, user_relation_id)
    &&& matches_terms(row, params.text_query, text_match)
    &&& within_gift_dates(row, params.gift_date_gte, params.gift_date_lte)
    &&& on_listed_side(row, user_id, params.is_giving)
}

/// Pushing a condition onto a query narrows it by that condition.
proof fn lemma_push_admits(prev: TicketSelection, next: TicketSelection, c: TicketCondition)
    requires
        next.conditions@ == prev.conditions@.push(c),
    ensures
        forall|row: TicketRow, text_match: TextMatch|
            next.admits(row, text_match) <==> (prev.admits(row, text_match) && condition_holds(
                c,
                row,
                text_match,
            )),
{
    assert forall|row: TicketRow, text_match: TextMatch|
        next.admits(row, text_match) <==> (prev.admits(row, text_match) && condition_holds(
            c,
            row,
            text_match,
        )) by {
        crate::ticket_query::law_condition_narrows(prev, next, c, row, text_match);
    }
}

/// A search condition on copied terms means what the original terms mean.
proof fn lemma_terms_condition(
    terms: Vec<String>,
    text_query: Vec<String>,
    row: TicketRow,
    text_match: TextMatch,
)
    requires
        terms_view(terms@) == terms_view(text_query@),
    ensures
        condition_holds(TicketCondition::ContainsAllTexts(terms), row, text_match) <==> matches_terms(
            row,
            Some(text_query),
            text_match,
        ),
{
    let pass = |text: Seq<char>|
        text_match(row.ticket.description@, text) || (row.wish matches Some(w) && text_match(
            w.description@,
            text,
        ));
    lemma_same_terms_pass(terms@, text_query@, pass);
    let c = TicketCondition::ContainsAllTexts(terms);
    assert(c matches TicketCondition::ContainsAllTexts(t) && t == terms);
    let q = Some(text_query);
    assert(q matches Some(t) && t == text_query);
    assert(condition_holds(c, row, text_match) == (forall|j: int|
        0 <= j < terms@.len() ==> pass(#[trigger] terms@[j]@)));
    assert(matches_terms(row, q, text_match) == (forall|j: int|
        0 <= j < text_query@.len() ==> pass(#[trigger] text_query@[j]@)));
}

/// What the ticket list shows of each side: the received list never holds a
/// draft nor a ticket the user gave; the given list holds only tickets the
/// user gave; either holds only tickets of the asked relation, which the user
/// belongs to, within the asked gift dates.
pub proof fn law_ticket_list_sides(
    user_id: i64,
    user_relation_id: i64,
    params: ListTicketsWithWishParams,
    q: TicketSelection,
    row: TicketRow,
    text_match: TextMatch,
)
    requires
        forall|r: TicketRow, m: TextMatch|
            q.admits(r, m) <==> listed_for(r, user_id, user_relation_id, params, m),
        q.admits(row, text_match),
    ensures
        !params.is_giving ==> row.ticket.status@ != "draft"@ && row.ticket.giving_user_id != user_id,
        params.is_giving ==> row.ticket.giving_user_id == user_id,
        row.ticket.user_relation_id == user_relation_id,
        row.relation matches Some(r) && (r.user_1_id == user_id || r.user_2_id == user_id),
        params.gift_date_gte matches Some(d) ==> d.not_after(row.ticket.gift_date),
        params.gift_date_lte matches Some(d) ==> row.ticket.gift_date.not_after(d),
{
    assert(listed_for(row, user_id, user_relation_id, params, text_match));
}

/// The tickets with their wishes that `user_id` sees in a relation: those the
/// user gave (`is_giving`) or else those given to the user that are no longer
/// drafts, narrowed by search terms (each in the ticket's or the wish's
/// description) and gift date bounds; latest gift date first, then latest created.
pub fn list_tickets_with_wish_query(
    user_id: i64,
    user_relation_id: i64,
    params: &ListTicketsWithWishParams,
) -> (res: TicketSelection)
    ensures
        res.join_wish,
        res.join_user_relation,
        res.order_by@ == seq![
            (TicketOrderKey::GiftDate, Order::Desc),
            (TicketOrderKey::CreatedAt, Order::Desc),
        ],
        forall|row: TicketRow, text_match: TextMatch|
            res.admits(row, text_match) <==> listed_for(
                row,
                user_id,
                user_relation_id,
                *params,
                text_match,
            ),
        forall|row: TicketRow, text_match: TextMatch|
            #[trigger] res.admits(row, text_match) ==> {
                &&& !params.is_giving ==> row.ticket.status@ != "draft"@ && row.ticket.giving_user_id != user_id
                &&& params.is_giving ==> row.ticket.giving_user_id == user_id
                &&& row.ticket.user_relation_id == user_relation_id
            },
{
    let access = tickets_with_access_to_user(user_id);
    let mut query = access.with_condition(TicketCondition::UserRelation(user_relation_id)).joining_wish();
    proof {
        assert forall|row: TicketRow, text_match: TextMatch|
            query.admits(row, text_match) <==> (row.relation matches Some(r) && r.has_member(user_id)
                && row.ticket.user_relation_id == user_relation_id) by {
            if row.relation matches Some(r) && r.has_member(user_id) && row.ticket.user_relation_id
                == user_relation_id {
                assert forall|i: int| 0 <= i < query.conditions@.len() implies condition_holds(
                    #[trigger] query.conditions@[i],
                    row,
                    text_match,
                ) by {}
            }
            if query.admits(row, text_match) {
                assert(condition_holds(query.conditions@[0], row, text_match));
                assert(condition_holds(query.conditions@[1], row, text_match));
            }
        }
    }
    if let Some(text_query) = &params.text_query {
        let ghost prev = query;
        let terms = copy_terms(text_query);
        let ghost c = TicketCondition::ContainsAllTexts(terms);
        query = query.with_condition(TicketCondition::ContainsAllTexts(terms));
        proof {
            lemma_push_admits(prev, query, c);
            assert forall|row: TicketRow, text_match: TextMatch|
                condition_holds(c, row, text_match) <==> matches_terms(
                    row,
                    params.text_query,
                    text_match,
                ) by {
                lemma_terms_condition(terms, *text_query, row, text_match);
            }
        }
    }
    assert(forall|row: TicketRow, text_match: TextMatch|
        query.admits(row, text_match) <==> (listed_in_relation(row, user_id, user_relation_id)
            && matches_terms(row, params.text_query, text_match)));
    if let Some(gift_date_gte) = params.gift_date_gte {
        let ghost prev = query;
        query = query.with_condition(TicketCondition::GiftDateFrom(gift_date_gte));
        proof {
            lemma_push_admits(prev, query, TicketCondition::GiftDateFrom(gift_date_gte));
        }
    }
    if let Some(gift_date_lte) = params.gift_date_lte {
        let ghost prev = query;
        query = query.with_condition(TicketCondition::GiftDateTo(gift_date_lte));
        proof {
            lemma_push_admits(prev, query, TicketCondition::GiftDateTo(gift_date_lte));
        }
    }
    assert(forall|row: TicketRow, text_match: TextMatch|
        query.admits(row, text_match) <==> (listed_in_relation(row, user_id, user_relation_id)
            && matches_terms(row, params.text_query, text_match) && within_gift_dates(
            row,
            params.gift_date_gte,
            params.gift_date_lte,
        )));
    if params.is_giving {
        let ghost prev = query;
        query = query.with_condition(TicketCondition::GivingUser(user_id));
        proof {
            lemma_push_admits(prev, query, TicketCondition::GivingUser(user_id));
        }
    } else {
        let ghost prev = query;
        query = query.with_condition(TicketCondition::NotGivingUser(user_id));
        let ghost mid = query;
        let draft = TicketStatus::Draft.to_value();
        let ghost c = TicketCondition::StatusIsNot(draft);
        query = query.with_condition(TicketCondition::StatusIsNot(draft));
        proof {
            lemma_push_admits(prev, mid, TicketCondition::NotGivingUser(user_id));
            lemma_push_admits(mid, query, c);
        }
    }
    let res = query.with_order(TicketOrderKey::GiftDate, Order::Desc).with_order(
        TicketOrderKey::CreatedAt,
        Order::Desc,
    );
    assert(res.order_by@ =~= seq![
        (TicketOrderKey::GiftDate, Order::Desc),
        (TicketOrderKey::CreatedAt, Order::Desc),
    ]);
    assert(res.conditions@ == query.conditions@);
    assert forall|row: TicketRow, text_match: TextMatch|
        res.admits(row, text_match) == query.admits(row, text_match) by {}
    assert(forall|row: TicketRow, text_match: TextMatch|
        query.admits(row, text_match) <==> listed_for(
            row,
            user_id,
            user_relation_id,
            *params,
            text_match,
        ));
    res
}

/// The special tickets that `giving_user_id` gave in the relation during the
/// calendar month of `date`; when there is any, no other special ticket may be
/// given that month.
pub fn special_ticket_existence_query(giving_user_id: i64, user_relation_id: i64, date: Date) -> (res:
    Result<TicketSelection, TicketServiceError>)
    requires
        date.valid(),
        date.year < MAX_YEAR,
    ensures
        res matches Ok(q) && {
            &&& !q.join_wish
            &&& !q.join_user_relation
            &&& q.order_by@ == Seq::<(TicketOrderKey, Order)>::empty()
            &&& q.conditions@ == seq![
                TicketCondition::GivingUser(giving_user_id),
                TicketCondition::UserRelation(user_relation_id),
                TicketCondition::IsSpecial(true),
                TicketCondition::GiftDateBetween(first_day_of_month(date), last_day_of_month(date)),
            ]
        },
{
    match TicketQuery::init_query().special_tickets_in_month(giving_user_id, user_relation_id, date) {
        Ok(q) => {
            assert(q.query.conditions@ =~= seq![
                TicketCondition::GivingUser(giving_user_id),
                TicketCondition::UserRelation(user_relation_id),
                TicketCondition::IsSpecial(true),
                TicketCondition::GiftDateBetween(first_day_of_month(date), last_day_of_month(date)),
            ]);
            Ok(q.query)
        },
        Err(m) => Err(TicketServiceError::ValidationError(m)),
    }
}

/// The tickets that `user_id` gave in the relation, oldest gift date first;
/// the first of them is the one whose date the relation remembers.
pub fn oldest_giving_ticket_query(user_relation_id: i64, user_id: i64) -> (res: TicketSelection)
    ensures
        !res.join_wish,
        !res.join_user_relation,
        res.conditions@ == seq![
            TicketCondition::UserRelation(user_relation_id),
            TicketCondition::GivingUser(user_id),
        ],
        res.order_by@ == seq![(TicketOrderKey::GiftDate, Order::Asc)],
{
    let res = TicketSelection::all().with_condition(TicketCondition::UserRelation(user_relation_id)).with_condition(
        TicketCondition::GivingUser(user_id),
    ).with_order(TicketOrderKey::GiftDate, Order::Asc);
    assert(res.conditions@ =~= seq![
        TicketCondition::UserRelation(user_relation_id),
        TicketCondition::GivingUser(user_id),
    ]);
    assert(res.order_by@ =~= seq![(TicketOrderKey::GiftDate, Order::Asc)]);
    res
}

/// The oldest-ticket query selects exactly the tickets that the giver gave in
/// the relation.
pub proof fn law_oldest_giving_ticket_query_selects_given(
    query: TicketSelection,
    user_relation_id: i64,
    user_id: i64,
    row: TicketRow,
    text_match: TextMatch,
)
    requires
        query.conditions@ == seq![
            TicketCondition::UserRelation(user_relation_id),
            TicketCondition::GivingUser(user_id),
        ],
    ensures
        query.admits(row, text_match) <==> given_in(row.ticket, user_relation_id, user_id),
{
    if query.admits(row, text_match) {
        assert(condition_holds(query.conditions@[0], row, text_match));
        assert(condition_holds(query.conditions@[1], row, text_match));
    }
    if given_in(row.ticket, user_relation_id, user_id) {
        assert forall|i: int| 0 <= i < query.conditions@.len() implies condition_holds(
            #[trigger] query.conditions@[i],
            row,
            text_match,
        ) by {}
    }
}

/// The ticket with the changes that `params` asks for, stamped `now`.
pub fn updated_ticket_at(ticket: Ticket, params: UpdateTicketParams, now: Timestamp) -> (res: Ticket)
    ensures
        res.id == ticket.id,
        res.description == (match params.description {
            Some(d) => d,
            None => ticket.description,
        }),
        res.status@ == (match params.status {
            Some(s) => s.value(),
            None => ticket.status@,
        }),
        res.is_special == (match params.is_special {
            Some(b) => b,
            None => ticket.is_special,
        }),
        res.gift_date == ticket.gift_date,
        res.created_at == ticket.created_at,
        res.updated_at == now,
        res.giving_user_id == ticket.giving_user_id,
        res.user_relation_id == ticket.user_relation_id,
{
    let mut ticket = ticket;
    if let Some(description) = params.description {
        ticket.description = description;
    }
    if let Some(status) = params.status {
        ticket.status = status.to_value();
    }
    if let Some(is_special) = params.is_special {
        ticket.is_special = is_special;
    }
    ticket.updated_at = now;
    ticket
}

/// The ticket with the changes that `params` asks for, stamped with the
/// current time.
pub fn updated_ticket(ticket: Ticket, params: UpdateTicketParams) -> (res: Ticket)
    ensures
        res.id == ticket.id,
        res.description == (match params.description {
            Some(d) => d,
            None => ticket.description,
        }),
        res.status@ == (match params.status {
            Some(s) => s.value(),
            None => ticket.status@,
        }),
        res.is_special == (match params.is_special {
            Some(b) => b,
            None => ticket.is_special,
        }),
        res.gift_date == ticket.gift_date,
        res.created_at == ticket.created_at,
        res.giving_user_id == ticket.giving_user_id,
        res.user_relation_id == ticket.user_relation_id,
{
    let now = current_timestamp();
    updated_ticket_at(ticket, params, now)
}

/// The ticket marked as read by its receiver, stamped `now`.
pub fn ticket_marked_read_at(ticket: Ticket, now: Timestamp) -> (res: Ticket)
    ensures
        res.status@ == TicketStatus::Read.value(),
        res.updated_at == now,
        res.id == ticket.id,
        res.description == ticket.description,
        res.is_special == ticket.is_special,
        res.gift_date == ticket.gift_date,
        res.created_at == ticket.created_at,
        res.giving_user_id == ticket.giving_user_id,
        res.user_relation_id == ticket.user_relation_id,
{
    let mut ticket = ticket;
    ticket.status = TicketStatus::Read.to_value();
    ticket.updated_at = now;
    ticket
}

/// The ticket marked as read by its receiver, stamped with the current time.
pub fn ticket_marked_read(ticket: Ticket) -> (res: Ticket)
    ensures
        res.status@ == TicketStatus::Read.value(),
        res.id == ticket.id,
        res.description == ticket.description,
        res.is_special == ticket.is_special,
        res.gift_date == ticket.gift_date,
        res.created_at == ticket.created_at,
        res.giving_user_id == ticket.giving_user_id,
        res.user_relation_id == ticket.user_relation_id,
{
    let now = current_timestamp();
    ticket_marked_read_at(ticket, now)
}

// ---------------------------------------------------------------------------
// The earliest gift date that a relation remembers for each of its users.

/// `ticket` was given by `giver` within the relation `relation_id`.
pub open spec fn given_in(ticket: Ticket, relation_id: i64, giver: i64) -> bool {
    ticket.user_relation_id == relation_id && ticket.giving_user_id == giver
}

/// `first` is the earliest gift date among the tickets of `tickets` that
/// `giver` gave in the relation, or `None` when there is no such ticket.
pub open spec fn is_earliest_gift_date(
    tickets: Seq<Ticket>,
    relation_id: i64,
    giver: i64,
    first: Option<Date>,
) -> bool {
    match first {
        None => forall|i: int| 0 <= i < tickets.len() ==> !given_in(#[trigger] tickets[i], relation_id, giver),
        Some(date) => {
            &&& exists|i: int|
                0 <= i < tickets.len() && given_in(#[trigger] tickets[i], relation_id, giver)
                    && tickets[i].gift_date == date
            &&& forall|i: int|
                0 <= i < tickets.len() && given_in(#[trigger] tickets[i], relation_id, giver)
                    ==> date.not_after(tickets[i].gift_date)
        },
    }
}

/// The relation's remembered dates are the earliest gift dates of its two users.
pub open spec fn first_giving_dates_consistent(relation: UserRelation, tickets: Seq<Ticket>) -> bool {
    &&& is_earliest_gift_date(
        tickets,
        relation.id,
        relation.user_1_id,
        relation.first_user_1_giving_ticket_date,
    )
    &&& is_earliest_gift_date(
        tickets,
        relation.id,
        relation.user_2_id,
        relation.first_user_2_giving_ticket_date,
    )
}

/// `oldest` is what the query for the giver's oldest ticket in the relation
/// returns on `tickets`: a ticket with the earliest gift date, or `None` when
/// the giver has none.
pub open spec fn is_oldest_ticket(
    tickets: Seq<Ticket>,
    relation_id: i64,
    giver: i64,
    oldest: Option<Ticket>,
) -> bool {
    match oldest {
        None => forall|i: int| 0 <= i < tickets.len() ==> !given_in(#[trigger] tickets[i], relation_id, giver),
        Some(t) => {
            &&& exists|i: int| 0 <= i < tickets.len() && #[trigger] tickets[i] == t
            &&& given_in(t, relation_id, giver)
            &&& forall|i: int|
                0 <= i < tickets.len() && given_in(#[trigger] tickets[i], relation_id, giver)
                    ==> t.gift_date.not_after(tickets[i].gift_date)
        },
    }
}

proof fn lemma_before_total(a: Date, b: Date)
    ensures
        a.before(b) || b.before(a) || a == b,
        !(a.before(b) && b.before(a)),
        !a.before(a),
{
}

proof fn lemma_before_transitive(a: Date, b: Date, c: Date)
    ensures
        a.not_after(b) && b.not_after(c) ==> a.not_after(c),
        a.before(b) && b.not_after(c) ==> a.before(c),
{
}

/// Creating a ticket keeps the remembered earliest gift dates right: if they
/// were the earliest gift dates of the two users before, they are so after the
/// new ticket of one of the users was added.
pub proof fn law_create_keeps_first_giving_dates(
    relation: UserRelation,
    tickets: Seq<Ticket>,
    ticket: Ticket,
    now: Timestamp,
)
    requires
        relation.user_1_id != relation.user_2_id,
        first_giving_dates_consistent(relation, tickets),
        ticket.user_relation_id == relation.id,
        relation.has_member(ticket.giving_user_id),
    ensures
        first_giving_dates_consistent(relation_after_created(relation, ticket, now), tickets.push(ticket)),
{
    let after = relation_after_created(relation, ticket, now);
    let all = tickets.push(ticket);
    let n = tickets.len() as int;
    assert(all[n] == ticket);
    assert forall|i: int| 0 <= i < n implies all[i] == tickets[i] by {}
    assert(after.id == relation.id && after.user_1_id == relation.user_1_id && after.user_2_id
        == relation.user_2_id);
    // The side that did not give the ticket keeps its date and its witnesses.
    let giver = ticket.giving_user_id;
    let side = side_of_giver(relation, giver);
    let other = if side == GivingSide::User1 { relation.user_2_id } else { relation.user_1_id };
    let other_side = if side == GivingSide::User1 { GivingSide::User2 } else { GivingSide::User1 };
    assert(first_giving_date(after, other_side) == first_giving_date(relation, other_side));
    assert(is_earliest_gift_date(all, relation.id, other, first_giving_date(after, other_side))) by {
        match first_giving_date(relation, other_side) {
            None => {},
            Some(d) => {
                let w = choose|i: int|
                    0 <= i < tickets.len() && given_in(#[trigger] tickets[i], relation.id, other)
                        && tickets[i].gift_date == d;
                assert(all[w] == tickets[w]);
            },
        }
    }
    lemma_created_giver_side(relation, tickets, ticket, now);
}

/// The giver's remembered date after a creation is the earliest gift date
/// of the giver's tickets, the new one included.
proof fn lemma_created_giver_side(
    relation: UserRelation,
    tickets: Seq<Ticket>,
    ticket: Ticket,
    now: Timestamp,
)
    requires
        ticket.user_relation_id == relation.id,
        is_earliest_gift_date(
            tickets,
            relation.id,
            ticket.giving_user_id,
            first_giving_date(relation, side_of_giver(relation, ticket.giving_user_id)),
        ),
    ensures
        is_earliest_gift_date(
            tickets.push(ticket),
            relation.id,
            ticket.giving_user_id,
            first_giving_date(
                relation_after_created(relation, ticket, now),
                side_of_giver(relation, ticket.giving_user_id),
            ),
        ),
{
    let all = tickets.push(ticket);
    let n = tickets.len() as int;
    let giver = ticket.giving_user_id;
    let side = side_of_giver(relation, giver);
    assert(all[n] == ticket);
    assert forall|i: int| 0 <= i < n implies all[i] == tickets[i] by {}
    // The giver's side: either unchanged (new ticket not earlier), or the new date.
    match first_giving_date(relation, side) {
        None => {
            assert(is_earliest_gift_date(all, relation.id, giver, Some(ticket.gift_date))) by {
                assert(given_in(all[n], relation.id, giver));
                assert forall|i: int|
                    0 <= i < all.len() && given_in(#[trigger] all[i], relation.id, giver) implies ticket.gift_date.not_after(
                    all[i].gift_date) by {
                    lemma_before_total(ticket.gift_date, all[i].gift_date);
                }
            }
        },
        Some(d) => {
            let w = choose|i: int|
                0 <= i < tickets.len() && given_in(#[trigger] tickets[i], relation.id, giver)
                    && tickets[i].gift_date == d;
            if ticket.gift_date.before(d) {
                assert(is_earliest_gift_date(all, relation.id, giver, Some(ticket.gift_date))) by {
                    assert(given_in(all[n], relation.id, giver));
                    assert forall|i: int|
                        0 <= i < all.len() && given_in(#[trigger] all[i], relation.id, giver) implies ticket.gift_date.not_after(
                        all[i].gift_date) by {
                        if i < n {
                            lemma_before_transitive(ticket.gift_date, d, all[i].gift_date);
                        } else {
                            lemma_before_total(ticket.gift_date, all[i].gift_date);
                        }
                    }
                }
            } else {
                assert(is_earliest_gift_date(all, relation.id, giver, Some(d))) by {
                    assert(all[w] == tickets[w]);
                    assert forall|i: int|
                        0 <= i < all.len() && given_in(#[trigger] all[i], relation.id, giver) implies d.not_after(
                        all[i].gift_date) by {
                        if i == n {
                            lemma_before_total(ticket.gift_date, d);
                        }
                    }
                }
            }
        },
    }
}

/// The tickets left after removing the one at `index` are exactly the others.
proof fn lemma_remove_index(tickets: Seq<Ticket>, index: int)
    requires
        0 <= index < tickets.len(),
    ensures
        forall|j: int|
            0 <= j < tickets.len() - 1 ==> #[trigger] tickets.remove(index)[j] == (if j < index {
                tickets[j]
            } else {
                tickets[j + 1]
            }),
        tickets.remove(index).len() == tickets.len() - 1,
{
}

/// The earliest gift date of a user who did not give the removed ticket is
/// the same before and after the removal.
proof fn lemma_earliest_survives_removal(
    tickets: Seq<Ticket>,
    index: int,
    relation_id: i64,
    giver: i64,
    first: Option<Date>,
)
    requires
        0 <= index < tickets.len(),
        is_earliest_gift_date(tickets, relation_id, giver, first),
        first is None || tickets[index].gift_date != first->0 || !given_in(
            tickets[index],
            relation_id,
            giver,
        ),
    ensures
        is_earliest_gift_date(tickets.remove(index), relation_id, giver, first),
{
    let rest = tickets.remove(index);
    lemma_remove_index(tickets, index);
    match first {
        None => {
            assert forall|j: int| 0 <= j < rest.len() implies !given_in(
                #[trigger] rest[j],
                relation_id,
                giver,
            ) by {
                if j < index {
                    assert(rest[j] == tickets[j]);
                } else {
                    assert(rest[j] == tickets[j + 1]);
                }
            }
        },
        Some(d) => {
            let w = choose|i: int|
                0 <= i < tickets.len() && given_in(#[trigger] tickets[i], relation_id, giver)
                    && tickets[i].gift_date == d;
            assert(w != index);
            let w2 = if w < index { w } else { w - 1 };
            assert(rest[w2] == tickets[w]);
            assert forall|j: int|
                0 <= j < rest.len() && given_in(#[trigger] rest[j], relation_id, giver) implies d.not_after(
                rest[j].gift_date) by {
                if j < index {
                    assert(rest[j] == tickets[j]);
                } else {
                    assert(rest[j] == tickets[j + 1]);
                }
            }
        },
    }
}

/// Deleting a ticket keeps the remembered earliest gift dates right, when the
/// user who deletes is the one who gave the ticket: the relation is updated
/// from the oldest ticket that user still has (which matters only then),
/// exactly when the deleted ticket carried the remembered date.
pub proof fn law_delete_keeps_first_giving_dates(
    relation: UserRelation,
    tickets: Seq<Ticket>,
    index: int,
    user_id: i64,
    oldest: Option<Ticket>,
    now: Timestamp,
)
    requires
        relation.user_1_id != relation.user_2_id,
        first_giving_dates_consistent(relation, tickets),
        0 <= index < tickets.len(),
        tickets[index].user_relation_id == relation.id,
        tickets[index].giving_user_id == user_id,
        relation.has_member(user_id),
        side_after_deleted(relation, tickets[index]) is Some ==> is_oldest_ticket(
            tickets.remove(index),
            relation.id,
            user_id,
            oldest,
        ),
    ensures
        first_giving_dates_consistent(
            relation_after_deleted(relation, tickets[index], oldest, now),
            tickets.remove(index),
        ),
{
    let ticket = tickets[index];
    let rest = tickets.remove(index);
    let after = relation_after_deleted(relation, ticket, oldest, now);
    lemma_remove_index(tickets, index);
    let side = side_of_giver(relation, user_id);
    let other = if side == GivingSide::User1 { relation.user_2_id } else { relation.user_1_id };
    let other_side = if side == GivingSide::User1 { GivingSide::User2 } else { GivingSide::User1 };
    assert(!given_in(ticket, relation.id, other));
    lemma_earliest_survives_removal(
        tickets,
        index,
        relation.id,
        other,
        first_giving_date(relation, other_side),
    );
    assert(first_giving_date(after, other_side) == first_giving_date(relation, other_side));
    lemma_deleted_giver_side(relation, tickets, index, oldest, now);
}

/// The giver's remembered date after a deletion is the earliest gift date of
/// the giver's remaining tickets, when the oldest of them is what the relation
/// is updated from.
proof fn lemma_deleted_giver_side(
    relation: UserRelation,
    tickets: Seq<Ticket>,
    index: int,
    oldest: Option<Ticket>,
    now: Timestamp,
)
    requires
        0 <= index < tickets.len(),
        tickets[index].user_relation_id == relation.id,
        is_earliest_gift_date(
            tickets,
            relation.id,
            tickets[index].giving_user_id,
            first_giving_date(relation, side_of_giver(relation, tickets[index].giving_user_id)),
        ),
        side_after_deleted(relation, tickets[index]) is Some ==> is_oldest_ticket(
            tickets.remove(index),
            relation.id,
            tickets[index].giving_user_id,
            oldest,
        ),
    ensures
        is_earliest_gift_date(
            tickets.remove(index),
            relation.id,
            tickets[index].giving_user_id,
            first_giving_date(
                relation_after_deleted(relation, tickets[index], oldest, now),
                side_of_giver(relation, tickets[index].giving_user_id),
            ),
        ),
{
    let ticket = tickets[index];
    let rest = tickets.remove(index);
    let user_id = ticket.giving_user_id;
    let side = side_of_giver(relation, user_id);
    lemma_remove_index(tickets, index);
    match side_after_deleted(relation, ticket) {
        None => {
            lemma_earliest_survives_removal(
                tickets,
                index,
                relation.id,
                user_id,
                first_giving_date(relation, side),
            );
        },
        Some(s) => {
            assert(s == side);
            match oldest {
                None => {},
                Some(t) => {
                    let w = choose|i: int| 0 <= i < rest.len() && #[trigger] rest[i] == t;
                    assert(given_in(rest[w], relation.id, user_id) && rest[w].gift_date
                        == t.gift_date);
                },
            }
        },
    }
}

/// The earliest gift date of a giver is determined by the tickets.
proof fn lemma_earliest_unique(
    tickets: Seq<Ticket>,
    relation_id: i64,
    giver: i64,
    a: Option<Date>,
    b: Option<Date>,
)
    requires
        is_earliest_gift_date(tickets, relation_id, giver, a),
        is_earliest_gift_date(tickets, relation_id, giver, b),
    ensures
        a == b,
{
    match (a, b) {
        (Some(x), Some(y)) => {
            let wx = choose|i: int|
                0 <= i < tickets.len() && given_in(#[trigger] tickets[i], relation_id, giver)
                    && tickets[i].gift_date == x;
            let wy = choose|i: int|
                0 <= i < tickets.len() && given_in(#[trigger] tickets[i], relation_id, giver)
                    && tickets[i].gift_date == y;
            assert(x.not_after(tickets[wy].gift_date));
            assert(y.not_after(tickets[wx].gift_date));
            lemma_before_total(x, y);
        },
        (Some(x), None) => {
            let wx = choose|i: int|
                0 <= i < tickets.len() && given_in(#[trigger] tickets[i], relation_id, giver)
                    && tickets[i].gift_date == x;
            assert(!given_in(tickets[wx], relation_id, giver));
        },
        (None, Some(y)) => {
            let wy = choose|i: int|
                0 <= i < tickets.len() && given_in(#[trigger] tickets[i], relation_id, giver)
                    && tickets[i].gift_date == y;
            assert(!given_in(tickets[wy], relation_id, giver));
        },
        (None, None) => {},
    }
}

/// Creating a ticket and then deleting it again, by the user who gave it,
/// gives back the relation as it was but for the time of its last change:
/// the remembered earliest gift dates are those from before.
pub proof fn law_create_then_delete_restores_first_giving_dates(
    relation: UserRelation,
    tickets: Seq<Ticket>,
    ticket: Ticket,
    oldest: Option<Ticket>,
    created_at: Timestamp,
    deleted_at: Timestamp,
)
    requires
        first_giving_dates_consistent(relation, tickets),
        ticket.user_relation_id == relation.id,
        relation.has_member(ticket.giving_user_id),
        side_after_deleted(relation_after_created(relation, ticket, created_at), ticket) is Some
            ==> is_oldest_ticket(tickets, relation.id, ticket.giving_user_id, oldest),
    ensures
        ({
            let after = relation_after_deleted(
                relation_after_created(relation, ticket, created_at),
                ticket,
                oldest,
                deleted_at,
            );
            after == (UserRelation { updated_at: after.updated_at, ..relation })
        }),
{
    let giver = ticket.giving_user_id;
    let side = side_of_giver(relation, giver);
    let created = relation_after_created(relation, ticket, created_at);
    let with = tickets.push(ticket);
    let index = tickets.len() as int;
    assert(is_earliest_gift_date(tickets, relation.id, giver, first_giving_date(relation, side)));
    lemma_created_giver_side(relation, tickets, ticket, created_at);
    assert(with.remove(index) =~= tickets);
    assert(with[index] == ticket);
    assert(side_of_giver(created, giver) == side);
    lemma_deleted_giver_side(created, with, index, oldest, deleted_at);
    let after = relation_after_deleted(created, ticket, oldest, deleted_at);
    lemma_earliest_unique(
        tickets,
        relation.id,
        giver,
        first_giving_date(after, side),
        first_giving_date(relation, side),
    );
}

/// The earliest gift date among the tickets that `giver` gave in the
/// relation `relation_id`, or `None` when there is none: what the backfill
/// of the first giving dates writes into each relation.
pub fn earliest_gift_date(tickets: &Vec<Ticket>, relation_id: i64, giver: i64) -> (res: Option<Date>)
    ensures
        is_earliest_gift_date(tickets@, relation_id, giver, res),
{
    let mut best: Option<Date> = None;
    let mut i: usize = 0;
    while i < tickets.len()
        invariant
            i <= tickets@.len(),
            is_earliest_gift_date(tickets@.take(i as int), relation_id, giver, best),
        decreases tickets@.len() - i,
    {
        let ghost before = tickets@.take(i as int);
        let ghost old_best = best;
        let t = &tickets[i];
        let ghost after = tickets@.take(i + 1);
        assert(after =~= before.push(tickets@[i as int]));
        if t.user_relation_id == relation_id && t.giving_user_id == giver {
            let replace = match best {
                None => true,
                Some(d) => t.gift_date.is_before(&d),
            };
            if replace {
                best = Some(t.gift_date);
            }
            proof {
                let d = best->0;
                assert(given_in(after[i as int], relation_id, giver));
                assert forall|j: int|
                    0 <= j < after.len() && given_in(#[trigger] after[j], relation_id, giver) implies d.not_after(
                    after[j].gift_date) by {
                    if j < i {
                        assert(after[j] == before[j]);
                        let od = old_best->0;
                        lemma_before_transitive(d, od, after[j].gift_date);
                        lemma_before_total(d, od);
                        lemma_before_total(od, after[j].gift_date);
                    } else {
                        lemma_before_total(d, after[j].gift_date);
                    }
                }
                if replace {
                    assert(after[i as int].gift_date == d);
                } else {
                    let w = choose|w: int|
                        0 <= w < before.len() && given_in(#[trigger] before[w], relation_id, giver)
                            && before[w].gift_date == d;
                    assert(after[w] == before[w]);
                }
            }
        } else {
            proof {
                assert(!given_in(after[i as int], relation_id, giver));
                match best {
                    None => {
                        assert forall|j: int| 0 <= j < after.len() implies !given_in(
                            #[trigger] after[j],
                            relation_id,
                            giver,
                        ) by {
                            if j < i {
                                assert(after[j] == before[j]);
                            }
                        }
                    },
                    Some(d) => {
                        let w = choose|w: int|
                            0 <= w < before.len() && given_in(#[trigger] before[w], relation_id, giver)
                                && before[w].gift_date == d;
                        assert(after[w] == before[w]);
                        assert forall|j: int|
                            0 <= j < after.len() && given_in(#[trigger] after[j], relation_id, giver)
                                implies d.not_after(after[j].gift_date) by {
                            assert(j < i);
                            assert(after[j] == before[j]);
                        }
                    },
                }
            }
        }
        i = i + 1;
    }
    assert(tickets@.take(tickets@.len() as int) =~= tickets@);
    best
}

/// The relation with both first giving dates filled in from the tickets, as
/// the backfill of the first giving dates writes it: afterwards they are the
/// earliest gift dates of its two users.
pub fn backfilled_first_giving_dates(relation: UserRelation, tickets: &Vec<Ticket>) -> (res: UserRelation)
    ensures
        res == (UserRelation {
            first_user_1_giving_ticket_date: res.first_user_1_giving_ticket_date,
            first_user_2_giving_ticket_date: res.first_user_2_giving_ticket_date,
            ..relation
        }),
        first_giving_dates_consistent(res, tickets@),
{
    let first_1 = earliest_gift_date(tickets, relation.id, relation.user_1_id);
    let first_2 = earliest_gift_date(tickets, relation.id, relation.user_2_id);
    UserRelation {
        first_user_1_giving_ticket_date: first_1,
        first_user_2_giving_ticket_date: first_2,
        ..relation
    }
}

} // verus!
