//! Wishes: the row a new wish becomes, and which wishes (joined with their
//! ticket and relation) a wish query selects, in which order.

use crate::clock::{current_timestamp, new_uuid_v7};
use crate::query::Order;
use crate::records::{ReadStatus, Ticket, Timestamp, UserRelation, Wish};
use vstd::prelude::*;

verus! {

/// What the receiver of a ticket wishes for with it.
#[derive(Clone, Debug, Default)]
pub struct CreateWishParams {
    pub use_description: String,
    pub ticket_id: i64,
    pub user_relation_id: i64,
}

/// Creating wishes.
pub struct WishMutation;

impl WishMutation {
    /// The new wish under the identifier `id`, unread, created at `now`.
    pub fn create_at(params: CreateWishParams, id: u128, now: Timestamp) -> (res: Wish)
        ensures
            res.id == id,
            res.description == params.use_description,
            res.ticket_id == params.ticket_id,
            res.user_relation_id == params.user_relation_id,
            res.status@ == ReadStatus::Unread.value(),
            res.created_at == now,
            res.updated_at == now,
    {
        Wish {
            id,
            description: params.use_description,
            status: ReadStatus::Unread.to_value(),
            ticket_id: params.ticket_id,
            user_relation_id: params.user_relation_id,
            created_at: now,
            updated_at: now,
        }
    }

    /// The new wish under a fresh identifier, unread, created now.
    pub fn create(params: CreateWishParams) -> (res: Wish)
        ensures
            res.description == params.use_description,
            res.ticket_id == params.ticket_id,
            res.user_relation_id == params.user_relation_id,
            res.status@ == ReadStatus::Unread.value(),
            res.created_at == res.updated_at,
    {
        let now = current_timestamp();
        let id = new_uuid_v7();
        Self::create_at(params, id, now)
    }
}

/// A wish with the rows a query joins to it: its ticket and its relation,
/// `None` where there is none or where the query does not join.
#[derive(Clone, Debug)]
pub struct WishRow {
    pub wish: Wish,
    pub ticket: Option<Ticket>,
    pub relation: Option<UserRelation>,
}

/// One condition of a wish query.
#[derive(Clone, Copy, Debug, PartialEq, Eq, Structural)]
pub enum WishCondition {
    /// The joined relation has the user as one of its two users.
    UserHasAccess(i64),
    UserRelation(i64),
}

pub open spec fn wish_condition_holds(c: WishCondition, row: WishRow) -> bool {
    match c {
        WishCondition::UserHasAccess(user_id) => row.relation matches Some(r) && r.has_member(user_id),
        WishCondition::UserRelation(id) => row.wish.user_relation_id == id,
    }
}

/// A query over wishes: the joins, the conditions (all must hold) and the
/// sort directions by creation time, most significant first.
#[derive(Clone, Debug)]
pub struct WishQuery {
    pub join_ticket: bool,
    pub join_user_relation: bool,
    pub conditions: Vec<WishCondition>,
    pub order_by_created_at: Vec<Order>,
}

impl WishQuery {
    /// The query selects `row`.
    pub open spec fn admits(self, row: WishRow) -> bool {
        forall|i: int|
            0 <= i < self.conditions@.len() ==> wish_condition_holds(#[trigger] self.conditions@[i], row)
    }

    /// A query over all wishes, nothing joined, unsorted.
    pub fn init_query() -> (res: WishQuery)
        ensures
            !res.join_ticket,
            !res.join_user_relation,
            res.conditions@ == Seq::<WishCondition>::empty(),
            res.order_by_created_at@ == Seq::<Order>::empty(),
    {
        WishQuery {
            join_ticket: false,
            join_user_relation: false,
            conditions: Vec::new(),
            order_by_created_at: Vec::new(),
        }
    }

    /// Joins each wish's ticket.
    pub fn join_ticket(self) -> (res: WishQuery)
        ensures
            res.join_ticket,
            res.join_user_relation == self.join_user_relation,
            res.conditions@ == self.conditions@,
            res.order_by_created_at@ == self.order_by_created_at@,
    {
        WishQuery { join_ticket: true, ..self }
    }

    /// Joins each wish's relation.
    pub fn join_user_relation(self) -> (res: WishQuery)
        ensures
            res.join_ticket == self.join_ticket,
            res.join_user_relation,
            res.conditions@ == self.conditions@,
            res.order_by_created_at@ == self.order_by_created_at@,
    {
        WishQuery { join_user_relation: true, ..self }
    }

    /// Keeps the wishes of relations that `user_id` belongs to. The condition
    /// reads the joined relation, so the query must join it.
    pub fn filter_which_user_has_access(self, user_id: i64) -> (res: WishQuery)
        ensures
            res.join_ticket == self.join_ticket,
            res.join_user_relation == self.join_user_relation,
            res.conditions@ == self.conditions@.push(WishCondition::UserHasAccess(user_id)),
            res.order_by_created_at@ == self.order_by_created_at@,
    {
        let mut res = self;
        res.conditions.push(WishCondition::UserHasAccess(user_id));
        res
    }

    /// Keeps the wishes of one relation.
    pub fn filter_by_relation(self, user_relation_id: i64) -> (res: WishQuery)
        ensures
            res.join_ticket == self.join_ticket,
            res.join_user_relation == self.join_user_relation,
            res.conditions@ == self.conditions@.push(WishCondition::UserRelation(user_relation_id)),
            res.order_by_created_at@ == self.order_by_created_at@,
    {
        let mut res = self;
        res.conditions.push(WishCondition::UserRelation(user_relation_id));
        res
    }

    /// Sorts further by creation time.
    pub fn order_by_created_at(self, order: Order) -> (res: WishQuery)
        ensures
            res.join_ticket == self.join_ticket,
            res.join_user_relation == self.join_user_relation,
            res.conditions@ == self.conditions@,
            res.order_by_created_at@ == self.order_by_created_at@.push(order),
    {
        let mut res = self;
        res.order_by_created_at.push(order);
        res
    }
}

/// Each filter narrows a wish query: the narrowed query selects exactly the
/// rows that the query before selected and that meet the new condition.
pub proof fn law_wish_filter_narrows(q: WishQuery, c: WishCondition, narrowed: WishQuery, row: WishRow)
    requires
        narrowed.conditions@ == q.conditions@.push(c),
    ensures
        narrowed.admits(row) <==> (q.admits(row) && wish_condition_holds(c, row)),
{
    let n = q.conditions@.len() as int;
    assert(narrowed.conditions@[n] == c);
    assert forall|i: int| 0 <= i < n implies narrowed.conditions@[i] == q.conditions@[i] by {}
    if q.admits(row) && wish_condition_holds(c, row) {
        assert forall|i: int| 0 <= i < narrowed.conditions@.len() implies wish_condition_holds(
            #[trigger] narrowed.conditions@[i],
            row,
        ) by {
            if i < n {
                assert(narrowed.conditions@[i] == q.conditions@[i]);
            }
        }
    }
    if narrowed.admits(row) {
        assert forall|i: int| 0 <= i < n implies wish_condition_holds(#[trigger] q.conditions@[i], row) by {
            assert(narrowed.conditions@[i] == q.conditions@[i]);
        }
    }
}

} // verus!
