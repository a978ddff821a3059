//! Reading and updating user relations: which relations a lookup selects, and
//! how the recorded first dates of a relation are replaced.

use crate::calendar::Date;
use crate::clock::current_timestamp;
use crate::query::Order;
use crate::records::{Timestamp, UserRelation};
use vstd::prelude::*;

verus! {

/// A relation together with the names of its two users.
#[derive(Clone, Debug)]
pub struct UserRelationWithName {
    pub id: i64,
    pub user_1_giving_ticket_img: Option<String>,
    pub user_2_giving_ticket_img: Option<String>,
    pub user_1_id: i64,
    pub user_2_id: i64,
    pub user_1_name: String,
    pub user_2_name: String,
    pub use_slack: bool,
    pub first_user_1_giving_ticket_date: Option<Date>,
    pub first_user_2_giving_ticket_date: Option<Date>,
    pub first_diary_date: Option<Date>,
}

impl UserRelationWithName {
    /// The relation's row with the two users' names beside it.
    pub fn new(relation: UserRelation, user_1_name: String, user_2_name: String) -> (res: Self)
        ensures
            res.id == relation.id,
            res.user_1_giving_ticket_img == relation.user_1_giving_ticket_img,
            res.user_2_giving_ticket_img == relation.user_2_giving_ticket_img,
            res.user_1_id == relation.user_1_id,
            res.user_2_id == relation.user_2_id,
            res.user_1_name == user_1_name,
            res.user_2_name == user_2_name,
            res.use_slack == relation.use_slack,
            res.first_user_1_giving_ticket_date == relation.first_user_1_giving_ticket_date,
            res.first_user_2_giving_ticket_date == relation.first_user_2_giving_ticket_date,
            res.first_diary_date == relation.first_diary_date,
    {
        UserRelationWithName {
            id: relation.id,
            user_1_giving_ticket_img: relation.user_1_giving_ticket_img,
            user_2_giving_ticket_img: relation.user_2_giving_ticket_img,
            user_1_id: relation.user_1_id,
            user_2_id: relation.user_2_id,
            user_1_name,
            user_2_name,
            use_slack: relation.use_slack,
            first_user_1_giving_ticket_date: relation.first_user_1_giving_ticket_date,
            first_user_2_giving_ticket_date: relation.first_user_2_giving_ticket_date,
            first_diary_date: relation.first_diary_date,
        }
    }
}

/// A lookup of user relations: the relation's id when one is asked for, the
/// user who must belong to it, and the order of the result by creation time.
#[derive(Clone, Copy, Debug)]
pub struct UserRelationSelection {
    pub id: Option<i64>,
    pub member: i64,
    pub order_by_created_at: Option<Order>,
}

impl UserRelationSelection {
    /// The lookup selects `relation`.
    pub open spec fn admits(self, relation: UserRelation) -> bool {
        &&& self.id matches Some(id) ==> relation.id == id
        &&& relation.has_member(self.member)
    }
}

/// The lookups of user relations.
pub struct UserRelationQuery;

impl UserRelationQuery {
    /// The relation `id`, provided `user_id` is one of its two users.
    pub fn find_by_id(id: i64, user_id: i64) -> (res: UserRelationSelection)
        ensures
            forall|r: UserRelation| #[trigger] res.admits(r) <==> r.id == id && r.has_member(user_id),
            res.order_by_created_at is None,
    {
        UserRelationSelection { id: Some(id), member: user_id, order_by_created_at: None }
    }

    /// Every relation that `user_id` belongs to, oldest first.
    pub fn find_related_by_user_id(user_id: i64) -> (res: UserRelationSelection)
        ensures
            forall|r: UserRelation| #[trigger] res.admits(r) <==> r.has_member(user_id),
            res.order_by_created_at == Some(Order::Asc),
    {
        UserRelationSelection { id: None, member: user_id, order_by_created_at: Some(Order::Asc) }
    }
}

/// The changes made to a user relation.
pub struct UserRelationMutation;

impl UserRelationMutation {
    /// The relation with its first user's first giving date replaced, stamped `now`.
    pub fn update_first_user_1_giving_ticket_date_at(
        relation: UserRelation,
        date: Option<Date>,
        now: Timestamp,
    ) -> (res: UserRelation)
        ensures
            res == (UserRelation { first_user_1_giving_ticket_date: date, updated_at: now, ..relation }),
    {
        UserRelation { first_user_1_giving_ticket_date: date, updated_at: now, ..relation }
    }

    /// The relation with its second user's first giving date replaced, stamped `now`.
    pub fn update_first_user_2_giving_ticket_date_at(
        relation: UserRelation,
        date: Option<Date>,
        now: Timestamp,
    ) -> (res: UserRelation)
        ensures
            res == (UserRelation { first_user_2_giving_ticket_date: date, updated_at: now, ..relation }),
    {
        UserRelation { first_user_2_giving_ticket_date: date, updated_at: now, ..relation }
    }

    /// The relation with its first diary date replaced, stamped `now`.
    pub fn update_first_diary_date_at(relation: UserRelation, date: Option<Date>, now: Timestamp) -> (res:
        UserRelation)
        ensures
            res == (UserRelation { first_diary_date: date, updated_at: now, ..relation }),
    {
        UserRelation { first_diary_date: date, updated_at: now, ..relation }
    }

    /// The relation with its first user's first giving date replaced, stamped
    /// with the current time.
    pub fn update_first_user_1_giving_ticket_date(relation: UserRelation, date: Option<Date>) -> (res:
        UserRelation)
        ensures
            res == (UserRelation {
                first_user_1_giving_ticket_date: date,
                updated_at: res.updated_at,
                ..relation
            }),
    {
        let now = current_timestamp();
        Self::update_first_user_1_giving_ticket_date_at(relation, date, now)
    }

    /// The relation with its second user's first giving date replaced, stamped
    /// with the current time.
    pub fn update_first_user_2_giving_ticket_date(relation: UserRelation, date: Option<Date>) -> (res:
        UserRelation)
        ensures
            res == (UserRelation {
                first_user_2_giving_ticket_date: date,
                updated_at: res.updated_at,
                ..relation
            }),
    {
        let now = current_timestamp();
        Self::update_first_user_2_giving_ticket_date_at(relation, date, now)
    }

    /// The relation with its first diary date replaced, stamped with the
    /// current time.
    pub fn update_first_diary_date(relation: UserRelation, date: Option<Date>) -> (res: UserRelation)
        ensures
            res == (UserRelation { first_diary_date: date, updated_at: res.updated_at, ..relation }),
    {
        let now = current_timestamp();
        Self::update_first_diary_date_at(relation, date, now)
    }
}

} // verus!
