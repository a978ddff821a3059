//! Descriptions of the ticket queries: which rows of `tickets_ticket` (joined
//! with their wish and their relation) a query selects, and in which order.

use crate::calendar::{month_range, Date, MAX_YEAR};
use crate::query::{owned_terms, terms_view, Order, TextMatch};
use crate::records::{Ticket, TicketStatus, UserRelation, Wish};
use vstd::prelude::*;

verus! {

/// A ticket together with the rows that the query joins to it: its wish and
/// its relation, `None` where there is none or where the query does not join.
#[derive(Clone, Debug)]
pub struct TicketRow {
    pub ticket: Ticket,
    pub wish: Option<Wish>,
    pub relation: Option<UserRelation>,
}

impl TicketRow {
    /// The joined rows belong to the ticket.
    pub open spec fn well_joined(self) -> bool {
        &&& self.wish matches Some(w) ==> w.ticket_id == self.ticket.id
        &&& self.relation matches Some(r) ==> r.id == self.ticket.user_relation_id
    }
}

/// One condition of a ticket query.
#[derive(Clone, Debug)]
pub enum TicketCondition {
    /// The joined relation has the user as one of its two users.
    UserHasAccess(i64),
    Id(i64),
    UserRelation(i64),
    GivingUser(i64),
    NotGivingUser(i64),
    IsSpecial(bool),
    /// No wish is joined to the ticket.
    WithoutWish,
    /// Each term occurs in the ticket's description or in its wish's.
    ContainsAllTexts(Vec<String>),
    GiftDateFrom(Date),
    GiftDateTo(Date),
    GiftDateBetween(Date, Date),
    StatusIsNot(String),
}

/// A column that ticket queries sort by.
#[derive(Clone, Copy, Debug, PartialEq, Eq, Structural)]
pub enum TicketOrderKey {
    GiftDate,
    CreatedAt,
}

/// A query over tickets: the joins, the conditions (all must hold) and the
/// sort keys, most significant first.
#[derive(Clone, Debug)]
pub struct TicketSelection {
    pub join_wish: bool,
    pub join_user_relation: bool,
    pub conditions: Vec<TicketCondition>,
    pub order_by: Vec<(TicketOrderKey, Order)>,
}

pub open spec fn condition_holds(c: TicketCondition, row: TicketRow, text_match: TextMatch) -> bool {
    match c {
        TicketCondition::UserHasAccess(user_id) => row.relation matches Some(r) && r.has_member(
            user_id,
        ),
        TicketCondition::Id(id) => row.ticket.id == id,
        TicketCondition::UserRelation(id) => row.ticket.user_relation_id == id,
        TicketCondition::GivingUser(user_id) => row.ticket.giving_user_id == user_id,
        TicketCondition::NotGivingUser(user_id) => row.ticket.giving_user_id != user_id,
        TicketCondition::IsSpecial(b) => row.ticket.is_special == b,
        TicketCondition::WithoutWish => row.wish is None,
        TicketCondition::ContainsAllTexts(terms) => forall|i: int|
            0 <= i < terms@.len() ==> {
                ||| text_match(row.ticket.description@, #[trigger] terms@[i]@)
                ||| row.wish matches Some(w) && text_match(w.description@, terms@[i]@)
            },
        TicketCondition::GiftDateFrom(d) => d.not_after(row.ticket.gift_date),
        TicketCondition::GiftDateTo(d) => row.ticket.gift_date.not_after(d),
        TicketCondition::GiftDateBetween(from, to) => from.not_after(row.ticket.gift_date)
            && row.ticket.gift_date.not_after(to),
        TicketCondition::StatusIsNot(s) => row.ticket.status@ != s@,
    }
}

impl TicketSelection {
    /// The query selects `row`.
    pub open spec fn admits(self, row: TicketRow, text_match: TextMatch) -> bool {
        forall|i: int|
            0 <= i < self.conditions@.len() ==> condition_holds(
                #[trigger] self.conditions@[i],
                row,
                text_match,
            )
    }

    /// All tickets, nothing joined, unsorted.
    pub fn all() -> (res: TicketSelection)
        ensures
            !res.join_wish,
            !res.join_user_relation,
            res.conditions@ == Seq::<TicketCondition>::empty(),
            res.order_by@ == Seq::<(TicketOrderKey, Order)>::empty(),
    {
        TicketSelection {
            join_wish: false,
            join_user_relation: false,
            conditions: Vec::new(),
            order_by: Vec::new(),
        }
    }

    /// The same query with one more condition.
    pub fn with_condition(self, c: TicketCondition) -> (res: TicketSelection)
        ensures
            res.join_wish == self.join_wish,
            res.join_user_relation == self.join_user_relation,
            res.conditions@ == self.conditions@.push(c),
            res.order_by@ == self.order_by@,
    {
        let mut res = self;
        res.conditions.push(c);
        res
    }

    /// The same query, further sorted by `key`.
    pub fn with_order(self, key: TicketOrderKey, order: Order) -> (res: TicketSelection)
        ensures
            res.join_wish == self.join_wish,
            res.join_user_relation == self.join_user_relation,
            res.conditions@ == self.conditions@,
            res.order_by@ == self.order_by@.push((key, order)),
    {
        let mut res = self;
        res.order_by.push((key, order));
        res
    }

    /// The same query with the ticket's wish joined.
    pub fn joining_wish(self) -> (res: TicketSelection)
        ensures
            res.join_wish,
            res.join_user_relation == self.join_user_relation,
            res.conditions@ == self.conditions@,
            res.order_by@ == self.order_by@,
    {
        let mut res = self;
        res.join_wish = true;
        res
    }

    /// The same query with the ticket's relation joined.
    pub fn joining_user_relation(self) -> (res: TicketSelection)
        ensures
            res.join_wish == self.join_wish,
            res.join_user_relation,
            res.conditions@ == self.conditions@,
            res.order_by@ == self.order_by@,
    {
        let mut res = self;
        res.join_user_relation = true;
        res
    }
}

/// Adding a condition narrows a query: the query with the condition added
/// selects exactly the rows that the query selected and that meet the condition.
pub proof fn law_condition_narrows(
    selection: TicketSelection,
    narrowed: TicketSelection,
    c: TicketCondition,
    row: TicketRow,
    text_match: TextMatch,
)
    requires
        narrowed.conditions@ == selection.conditions@.push(c),
    ensures
        narrowed.admits(row, text_match) <==> (selection.admits(row, text_match) && condition_holds(
            c,
            row,
            text_match,
        )),
{
    let n = selection.conditions@.len() as int;
    assert(narrowed.conditions@[n] == c);
    if selection.admits(row, text_match) && condition_holds(c, row, text_match) {
        assert forall|i: int| 0 <= i < narrowed.conditions@.len() implies condition_holds(
            #[trigger] narrowed.conditions@[i],
            row,
            text_match,
        ) by {
            if i < n {
                assert(narrowed.conditions@[i] == selection.conditions@[i]);
            }
        }
    }
    if narrowed.admits(row, text_match) {
        assert(condition_holds(narrowed.conditions@[n], row, text_match));
        assert forall|i: int| 0 <= i < n implies condition_holds(
            #[trigger] selection.conditions@[i],
            row,
            text_match,
        ) by {
            assert(narrowed.conditions@[i] == selection.conditions@[i]);
        }
    }
}

/// The ticket query builder: each step adds a join, a condition or a sort key.
#[derive(Clone, Debug)]
pub struct TicketQuery {
    pub query: TicketSelection,
}

/// `date` falls in the same calendar month as `anchor`.
pub open spec fn same_month(date: Date, anchor: Date) -> bool {
    date.year == anchor.year && date.month == anchor.month
}

impl TicketQuery {
    /// A query over all tickets.
    pub fn init_query() -> (res: TicketQuery)
        ensures
            !res.query.join_wish,
            !res.query.join_user_relation,
            res.query.conditions@ == Seq::<TicketCondition>::empty(),
            res.query.order_by@ == Seq::<(TicketOrderKey, Order)>::empty(),
    {
        TicketQuery { query: TicketSelection::all() }
    }

    /// Joins each ticket's wish.
    pub fn join_wish(self) -> (res: TicketQuery)
        ensures
            res.query.join_wish,
            res.query.join_user_relation == self.query.join_user_relation,
            res.query.conditions@ == self.query.conditions@,
            res.query.order_by@ == self.query.order_by@,
    {
        TicketQuery { query: self.query.joining_wish() }
    }

    /// Keeps the tickets of relations that `user_id` belongs to.
    pub fn filter_which_user_has_access(self, user_id: i64) -> (res: TicketQuery)
        ensures
            res.query.join_wish == self.query.join_wish,
            res.query.join_user_relation,
            res.query.conditions@ == self.query.conditions@.push(
                TicketCondition::UserHasAccess(user_id),
            ),
            res.query.order_by@ == self.query.order_by@,
    {
        TicketQuery {
            query: self.query.joining_user_relation().with_condition(
                TicketCondition::UserHasAccess(user_id),
            ),
        }
    }

    /// Keeps the tickets of one relation.
    pub fn filter_by_relation(self, user_relation_id: i64) -> (res: TicketQuery)
        ensures
            res.query.join_wish == self.query.join_wish,
            res.query.join_user_relation == self.query.join_user_relation,
            res.query.conditions@ == self.query.conditions@.push(
                TicketCondition::UserRelation(user_relation_id),
            ),
            res.query.order_by@ == self.query.order_by@,
    {
        TicketQuery { query: self.query.with_condition(TicketCondition::UserRelation(user_relation_id)) }
    }

    /// Keeps the tickets whose description, or whose wish's description,
    /// contains each of `texts`.
    pub fn filter_contains_texts(self, texts: Vec<&str>) -> (res: TicketQuery)
        ensures
            res.query.join_wish == self.query.join_wish,
            res.query.join_user_relation == self.query.join_user_relation,
            res.query.conditions@.len() == self.query.conditions@.len() + 1,
            res.query.conditions@.drop_last() == self.query.conditions@,
            res.query.conditions@.last() matches TicketCondition::ContainsAllTexts(terms)
                && terms_view(terms@) == texts@.map_values(|t: &str| t@),
            res.query.order_by@ == self.query.order_by@,
    {
        let terms = owned_terms(&texts);
        let res = TicketQuery { query: self.query.with_condition(TicketCondition::ContainsAllTexts(terms)) };
        assert(res.query.conditions@.drop_last() =~= self.query.conditions@);
        res
    }

    /// Keeps the tickets given on or after `gift_date`.
    pub fn filter_gift_date_gte(self, gift_date: Date) -> (res: TicketQuery)
        ensures
            res.query.join_wish == self.query.join_wish,
            res.query.join_user_relation == self.query.join_user_relation,
            res.query.conditions@ == self.query.conditions@.push(
                TicketCondition::GiftDateFrom(gift_date),
            ),
            res.query.order_by@ == self.query.order_by@,
    {
        TicketQuery { query: self.query.with_condition(TicketCondition::GiftDateFrom(gift_date)) }
    }

    /// Keeps the tickets given on or before `gift_date`.
    pub fn filter_gift_date_lte(self, gift_date: Date) -> (res: TicketQuery)
        ensures
            res.query.join_wish == self.query.join_wish,
            res.query.join_user_relation == self.query.join_user_relation,
            res.query.conditions@ == self.query.conditions@.push(
                TicketCondition::GiftDateTo(gift_date),
            ),
            res.query.order_by@ == self.query.order_by@,
    {
        TicketQuery { query: self.query.with_condition(TicketCondition::GiftDateTo(gift_date)) }
    }

    /// Drops the tickets that are still drafts.
    pub fn exclude_draft_tickets(self) -> (res: TicketQuery)
        ensures
            res.query.join_wish == self.query.join_wish,
            res.query.join_user_relation == self.query.join_user_relation,
            res.query.conditions@.len() == self.query.conditions@.len() + 1,
            res.query.conditions@.drop_last() == self.query.conditions@,
            res.query.conditions@.last() matches TicketCondition::StatusIsNot(s) && s@
                == TicketStatus::Draft.value(),
            res.query.order_by@ == self.query.order_by@,
    {
        let draft = TicketStatus::Draft.to_value();
        let res = TicketQuery { query: self.query.with_condition(TicketCondition::StatusIsNot(draft)) };
        assert(res.query.conditions@.drop_last() =~= self.query.conditions@);
        res
    }

    /// Sorts by gift date.
    pub fn order_by_gift_date(self, order: Order) -> (res: TicketQuery)
        ensures
            res.query.join_wish == self.query.join_wish,
            res.query.join_user_relation == self.query.join_user_relation,
            res.query.conditions@ == self.query.conditions@,
            res.query.order_by@ == self.query.order_by@.push((TicketOrderKey::GiftDate, order)),
    {
        TicketQuery { query: self.query.with_order(TicketOrderKey::GiftDate, order) }
    }

    /// Sorts by creation time.
    pub fn order_by_created_at(self, order: Order) -> (res: TicketQuery)
        ensures
            res.query.join_wish == self.query.join_wish,
            res.query.join_user_relation == self.query.join_user_relation,
            res.query.conditions@ == self.query.conditions@,
            res.query.order_by@ == self.query.order_by@.push((TicketOrderKey::CreatedAt, order)),
    {
        TicketQuery { query: self.query.with_order(TicketOrderKey::CreatedAt, order) }
    }

    /// Narrows to the ticket with `ticket_id` (what `get_by_id` and
    /// `get_with_wish_by_id` look up).
    pub fn by_id(self, ticket_id: i64) -> (res: TicketQuery)
        ensures
            res.query.join_wish == self.query.join_wish,
            res.query.join_user_relation == self.query.join_user_relation,
            res.query.conditions@ == self.query.conditions@.push(TicketCondition::Id(ticket_id)),
            res.query.order_by@ == self.query.order_by@,
    {
        TicketQuery { query: self.query.with_condition(TicketCondition::Id(ticket_id)) }
    }

    /// Narrows to the tickets that `user_id` gave (`is_giving`), or else to
    /// those given to the user that are no longer drafts (what `get_tickets`
    /// and `get_tickets_with_wish` list).
    pub fn user_tickets(self, user_id: i64, is_giving: bool) -> (res: TicketQuery)
        ensures
            res.query.join_wish == self.query.join_wish,
            res.query.join_user_relation == self.query.join_user_relation,
            res.query.order_by@ == self.query.order_by@,
            is_giving ==> res.query.conditions@ == self.query.conditions@.push(
                TicketCondition::GivingUser(user_id),
            ),
            !is_giving ==> {
                &&& res.query.conditions@.len() == self.query.conditions@.len() + 2
                &&& res.query.conditions@.take(self.query.conditions@.len() as int)
                    == self.query.conditions@
                &&& res.query.conditions@[self.query.conditions@.len() as int]
                    == TicketCondition::NotGivingUser(user_id)
                &&& res.query.conditions@.last() matches TicketCondition::StatusIsNot(s) && s@
                    == TicketStatus::Draft.value()
            },
    {
        if is_giving {
            TicketQuery { query: self.query.with_condition(TicketCondition::GivingUser(user_id)) }
        } else {
            let n = Ghost(self.query.conditions@.len() as int);
            let draft = TicketStatus::Draft.to_value();
            let res = TicketQuery {
                query: self.query.with_condition(TicketCondition::NotGivingUser(user_id)).with_condition(
                    TicketCondition::StatusIsNot(draft),
                ),
            };
            assert(res.query.conditions@.take(n@) =~= self.query.conditions@);
            res
        }
    }

    /// Narrows to the special tickets that `giving_user_id` gave in the relation
    /// during the calendar month of `gift_date` (what
    /// `exists_other_special_ticket` counts).
    pub fn special_tickets_in_month(
        self,
        giving_user_id: i64,
        user_relation_id: i64,
        gift_date: Date,
    ) -> (res: Result<TicketQuery, String>)
        requires
            gift_date.valid(),
            gift_date.year < MAX_YEAR,
        ensures
            res matches Ok(q) && {
                &&& q.query.join_wish == self.query.join_wish
                &&& q.query.join_user_relation == self.query.join_user_relation
                &&& q.query.order_by@ == self.query.order_by@
                &&& q.query.conditions@ == self.query.conditions@.push(
                    TicketCondition::GivingUser(giving_user_id),
                ).push(TicketCondition::UserRelation(user_relation_id)).push(
                    TicketCondition::IsSpecial(true),
                ).push(
                    TicketCondition::GiftDateBetween(
                        crate::calendar::first_day_of_month(gift_date),
                        crate::calendar::last_day_of_month(gift_date),
                    ),
                )
            },
    {
        let (start_of_month, end_of_month) = match month_range(gift_date) {
            Ok(range) => range,
            Err(e) => return Err(e),
        };
        Ok(
            TicketQuery {
                query: self.query.with_condition(TicketCondition::GivingUser(giving_user_id)).with_condition(
                    TicketCondition::UserRelation(user_relation_id),
                ).with_condition(TicketCondition::IsSpecial(true)).with_condition(
                    TicketCondition::GiftDateBetween(start_of_month, end_of_month),
                ),
            },
        )
    }
}

/// Whether the counted tickets include any.
pub fn any_counted(count: u64) -> (res: bool)
    ensures
        res == (count > 0),
{
    count > 0
}

/// A valid date lies between the first and the last day of a month exactly
/// when it falls in that month.
pub proof fn law_month_range_is_the_month(date: Date, anchor: Date)
    requires
        date.valid(),
        anchor.valid(),
    ensures
        (crate::calendar::first_day_of_month(anchor).not_after(date) && date.not_after(
            crate::calendar::last_day_of_month(anchor),
        )) <==> same_month(date, anchor),
{
}

/// Listing the tickets given to a user never shows the user's own tickets nor
/// any draft.
pub proof fn law_received_tickets_hide_drafts(
    before: TicketQuery,
    after: TicketQuery,
    user_id: i64,
    row: TicketRow,
    text_match: TextMatch,
)
    requires
        after.query.conditions@.len() == before.query.conditions@.len() + 2,
        after.query.conditions@[before.query.conditions@.len() as int]
            == TicketCondition::NotGivingUser(user_id),
        after.query.conditions@.last() matches TicketCondition::StatusIsNot(s) && s@
            == TicketStatus::Draft.value(),
        after.query.admits(row, text_match),
    ensures
        row.ticket.giving_user_id != user_id,
        row.ticket.status@ != TicketStatus::Draft.value(),
{
    let n = before.query.conditions@.len() as int;
    assert(condition_holds(after.query.conditions@[n], row, text_match));
    assert(condition_holds(after.query.conditions@[n + 1], row, text_match));
}

} // verus!
