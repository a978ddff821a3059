use backend::calendar::{date_from_ymd, month_range, Date};
use backend::query::Order;
use backend::records::{Ticket, TicketStatus};
use backend::ticket_query::{any_counted, TicketCondition, TicketOrderKey, TicketQuery, TicketSelection};
use backend::ticket_service::special_ticket_existence_query;

fn ymd(year: i32, month: u32, day: u32) -> Date {
    date_from_ymd(year, month, day).unwrap()
}

fn ticket(id: i64, giving_user_id: i64, user_relation_id: i64, is_special: bool, gift_date: Date) -> Ticket {
    Ticket {
        id,
        description: String::new(),
        gift_date,
        status: TicketStatus::Unread.to_value(),
        is_special,
        created_at: 0,
        updated_at: 0,
        giving_user_id,
        user_relation_id,
    }
}

/// What the conditions of a counting query mean for a ticket row.
fn selects(q: &TicketSelection, t: &Ticket) -> bool {
    q.conditions.iter().all(|c| match c {
        TicketCondition::Id(id) => t.id == *id,
        TicketCondition::UserRelation(id) => t.user_relation_id == *id,
        TicketCondition::GivingUser(u) => t.giving_user_id == *u,
        TicketCondition::NotGivingUser(u) => t.giving_user_id != *u,
        TicketCondition::IsSpecial(b) => t.is_special == *b,
        TicketCondition::GiftDateFrom(d) => !t.gift_date.is_before(d),
        TicketCondition::GiftDateTo(d) => !d.is_before(&t.gift_date),
        TicketCondition::GiftDateBetween(from, to) => {
            !t.gift_date.is_before(from) && !to.is_before(&t.gift_date)
        }
        TicketCondition::StatusIsNot(s) => t.status != *s,
        other => panic!("condition not evaluated here: {:?}", other),
    })
}

fn exists_other_special_ticket(tickets: &[Ticket], giving_user_id: i64, user_relation_id: i64, date: Date) -> bool {
    let q = special_ticket_existence_query(giving_user_id, user_relation_id, date).unwrap();
    let count = tickets.iter().filter(|t| selects(&q, t)).count() as u64;
    any_counted(count)
}

const USER_0: i64 = 10;
const USER_1: i64 = 11;
const RELATION: i64 = 7;

#[test]
fn test_exists_other_special_ticket_start_of_month() {
    let tickets = vec![ticket(1, USER_0, RELATION, true, ymd(2025, 5, 1))];
    let res = exists_other_special_ticket(&tickets, USER_0, RELATION, ymd(2025, 5, 19));
    assert!(res);
}

#[test]
fn test_exists_other_special_ticket_end_of_month() {
    let tickets = vec![ticket(1, USER_0, RELATION, true, ymd(2025, 5, 31))];
    let res = exists_other_special_ticket(&tickets, USER_0, RELATION, ymd(2025, 5, 19));
    assert!(res);
}

#[test]
fn test_exists_other_special_ticket_count_only_giving_special_tickets() {
    let tickets = vec![
        ticket(1, USER_1, RELATION, true, ymd(2025, 5, 31)),
        ticket(2, USER_0, RELATION, false, ymd(2025, 5, 31)),
    ];
    let res = exists_other_special_ticket(&tickets, USER_0, RELATION, ymd(2025, 5, 19));
    assert!(!res);
}

#[test]
fn special_ticket_of_other_months_is_not_counted() {
    let tickets = vec![
        ticket(1, USER_0, RELATION, true, ymd(2025, 4, 30)),
        ticket(2, USER_0, RELATION, true, ymd(2025, 6, 1)),
        ticket(3, USER_0, RELATION + 1, true, ymd(2025, 5, 10)),
    ];
    assert!(!exists_other_special_ticket(&tickets, USER_0, RELATION, ymd(2025, 5, 19)));
}

#[test]
fn special_ticket_query_spans_the_whole_month() {
    let q = special_ticket_existence_query(USER_0, RELATION, ymd(2025, 5, 19)).unwrap();
    assert!(!q.join_wish);
    assert!(!q.join_user_relation);
    assert!(q.order_by.is_empty());
    assert_eq!(q.conditions.len(), 4);
    match &q.conditions[3] {
        TicketCondition::GiftDateBetween(from, to) => {
            assert_eq!(*from, ymd(2025, 5, 1));
            assert_eq!(*to, ymd(2025, 5, 31));
        }
        other => panic!("unexpected condition {:?}", other),
    }
}

#[test]
fn month_range_of_a_day_in_may() {
    assert_eq!(month_range(ymd(2025, 5, 19)).unwrap(), (ymd(2025, 5, 1), ymd(2025, 5, 31)));
}

#[test]
fn month_range_of_leap_and_common_february() {
    assert_eq!(month_range(ymd(2024, 2, 10)).unwrap(), (ymd(2024, 2, 1), ymd(2024, 2, 29)));
    assert_eq!(month_range(ymd(2025, 2, 28)).unwrap(), (ymd(2025, 2, 1), ymd(2025, 2, 28)));
    assert_eq!(month_range(ymd(1900, 2, 1)).unwrap(), (ymd(1900, 2, 1), ymd(1900, 2, 28)));
    assert_eq!(month_range(ymd(2000, 2, 1)).unwrap(), (ymd(2000, 2, 1), ymd(2000, 2, 29)));
}

#[test]
fn month_range_of_december_and_thirty_day_months() {
    assert_eq!(month_range(ymd(2025, 12, 24)).unwrap(), (ymd(2025, 12, 1), ymd(2025, 12, 31)));
    assert_eq!(month_range(ymd(2025, 4, 30)).unwrap(), (ymd(2025, 4, 1), ymd(2025, 4, 30)));
}

#[test]
fn dates_are_checked_and_ordered() {
    assert!(date_from_ymd(2025, 2, 29).is_none());
    assert!(date_from_ymd(2024, 2, 29).is_some());
    assert!(date_from_ymd(2025, 13, 1).is_none());
    assert!(date_from_ymd(2025, 4, 31).is_none());
    assert!(date_from_ymd(2025, 1, 0).is_none());
    let d = date_from_ymd(2025, 5, 19).unwrap();
    assert_eq!((d.year, d.month, d.day), (2025, 5, 19));
    assert!(ymd(2024, 12, 31).is_before(&ymd(2025, 1, 1)));
    assert!(ymd(2025, 1, 31).is_before(&ymd(2025, 2, 1)));
    assert!(!ymd(2025, 1, 1).is_before(&ymd(2025, 1, 1)));
}

#[test]
fn any_counted_is_positive_count() {
    assert!(!any_counted(0));
    assert!(any_counted(1));
    assert!(any_counted(42));
}

#[test]
fn ticket_query_builder_accumulates_filters() {
    let q = TicketQuery::init_query()
        .join_wish()
        .filter_which_user_has_access(USER_0)
        .filter_by_relation(RELATION)
        .filter_gift_date_gte(ymd(2025, 1, 1))
        .filter_gift_date_lte(ymd(2025, 12, 31))
        .exclude_draft_tickets()
        .order_by_gift_date(Order::Desc)
        .order_by_created_at(Order::Asc);
    assert!(q.query.join_wish);
    assert!(q.query.join_user_relation);
    assert_eq!(q.query.conditions.len(), 5);
    assert!(matches!(q.query.conditions[0], TicketCondition::UserHasAccess(USER_0)));
    assert!(matches!(q.query.conditions[1], TicketCondition::UserRelation(RELATION)));
    match &q.query.conditions[4] {
        TicketCondition::StatusIsNot(s) => assert_eq!(s, "draft"),
        other => panic!("unexpected condition {:?}", other),
    }
    assert_eq!(
        q.query.order_by,
        vec![(TicketOrderKey::GiftDate, Order::Desc), (TicketOrderKey::CreatedAt, Order::Asc)]
    );
}

#[test]
fn ticket_query_text_filter_keeps_terms() {
    let q = TicketQuery::init_query().join_wish().filter_contains_texts(vec!["cake", "tea"]);
    match &q.query.conditions[0] {
        TicketCondition::ContainsAllTexts(terms) => {
            assert_eq!(terms, &vec!["cake".to_string(), "tea".to_string()])
        }
        other => panic!("unexpected condition {:?}", other),
    }
}

#[test]
fn received_tickets_hide_own_and_draft_tickets() {
    let q = TicketQuery::init_query().user_tickets(USER_0, false).query;
    let mut draft = ticket(1, USER_1, RELATION, false, ymd(2025, 5, 1));
    draft.status = TicketStatus::Draft.to_value();
    let unread = ticket(2, USER_1, RELATION, false, ymd(2025, 5, 2));
    let own = ticket(3, USER_0, RELATION, false, ymd(2025, 5, 3));
    assert!(!selects(&q, &draft));
    assert!(selects(&q, &unread));
    assert!(!selects(&q, &own));
    let giving = TicketQuery::init_query().user_tickets(USER_0, true).query;
    assert!(selects(&giving, &own));
    assert!(!selects(&giving, &unread));
}

#[test]
fn each_filter_narrows_the_selection() {
    let t = ticket(1, USER_0, RELATION, true, ymd(2025, 5, 10));
    let base = TicketSelection::all();
    assert!(selects(&base, &t));
    let narrowed = base.clone().with_condition(TicketCondition::IsSpecial(false));
    assert!(!selects(&narrowed, &t));
    let narrowed = base.with_condition(TicketCondition::GiftDateFrom(ymd(2025, 5, 10)));
    assert!(selects(&narrowed, &t));
}
