use backend::calendar::{date_from_ymd, Date};
use backend::records::{Ticket, TicketStatus, UserRelation};
use backend::ticket_query::TicketCondition;
use backend::migration::m20260510_000001_add_first_giving_receiving_ticket_date_to_user_relations_table::Migration;
use backend::ticket_service::{
    backfilled_first_giving_dates, earliest_gift_date,
    apply_first_giving_date_update_at, first_giving_date_update_after_create, new_ticket_at,
    new_ticket_status_for, oldest_giving_ticket_query, parse_transaction_error, recount_update,
    side_to_recount_after_delete, ticket_marked_read_at, ticket_or_not_found, updated_ticket_at,
    user_relation_or_not_found, CreateTicketParams, FirstGivingDateUpdate, GivingSide, TicketServiceError,
    TransactionError, UpdateTicketParams,
};

fn ymd(year: i32, month: u32, day: u32) -> Date {
    date_from_ymd(year, month, day).unwrap()
}

fn relation(first_1: Option<Date>, first_2: Option<Date>) -> UserRelation {
    UserRelation {
        id: 3,
        user_1_giving_ticket_img: None,
        user_2_giving_ticket_img: None,
        created_at: 100,
        updated_at: 100,
        user_1_id: 1,
        user_2_id: 2,
        use_slack: false,
        first_diary_date: None,
        first_user_1_giving_ticket_date: first_1,
        first_user_2_giving_ticket_date: first_2,
    }
}

fn ticket(id: i64, giver: i64, gift_date: Date) -> Ticket {
    Ticket {
        id,
        description: "massage".to_string(),
        gift_date,
        status: TicketStatus::Unread.to_value(),
        is_special: false,
        created_at: 5,
        updated_at: 5,
        giving_user_id: giver,
        user_relation_id: 3,
    }
}

#[test]
fn new_tickets_start_unread_or_as_drafts() {
    assert_eq!(new_ticket_status_for(true), TicketStatus::Draft);
    assert_eq!(new_ticket_status_for(false), TicketStatus::Unread);
    let params = CreateTicketParams {
        gift_date: ymd(2025, 5, 19),
        description: "dinner".to_string(),
        user_relation_id: 3,
        is_special: true,
        is_draft: true,
    };
    let t = new_ticket_at(1, params, 777);
    assert_eq!(t.giving_user_id, 1);
    assert_eq!(t.description, "dinner");
    assert_eq!(t.user_relation_id, 3);
    assert_eq!(t.gift_date, ymd(2025, 5, 19));
    assert_eq!(t.status, "draft");
    assert!(t.is_special);
    assert_eq!((t.created_at, t.updated_at), (777, 777));
}

#[test]
fn first_ticket_of_a_giver_sets_the_first_date() {
    let r = relation(None, None);
    let update = first_giving_date_update_after_create(&r, &ticket(1, 2, ymd(2025, 5, 19)));
    assert_eq!(update, Some(FirstGivingDateUpdate { side: GivingSide::User2, date: Some(ymd(2025, 5, 19)) }));
    let r = apply_first_giving_date_update_at(r, update.unwrap(), 900);
    assert_eq!(r.first_user_2_giving_ticket_date, Some(ymd(2025, 5, 19)));
    assert_eq!(r.first_user_1_giving_ticket_date, None);
    assert_eq!(r.updated_at, 900);
}

#[test]
fn only_an_earlier_ticket_moves_the_first_date() {
    let r = relation(Some(ymd(2025, 5, 1)), None);
    assert_eq!(first_giving_date_update_after_create(&r, &ticket(1, 1, ymd(2025, 5, 2))), None);
    assert_eq!(first_giving_date_update_after_create(&r, &ticket(1, 1, ymd(2025, 5, 1))), None);
    assert_eq!(
        first_giving_date_update_after_create(&r, &ticket(1, 1, ymd(2025, 4, 30))),
        Some(FirstGivingDateUpdate { side: GivingSide::User1, date: Some(ymd(2025, 4, 30)) })
    );
}

#[test]
fn deleting_the_first_ticket_recounts_its_side() {
    let r = relation(Some(ymd(2025, 5, 1)), Some(ymd(2025, 6, 1)));
    assert_eq!(side_to_recount_after_delete(&r, &ticket(1, 1, ymd(2025, 5, 1))), Some(GivingSide::User1));
    assert_eq!(side_to_recount_after_delete(&r, &ticket(1, 1, ymd(2025, 5, 2))), None);
    assert_eq!(side_to_recount_after_delete(&r, &ticket(1, 2, ymd(2025, 6, 1))), Some(GivingSide::User2));
    let next = ticket(9, 1, ymd(2025, 7, 1));
    assert_eq!(
        recount_update(GivingSide::User1, &Some(next)),
        FirstGivingDateUpdate { side: GivingSide::User1, date: Some(ymd(2025, 7, 1)) }
    );
    assert_eq!(recount_update(GivingSide::User2, &None), FirstGivingDateUpdate { side: GivingSide::User2, date: None });
}

#[test]
fn create_then_delete_restores_the_first_date() {
    let before = relation(Some(ymd(2025, 5, 10)), None);
    let created = ticket(4, 1, ymd(2025, 5, 3));
    let update = first_giving_date_update_after_create(&before, &created).unwrap();
    let after_create = apply_first_giving_date_update_at(before.clone(), update, 1000);
    assert_eq!(after_create.first_user_1_giving_ticket_date, Some(ymd(2025, 5, 3)));
    let side = side_to_recount_after_delete(&after_create, &created).unwrap();
    let remaining_oldest = ticket(2, 1, ymd(2025, 5, 10));
    let after_delete =
        apply_first_giving_date_update_at(after_create, recount_update(side, &Some(remaining_oldest)), 2000);
    assert_eq!(after_delete.first_user_1_giving_ticket_date, before.first_user_1_giving_ticket_date);
    assert_eq!(after_delete.first_user_2_giving_ticket_date, before.first_user_2_giving_ticket_date);
}

#[test]
fn create_then_delete_restores_the_dates_when_both_users_are_one() {
    let first = Some(ymd(2025, 5, 10));
    let before = UserRelation { user_2_id: 1, ..relation(first, first) };
    let created = ticket(4, 1, ymd(2025, 5, 3));
    let update = first_giving_date_update_after_create(&before, &created).unwrap();
    assert_eq!(update.side, GivingSide::User1);
    let after_create = apply_first_giving_date_update_at(before.clone(), update, 1000);
    assert_eq!(after_create.first_user_1_giving_ticket_date, Some(ymd(2025, 5, 3)));
    assert_eq!(after_create.first_user_2_giving_ticket_date, first);
    let side = side_to_recount_after_delete(&after_create, &created).unwrap();
    let remaining_oldest = ticket(2, 1, ymd(2025, 5, 10));
    let after_delete =
        apply_first_giving_date_update_at(after_create, recount_update(side, &Some(remaining_oldest)), 2000);
    assert_eq!(after_delete.first_user_1_giving_ticket_date, first);
    assert_eq!(after_delete.first_user_2_giving_ticket_date, first);
    assert_eq!(after_delete.id, before.id);
    assert_eq!(after_delete.user_1_id, 1);
    assert_eq!(after_delete.user_2_id, 1);
    assert_eq!(after_delete.created_at, before.created_at);
}

#[test]
fn oldest_giving_ticket_query_orders_by_gift_date() {
    let q = oldest_giving_ticket_query(3, 1);
    assert!(q.conditions.iter().any(|c| matches!(c, TicketCondition::UserRelation(3))));
    assert!(q.conditions.iter().any(|c| matches!(c, TicketCondition::GivingUser(1))));
}

#[test]
fn error_messages() {
    assert_eq!(TicketServiceError::UserRelationNotFound(42).message(), "UserRelation not found for id: 42");
    assert_eq!(TicketServiceError::TicketNotFound(-7).message(), "Ticket not found for id: -7");
    assert_eq!(TicketServiceError::TicketNotFound(0).message(), "Ticket not found for id: 0");
    assert_eq!(
        TicketServiceError::TicketNotFound(i64::MIN).message(),
        "Ticket not found for id: -9223372036854775808"
    );
    assert_eq!(TicketServiceError::DbErr("connection reset".to_string()).message(), "connection reset");
    assert_eq!(TicketServiceError::ValidationError("too long".to_string()).message(), "too long");
}

#[test]
fn transaction_errors_are_unwrapped() {
    match parse_transaction_error(TransactionError::Connection("refused".to_string())) {
        TicketServiceError::DbErr(m) => assert_eq!(m, "refused"),
        other => panic!("unexpected {:?}", other),
    }
    match parse_transaction_error(TransactionError::Transaction(TicketServiceError::TicketNotFound(5))) {
        TicketServiceError::TicketNotFound(5) => {}
        other => panic!("unexpected {:?}", other),
    }
}

#[test]
fn lookups_report_missing_rows() {
    assert!(matches!(
        user_relation_or_not_found(None, 8),
        Err(TicketServiceError::UserRelationNotFound(8))
    ));
    assert_eq!(user_relation_or_not_found(Some(relation(None, None)), 8).unwrap().id, 3);
    assert!(matches!(ticket_or_not_found::<Ticket>(None, 9), Err(TicketServiceError::TicketNotFound(9))));
    assert_eq!(ticket_or_not_found(Some(ticket(9, 1, ymd(2025, 1, 1))), 9).unwrap().id, 9);
}

#[test]
fn updates_change_only_what_is_asked() {
    let t = ticket(1, 1, ymd(2025, 5, 19));
    let params = UpdateTicketParams { description: None, status: Some(TicketStatus::Read), is_special: Some(true) };
    let u = updated_ticket_at(t.clone(), params, 50);
    assert_eq!(u.description, "massage");
    assert_eq!(u.status, "read");
    assert!(u.is_special);
    assert_eq!(u.updated_at, 50);
    assert_eq!(u.created_at, 5);
    let params = UpdateTicketParams { description: Some("walk".to_string()), status: None, is_special: None };
    let u = updated_ticket_at(t.clone(), params, 60);
    assert_eq!(u.description, "walk");
    assert_eq!(u.status, "unread");
    assert!(!u.is_special);
    let r = ticket_marked_read_at(t, 70);
    assert_eq!(r.status, "read");
    assert_eq!(r.updated_at, 70);
}

#[test]
fn backfill_sets_the_earliest_gift_dates() {
    let tickets = vec![
        ticket(1, 1, ymd(2025, 5, 10)),
        ticket(2, 1, ymd(2025, 5, 3)),
        ticket(3, 2, ymd(2025, 6, 1)),
        Ticket { user_relation_id: 4, ..ticket(4, 1, ymd(2024, 1, 1)) },
    ];
    assert_eq!(earliest_gift_date(&tickets, 3, 1), Some(ymd(2025, 5, 3)));
    assert_eq!(earliest_gift_date(&tickets, 3, 2), Some(ymd(2025, 6, 1)));
    assert_eq!(earliest_gift_date(&tickets, 3, 9), None);
    let filled = backfilled_first_giving_dates(relation(None, None), &tickets);
    assert_eq!(filled.first_user_1_giving_ticket_date, Some(ymd(2025, 5, 3)));
    assert_eq!(filled.first_user_2_giving_ticket_date, Some(ymd(2025, 6, 1)));
    assert_eq!(filled.updated_at, 100);
    let all = Migration::backfill(vec![relation(None, None), UserRelation { id: 4, ..relation(None, None) }], &tickets);
    assert_eq!(all[1].first_user_1_giving_ticket_date, Some(ymd(2024, 1, 1)));
    assert_eq!(all[1].first_user_2_giving_ticket_date, None);
}
