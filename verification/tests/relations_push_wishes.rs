use backend::calendar::{date_from_ymd, Date};
use backend::query::Order;
use backend::records::UserRelation;
use backend::user_relations::{UserRelationMutation, UserRelationQuery, UserRelationWithName};
use backend::web_push::{
    send_web_push_result, CreateWebPushSubscriptionParams, SendWebPushResult, SubscriptionColumn,
    WebPushDelivery, WebPushMessengerResult, WebPushSubscriptionMutation, WebPushSubscriptionQuery,
};
use backend::wishes::{CreateWishParams, WishCondition, WishMutation, WishQuery};

fn ymd(year: i32, month: u32, day: u32) -> Date {
    date_from_ymd(year, month, day).unwrap()
}

fn relation() -> UserRelation {
    UserRelation {
        id: 3,
        user_1_giving_ticket_img: Some("a.png".to_string()),
        user_2_giving_ticket_img: None,
        created_at: 100,
        updated_at: 100,
        user_1_id: 1,
        user_2_id: 2,
        use_slack: true,
        first_diary_date: None,
        first_user_1_giving_ticket_date: None,
        first_user_2_giving_ticket_date: Some(ymd(2025, 1, 2)),
    }
}

fn push_params() -> CreateWebPushSubscriptionParams {
    CreateWebPushSubscriptionParams {
        user_id: 1,
        device_name: "phone".to_string(),
        endpoint: "https://push.example/abc".to_string(),
        expiration_epoch_time: Some(1_700_000_000),
        p256dh_key: "p256".to_string(),
        auth_key: "auth".to_string(),
    }
}

#[test]
fn push_outcomes() {
    assert_eq!(send_web_push_result(WebPushDelivery::MessengerUnavailable), SendWebPushResult::NotSent);
    assert_eq!(send_web_push_result(WebPushDelivery::RequestFailed), SendWebPushResult::NotSent);
    assert_eq!(send_web_push_result(WebPushDelivery::Answered(WebPushMessengerResult::OK)), SendWebPushResult::Sent);
    assert_eq!(
        send_web_push_result(WebPushDelivery::Answered(WebPushMessengerResult::InvalidSubscription)),
        SendWebPushResult::Invalid
    );
}

#[test]
fn subscription_upsert_keeps_one_per_user() {
    let stmt = WebPushSubscriptionMutation::upsert_at(push_params(), 42);
    assert_eq!(stmt.row.id, 42);
    assert_eq!(stmt.row.user_id, 1);
    assert_eq!(stmt.row.device_name, "phone");
    assert_eq!(stmt.row.endpoint, "https://push.example/abc");
    assert_eq!(stmt.row.expiration_epoch_time, Some(1_700_000_000));
    assert_eq!(stmt.row.p256dh_key, "p256");
    assert_eq!(stmt.row.auth_key, "auth");
    assert_eq!(stmt.conflict_column, SubscriptionColumn::UserId);
    assert_eq!(
        stmt.update_columns,
        vec![
            SubscriptionColumn::DeviceName,
            SubscriptionColumn::Endpoint,
            SubscriptionColumn::ExpirationEpochTime,
            SubscriptionColumn::P256dhKey,
            SubscriptionColumn::AuthKey,
        ]
    );
    let fresh = WebPushSubscriptionMutation::upsert(push_params());
    assert_eq!(fresh.row.user_id, 1);
    assert_eq!(WebPushSubscriptionQuery::get_by_user_id(5).user_id, 5);
}

#[test]
fn relation_lookups() {
    let q = UserRelationQuery::find_by_id(3, 2);
    assert_eq!((q.id, q.member, q.order_by_created_at), (Some(3), 2, None));
    let q = UserRelationQuery::find_related_by_user_id(2);
    assert_eq!((q.id, q.member, q.order_by_created_at), (None, 2, Some(Order::Asc)));
}

#[test]
fn relation_first_dates_are_replaced() {
    let r = UserRelationMutation::update_first_user_1_giving_ticket_date_at(relation(), Some(ymd(2025, 3, 3)), 500);
    assert_eq!(r.first_user_1_giving_ticket_date, Some(ymd(2025, 3, 3)));
    assert_eq!(r.first_user_2_giving_ticket_date, Some(ymd(2025, 1, 2)));
    assert_eq!((r.created_at, r.updated_at), (100, 500));
    let r = UserRelationMutation::update_first_user_2_giving_ticket_date_at(r, None, 600);
    assert_eq!(r.first_user_2_giving_ticket_date, None);
    assert_eq!(r.updated_at, 600);
    let r = UserRelationMutation::update_first_diary_date_at(r, Some(ymd(2024, 12, 24)), 700);
    assert_eq!(r.first_diary_date, Some(ymd(2024, 12, 24)));
    assert_eq!(r.user_1_giving_ticket_img, Some("a.png".to_string()));
    let r = UserRelationMutation::update_first_diary_date(r, None);
    assert_eq!(r.first_diary_date, None);
    assert_eq!(r.id, 3);
}

#[test]
fn relation_with_names() {
    let named = UserRelationWithName::new(relation(), "user_0".to_string(), "user_1".to_string());
    assert_eq!((named.id, named.user_1_id, named.user_2_id), (3, 1, 2));
    assert_eq!((named.user_1_name.as_str(), named.user_2_name.as_str()), ("user_0", "user_1"));
    assert!(named.use_slack);
    assert_eq!(named.first_user_2_giving_ticket_date, Some(ymd(2025, 1, 2)));
}

#[test]
fn new_wishes_are_unread() {
    let params = CreateWishParams { use_description: "a hug".to_string(), ticket_id: 9, user_relation_id: 3 };
    let w = WishMutation::create_at(params.clone(), 77, 1000);
    assert_eq!(w.id, 77);
    assert_eq!(w.description, "a hug");
    assert_eq!((w.ticket_id, w.user_relation_id), (9, 3));
    assert_eq!(w.status, "unread");
    assert_eq!((w.created_at, w.updated_at), (1000, 1000));
    let w = WishMutation::create(params);
    assert_eq!(w.status, "unread");
    assert_eq!(w.created_at, w.updated_at);
}

#[test]
fn wish_query_builder() {
    let q = WishQuery::init_query()
        .join_ticket()
        .join_user_relation()
        .filter_which_user_has_access(1)
        .filter_by_relation(3)
        .order_by_created_at(Order::Desc);
    assert!(q.join_ticket && q.join_user_relation);
    assert_eq!(q.conditions, vec![WishCondition::UserHasAccess(1), WishCondition::UserRelation(3)]);
    assert_eq!(q.order_by_created_at, vec![Order::Desc]);
}
