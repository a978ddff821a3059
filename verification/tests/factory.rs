use backend::calendar::{date_from_ymd, days_ago, Date};
use backend::factory::{
    diary_fixtures, index_by_name, set_raw_auth_key, set_raw_endpoint, set_raw_p256dh_key, ticket_fixtures,
    web_push_subscription, web_push_subscription_at, wish_reply_fixtures, DiaryParam, TicketParam, WishReplyParam,
};
use backend::records::{ReadStatus, TicketStatus};

fn ymd(year: i32, month: u32, day: u32) -> Date {
    date_from_ymd(year, month, day).unwrap()
}

fn ticket_param(name: &str, n_days_ago: i64) -> TicketParam {
    TicketParam {
        name: name.to_string(),
        description: None,
        n_days_ago,
        status: TicketStatus::Unread,
        is_special: false,
        giving_user_id: 1,
        user_relation_id: 3,
    }
}

#[test]
fn days_ago_counts_back_and_forward() {
    assert_eq!(days_ago(ymd(2025, 3, 1), 1), ymd(2025, 2, 28));
    assert_eq!(days_ago(ymd(2024, 3, 1), 1), ymd(2024, 2, 29));
    assert_eq!(days_ago(ymd(2025, 3, 1), 0), ymd(2025, 3, 1));
    assert_eq!(days_ago(ymd(2025, 3, 1), -1), ymd(2025, 3, 2));
    assert_eq!(days_ago(ymd(2025, 12, 31), -1), ymd(2026, 1, 1));
    assert_eq!(days_ago(ymd(2025, 1, 1), 365), ymd(2024, 1, 2));
    assert_eq!(days_ago(ymd(1970, 1, 1), -20000), ymd(2024, 10, 4));
}

#[test]
fn ticket_fixtures_follow_their_params() {
    let mut special = ticket_param("special", 3);
    special.description = Some("a special one".to_string());
    special.is_special = true;
    special.status = TicketStatus::Draft;
    let rows = ticket_fixtures(&vec![ticket_param("plain", -2), special], ymd(2025, 5, 19), 4242);
    assert_eq!(rows.len(), 2);
    assert_eq!(rows[0].description, "plain");
    assert_eq!(rows[0].gift_date, ymd(2025, 5, 21));
    assert_eq!(rows[0].status, "unread");
    assert!(!rows[0].is_special);
    assert_eq!(rows[1].description, "a special one");
    assert_eq!(rows[1].gift_date, ymd(2025, 5, 16));
    assert_eq!(rows[1].status, "draft");
    assert!(rows[1].is_special);
    assert_eq!((rows[1].giving_user_id, rows[1].user_relation_id), (1, 3));
    assert_eq!((rows[1].created_at, rows[1].updated_at), (4242, 4242));
}

#[test]
fn diary_fixtures_default_to_unread_diary() {
    let params = vec![
        DiaryParam { name: "first".to_string(), n_days_ago: 1, user_relation_id: 3, ..Default::default() },
        DiaryParam {
            name: "second".to_string(),
            entry: Some("picnic".to_string()),
            n_days_ago: 0,
            user_1_status: Some(ReadStatus::Read),
            user_2_status: None,
            user_relation_id: 3,
        },
    ];
    let rows = diary_fixtures(&params, ymd(2025, 1, 1), 77);
    assert_eq!(rows.len(), 2);
    assert_eq!(rows[0].entry, "diary");
    assert_eq!(rows[0].date, ymd(2024, 12, 31));
    assert_eq!((rows[0].user_1_status.as_str(), rows[0].user_2_status.as_str()), ("unread", "unread"));
    assert_eq!(rows[1].entry, "picnic");
    assert_eq!(rows[1].date, ymd(2025, 1, 1));
    assert_eq!((rows[1].user_1_status.as_str(), rows[1].user_2_status.as_str()), ("read", "unread"));
    assert_eq!((rows[1].created_at, rows[1].updated_at, rows[1].user_relation_id), (77, 77, 3));
}

#[test]
fn wish_reply_fixtures_use_their_name_as_text() {
    let rows = wish_reply_fixtures(&vec![WishReplyParam { name: "thanks", wish_id: 5, posted_by_id: 2 }]);
    assert_eq!(rows.len(), 1);
    assert_eq!((rows[0].description.as_str(), rows[0].wish_id, rows[0].posted_by_id), ("thanks", 5, 2));
}

#[test]
fn index_keeps_the_first_row_of_each_name() {
    let names = vec!["a".to_string(), "b".to_string(), "a".to_string(), "c".to_string()];
    let index = index_by_name(vec![10, 20, 30, 40], &names);
    assert_eq!(index, vec![("a".to_string(), 10), ("b".to_string(), 20), ("c".to_string(), 40)]);
}

#[test]
fn index_stops_at_the_shorter_list() {
    let names = vec!["a".to_string(), "b".to_string(), "c".to_string()];
    assert_eq!(index_by_name(vec![1, 2], &names), vec![("a".to_string(), 1), ("b".to_string(), 2)]);
    assert_eq!(index_by_name(vec![1, 2, 3], &vec!["x".to_string()]), vec![("x".to_string(), 1)]);
    assert!(index_by_name(Vec::<i32>::new(), &names).is_empty());
}

#[test]
fn subscription_fixture_defaults() {
    let s = web_push_subscription_at(4, 99);
    assert_eq!((s.id, s.user_id), (99, 4));
    assert_eq!(s.device_name, "My device");
    assert_eq!(s.endpoint, "endpoint");
    assert_eq!(s.expiration_epoch_time, None);
    assert_eq!((s.p256dh_key.as_str(), s.auth_key.as_str()), ("p256dh_key", "auth_key"));
}

#[test]
fn subscription_raw_keys_are_url_safe_base64_without_padding() {
    let s = web_push_subscription(4);
    let s = set_raw_p256dh_key(s, b"hello".to_vec());
    assert_eq!(s.p256dh_key, "aGVsbG8");
    let s = set_raw_p256dh_key(s, vec![0xfb, 0xff]);
    assert_eq!(s.p256dh_key, "-_8");
    let s = set_raw_p256dh_key(s, vec![0, 0, 0]);
    assert_eq!(s.p256dh_key, "AAAA");
    let s = set_raw_auth_key(s, [0u8; 16]);
    assert_eq!(s.auth_key, "AAAAAAAAAAAAAAAAAAAAAA");
    let s = set_raw_endpoint(s, "https://push.example/x");
    assert_eq!(s.endpoint, "https://push.example/x");
    assert_eq!(s.user_id, 4);
    assert_eq!(s.p256dh_key, "AAAA");
}

#[test]
fn single_row_fixtures() {
    let d = backend::factory::diary(3, ymd(2025, 2, 2), 10);
    assert_eq!((d.entry.as_str(), d.date, d.user_relation_id), ("diary", ymd(2025, 2, 2), 3));
    assert_eq!((d.user_1_status.as_str(), d.user_2_status.as_str()), ("unread", "unread"));
    let t = backend::factory::diary_tag(3, 10);
    assert_eq!((t.text.as_str(), t.sort_no, t.user_relation_id, t.created_at), ("diary_tag", 0, 3, 10));
    let r = backend::factory::wish_reply(5, 2);
    assert_eq!((r.description.as_str(), r.wish_id, r.posted_by_id), ("reply", 5, 2));
}
