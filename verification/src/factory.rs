//! Fixture rows for exercising the service against a database: tickets,
//! diary entries and wish replies described relative to today, web push
//! subscriptions with raw keys, and the index that finds each inserted row
//! again by the name its fixture was given.

use crate::calendar::{day_number, days_ago, representable_day, Date};
use crate::clock::new_uuid_v7;
use crate::records::{Diary, DiaryStatus, DiaryTagRecord, ReadStatus, TicketStatus, Timestamp, WebPushSubscription};
use base64::{prelude::BASE64_URL_SAFE_NO_PAD, Engine};
use crate::ticket_service::NewTicket;
use vstd::prelude::*;

verus! {

/// A ticket fixture: given `n_days_ago` days before today (after it when
/// negative), described by `description` or else by its name.
#[derive(Clone, Debug)]
pub struct TicketParam {
    pub name: String,
    pub description: Option<String>,
    pub n_days_ago: i64,
    pub status: TicketStatus,
    pub is_special: bool,
    pub giving_user_id: i64,
    pub user_relation_id: i64,
}

/// A diary fixture written `n_days_ago` days before today; the entry text
/// and the statuses default to `diary` and unread.
#[derive(Clone, Debug, Default)]
pub struct DiaryParam {
    pub name: String,
    pub entry: Option<String>,
    pub n_days_ago: i64,
    pub user_1_status: Option<DiaryStatus>,
    pub user_2_status: Option<DiaryStatus>,
    pub user_relation_id: i64,
}

/// A wish reply fixture, whose text is its name.
#[derive(Clone, Debug, Default)]
pub struct WishReplyParam<'a> {
    pub name: &'a str,
    pub wish_id: u128,
    pub posted_by_id: i64,
}

/// A wish reply row before the database has assigned its id.
#[derive(Clone, Debug)]
pub struct NewWishReply {
    pub description: String,
    pub wish_id: u128,
    pub posted_by_id: i64,
}

/// The date `n_days_ago` days before `today` is representable.
pub open spec fn offset_representable(today: Date, n_days_ago: i64) -> bool {
    representable_day(day_number(today) - n_days_ago)
}

pub open spec fn status_or_unread(status: Option<DiaryStatus>) -> DiaryStatus {
    match status {
        Some(s) => s,
        None => ReadStatus::Unread,
    }
}

/// `row` is the ticket that `p` describes, with `today` and `now` as the
/// current date and time.
pub open spec fn is_ticket_fixture(row: NewTicket, p: TicketParam, today: Date, now: Timestamp) -> bool {
    &&& row.giving_user_id == p.giving_user_id
    &&& row.user_relation_id == p.user_relation_id
    &&& row.gift_date.valid()
    &&& day_number(row.gift_date) == day_number(today) - p.n_days_ago
    &&& row.is_special == p.is_special
    &&& row.status@ == p.status.value()
    &&& row.description == match p.description {
        Some(d) => d,
        None => p.name,
    }
    &&& row.created_at == now
    &&& row.updated_at == now
}

/// `row` is the diary entry that `p` describes (under any id), with `today`
/// and `now` as the current date and time.
pub open spec fn is_diary_fixture(row: Diary, p: DiaryParam, today: Date, now: Timestamp) -> bool {
    &&& row.entry@ == match p.entry {
        Some(e) => e@,
        None => "diary"@,
    }
    &&& row.date.valid()
    &&& day_number(row.date) == day_number(today) - p.n_days_ago
    &&& row.user_relation_id == p.user_relation_id
    &&& row.user_1_status@ == status_or_unread(p.user_1_status).value()
    &&& row.user_2_status@ == status_or_unread(p.user_2_status).value()
    &&& row.created_at == now
    &&& row.updated_at == now
}

/// A diary entry fixture of the relation, written today: `diary`, unread by
/// both users, under a fresh id.
pub fn diary(user_relation_id: i64, today: Date, now: Timestamp) -> (res: Diary)
    ensures
        res.entry@ == "diary"@,
        res.date == today,
        res.user_relation_id == user_relation_id,
        res.user_1_status@ == ReadStatus::Unread.value(),
        res.user_2_status@ == ReadStatus::Unread.value(),
        res.created_at == now,
        res.updated_at == now,
{
    Diary {
        id: new_uuid_v7(),
        entry: String::from_str("diary"),
        date: today,
        created_at: now,
        updated_at: now,
        user_relation_id,
        user_1_status: ReadStatus::Unread.to_value(),
        user_2_status: ReadStatus::Unread.to_value(),
    }
}

/// A tag fixture of the relation: `diary_tag`, first in sort order, under a
/// fresh id.
pub fn diary_tag(user_relation_id: i64, now: Timestamp) -> (res: DiaryTagRecord)
    ensures
        res.text@ == "diary_tag"@,
        res.sort_no == 0,
        res.user_relation_id == user_relation_id,
        res.created_at == now,
        res.updated_at == now,
{
    DiaryTagRecord {
        id: new_uuid_v7(),
        text: String::from_str("diary_tag"),
        sort_no: 0,
        created_at: now,
        updated_at: now,
        user_relation_id,
    }
}

/// A reply fixture to the wish, posted by `user_id`: `reply`.
pub fn wish_reply(wish_id: u128, user_id: i64) -> (res: NewWishReply)
    ensures
        res.description@ == "reply"@,
        res.wish_id == wish_id,
        res.posted_by_id == user_id,
{
    NewWishReply { description: String::from_str("reply"), wish_id, posted_by_id: user_id }
}

/// The ticket rows that the fixtures describe, in the same order.
pub fn ticket_fixtures(params: &Vec<TicketParam>, today: Date, now: Timestamp) -> (res: Vec<NewTicket>)
    requires
        today.valid(),
        forall|i: int| 0 <= i < params@.len() ==> offset_representable(today, #[trigger] params@[i].n_days_ago),
    ensures
        res@.len() == params@.len(),
        forall|i: int| 0 <= i < res@.len() ==> is_ticket_fixture(#[trigger] res@[i], params@[i], today, now),
{
    let mut rows: Vec<NewTicket> = Vec::new();
    let mut i: usize = 0;
    while i < params.len()
        invariant
            i <= params@.len(),
            rows@.len() == i,
            today.valid(),
            forall|j: int|
                0 <= j < params@.len() ==> offset_representable(today, #[trigger] params@[j].n_days_ago),
            forall|j: int| 0 <= j < i ==> is_ticket_fixture(#[trigger] rows@[j], params@[j], today, now),
        decreases params@.len() - i,
    {
        let p = &params[i];
        assert(offset_representable(today, params@[i as int].n_days_ago));
        let gift_date = days_ago(today, p.n_days_ago);
        let description = match &p.description {
            Some(d) => d.clone(),
            None => p.name.clone(),
        };
        rows.push(
            NewTicket {
                giving_user_id: p.giving_user_id,
                description,
                user_relation_id: p.user_relation_id,
                gift_date,
                status: p.status.to_value(),
                is_special: p.is_special,
                created_at: now,
                updated_at: now,
            },
        );
        i = i + 1;
    }
    rows
}

/// The diary rows that the fixtures describe, in the same order, each under
/// a fresh id.
pub fn diary_fixtures(params: &Vec<DiaryParam>, today: Date, now: Timestamp) -> (res: Vec<Diary>)
    requires
        today.valid(),
        forall|i: int| 0 <= i < params@.len() ==> offset_representable(today, #[trigger] params@[i].n_days_ago),
    ensures
        res@.len() == params@.len(),
        forall|i: int| 0 <= i < res@.len() ==> is_diary_fixture(#[trigger] res@[i], params@[i], today, now),
{
    let mut rows: Vec<Diary> = Vec::new();
    let mut i: usize = 0;
    while i < params.len()
        invariant
            i <= params@.len(),
            rows@.len() == i,
            today.valid(),
            forall|j: int|
                0 <= j < params@.len() ==> offset_representable(today, #[trigger] params@[j].n_days_ago),
            forall|j: int| 0 <= j < i ==> is_diary_fixture(#[trigger] rows@[j], params@[j], today, now),
        decreases params@.len() - i,
    {
        let p = &params[i];
        assert(offset_representable(today, params@[i as int].n_days_ago));
        let date = days_ago(today, p.n_days_ago);
        let entry = match &p.entry {
            Some(e) => e.clone(),
            None => String::from_str("diary"),
        };
        let user_1_status = match p.user_1_status {
            Some(s) => s,
            None => ReadStatus::Unread,
        };
        let user_2_status = match p.user_2_status {
            Some(s) => s,
            None => ReadStatus::Unread,
        };
        rows.push(
            Diary {
                id: new_uuid_v7(),
                entry,
                date,
                created_at: now,
                updated_at: now,
                user_relation_id: p.user_relation_id,
                user_1_status: user_1_status.to_value(),
                user_2_status: user_2_status.to_value(),
            },
        );
        i = i + 1;
    }
    rows
}

/// The wish reply rows that the fixtures describe, in the same order.
pub fn wish_reply_fixtures(params: &Vec<WishReplyParam>) -> (res: Vec<NewWishReply>)
    ensures
        res@.len() == params@.len(),
        forall|i: int|
            0 <= i < res@.len() ==> {
                &&& (#[trigger] res@[i]).description@ == params@[i].name@
                &&& res@[i].wish_id == params@[i].wish_id
                &&& res@[i].posted_by_id == params@[i].posted_by_id
            },
{
    let mut rows: Vec<NewWishReply> = Vec::new();
    let mut i: usize = 0;
    while i < params.len()
        invariant
            i <= params@.len(),
            rows@.len() == i,
            forall|j: int|
                0 <= j < i ==> {
                    &&& (#[trigger] rows@[j]).description@ == params@[j].name@
                    &&& rows@[j].wish_id == params@[j].wish_id
                    &&& rows@[j].posted_by_id == params@[j].posted_by_id
                },
        decreases params@.len() - i,
    {
        let p = &params[i];
        rows.push(
            NewWishReply {
                description: String::from_str(p.name),
                wish_id: p.wish_id,
                posted_by_id: p.posted_by_id,
            },
        );
        i = i + 1;
    }
    rows
}

/// The position of the entry of `index` filed under `name`, if any.
fn position_of_name<T>(index: &Vec<(String, T)>, name: &String) -> (res: Option<usize>)
    ensures
        match res {
            Some(i) => i < index@.len() && index@[i as int].0@ == name@,
            None => forall|i: int| 0 <= i < index@.len() ==> (#[trigger] index@[i]).0@ != name@,
        },
{
    let mut i: usize = 0;
    while i < index.len()
        invariant
            i <= index@.len(),
            forall|ii: int| 0 <= ii < i ==> (#[trigger] index@[ii]).0@ != name@,
        decreases index@.len() - i,
    {
        if index[i].0 == *name {
            return Some(i);
        }
        i = i + 1;
    }
    None
}

/// No name before position `k` equals the name at `k`.
pub open spec fn first_with_name(names: Seq<String>, k: int) -> bool {
    forall|j: int| 0 <= j < k ==> names[j]@ != names[k]@
}

/// `entry` is the row of the first fixture named as the entry is (among the
/// fixtures that both lists reach).
pub open spec fn filed_under_first<T>(names: Seq<String>, rows: Seq<T>, entry: (String, T)) -> bool {
    exists|k: int|
        #![trigger names[k]]
        0 <= k < rows.len() && k < names.len() && first_with_name(names, k) && entry.0@ == names[k]@
            && entry.1 == rows[k]
}

/// Some entry is filed under `name`.
pub open spec fn has_entry_named<T>(index: Seq<(String, T)>, name: Seq<char>) -> bool {
    exists|i: int| 0 <= i < index.len() && (#[trigger] index[i]).0@ == name
}

/// Pairs each inserted row with the name of the fixture it came from, in the
/// order given (as far as both lists reach); where several fixtures share a
/// name, the row of the first of them is kept under it.
pub fn index_by_name<T>(rows: Vec<T>, names: &Vec<String>) -> (res: Vec<(String, T)>)
    ensures
        forall|i: int| 0 <= i < res@.len() ==> filed_under_first(names@, rows@, #[trigger] res@[i]),
        forall|k: int|
            0 <= k < rows@.len() && k < names@.len() ==> has_entry_named(res@, #[trigger] names@[k]@),
        forall|i: int, j: int| 0 <= i < j < res@.len() ==> res@[i].0@ != res@[j].0@,
{
    let ghost all = rows@;
    let mut rest = rows;
    let mut res: Vec<(String, T)> = Vec::new();
    // For each entry, the position of the fixture it came from; for each
    // fixture seen, the position of the entry filed under its name.
    let ghost mut source: Seq<int> = Seq::empty();
    let ghost mut entry: Seq<int> = Seq::empty();
    let mut k: usize = 0;
    while k < names.len() && rest.len() > 0
        invariant
            k <= names@.len(),
            k <= all.len(),
            rest@ == all.subrange(k as int, all.len() as int),
            source.len() == res@.len(),
            entry.len() == k,
            forall|i: int|
                #![trigger res@[i]]
                #![trigger source[i]]
                0 <= i < res@.len() ==> {
                    &&& 0 <= source[i] < k
                    &&& first_with_name(names@, source[i])
                    &&& res@[i].0@ == names@[source[i]]@
                    &&& res@[i].1 == all[source[i]]
                },
            forall|kk: int|
                #![trigger entry[kk]]
                0 <= kk < k ==> 0 <= entry[kk] < res@.len() && res@[entry[kk]].0@ == names@[kk]@,
            forall|i: int, j: int| 0 <= i < j < res@.len() ==> res@[i].0@ != res@[j].0@,
        decreases names@.len() - k,
    {
        let row = rest.remove(0);
        assert(row == all[k as int]);
        let name = &names[k];
        match position_of_name(&res, name) {
            Some(i) => {
                proof {
                    entry = entry.push(i as int);
                }
            },
            None => {
                assert forall|j: int| 0 <= j < k implies names@[j]@ != names@[k as int]@ by {
                    assert(res@[entry[j]].0@ == names@[j]@);
                }
                let ghost before = res@;
                res.push((name.clone(), row));
                proof {
                    source = source.push(k as int);
                    entry = entry.push(before.len() as int);
                    assert(res@[before.len() as int].0@ == names@[k as int]@);
                    assert forall|kk: int| 0 <= kk < k implies res@[entry[kk]] == before[entry[kk]] by {}
                }
            },
        }
        assert(rest@ =~= all.subrange(k + 1, all.len() as int));
        k = k + 1;
    }
    proof {
        assert(k == names@.len() || k == all.len());
        assert forall|kk: int| 0 <= kk < all.len() && kk < names@.len() implies has_entry_named(
            res@,
            #[trigger] names@[kk]@,
        ) by {
            assert(res@[entry[kk]].0@ == names@[kk]@);
        }
        assert forall|i: int| 0 <= i < res@.len() implies filed_under_first(names@, all, #[trigger] res@[i]) by {
            let kk = source[i];
            assert(names@[kk]@ == res@[i].0@);
        }
        assert(all == rows@);
    }
    res
}

// ---------------------------------------------------------------------------
// Web push subscriptions.

/// The character of the URL-safe base64 alphabet for a 6-bit value.
pub open spec fn url_safe_digit(v: int) -> char {
    if v < 26 {
        (65 + v) as char
    } else if v < 52 {
        (97 + v - 26) as char
    } else if v < 62 {
        (48 + v - 52) as char
    } else if v == 62 {
        '-'
    } else {
        '_'
    }
}

/// `bytes` in URL-safe base64 without padding: each three bytes become four
/// characters of six bits each, and a last one or two bytes become two or
/// three characters.
pub open spec fn base64_url_no_pad(bytes: Seq<u8>) -> Seq<char>
    decreases bytes.len(),
{
    if bytes.len() == 0 {
        Seq::empty()
    } else {
        let b0 = bytes[0] as int;
        let b1 = if bytes.len() > 1 { bytes[1] as int } else { 0 };
        let b2 = if bytes.len() > 2 { bytes[2] as int } else { 0 };
        let first = url_safe_digit(b0 / 4);
        let second = url_safe_digit((b0 % 4) * 16 + b1 / 16);
        let third = url_safe_digit((b1 % 16) * 4 + b2 / 64);
        let fourth = url_safe_digit(b2 % 64);
        if bytes.len() == 1 {
            seq![first, second]
        } else if bytes.len() == 2 {
            seq![first, second, third]
        } else {
            seq![first, second, third, fourth] + base64_url_no_pad(bytes.subrange(3, bytes.len() as int))
        }
    }
}

/// Encodes with `base64::prelude::BASE64_URL_SAFE_NO_PAD.encode`, which
/// writes the URL-safe alphabet (`-` and `_` for the last two digits) and no
/// padding.
#[verifier::external_body]
fn encode_url_safe_no_pad(bytes: &[u8]) -> (res: String)
    ensures
        res@ == base64_url_no_pad(bytes@),
{
    BASE64_URL_SAFE_NO_PAD.encode(bytes)
}

/// A subscription fixture of `user_id` under the identifier `id`, with plain
/// placeholder values for the endpoint and the keys.
pub fn web_push_subscription_at(user_id: i64, id: u128) -> (res: WebPushSubscription)
    ensures
        res.id == id,
        res.user_id == user_id,
        res.device_name@ == "My device"@,
        res.endpoint@ == "endpoint"@,
        res.expiration_epoch_time is None,
        res.p256dh_key@ == "p256dh_key"@,
        res.auth_key@ == "auth_key"@,
{
    WebPushSubscription {
        id,
        user_id,
        device_name: String::from_str("My device"),
        endpoint: String::from_str("endpoint"),
        expiration_epoch_time: None,
        p256dh_key: String::from_str("p256dh_key"),
        auth_key: String::from_str("auth_key"),
    }
}

/// A subscription fixture of `user_id` under a fresh identifier.
pub fn web_push_subscription(user_id: i64) -> (res: WebPushSubscription)
    ensures
        res.user_id == user_id,
        res.device_name@ == "My device"@,
        res.endpoint@ == "endpoint"@,
        res.expiration_epoch_time is None,
        res.p256dh_key@ == "p256dh_key"@,
        res.auth_key@ == "auth_key"@,
{
    web_push_subscription_at(user_id, new_uuid_v7())
}

/// The subscription with the endpoint replaced.
pub fn set_raw_endpoint(subscription: WebPushSubscription, raw_endpoint: &str) -> (res: WebPushSubscription)
    ensures
        res == (WebPushSubscription { endpoint: res.endpoint, ..subscription }),
        res.endpoint@ == raw_endpoint@,
{
    WebPushSubscription { endpoint: String::from_str(raw_endpoint), ..subscription }
}

/// The subscription with the public key replaced by the raw key's URL-safe
/// base64 text.
pub fn set_raw_p256dh_key(subscription: WebPushSubscription, raw_p256dh_key: Vec<u8>) -> (res:
    WebPushSubscription)
    ensures
        res == (WebPushSubscription { p256dh_key: res.p256dh_key, ..subscription }),
        res.p256dh_key@ == base64_url_no_pad(raw_p256dh_key@),
{
    WebPushSubscription { p256dh_key: encode_url_safe_no_pad(raw_p256dh_key.as_slice()), ..subscription }
}

/// The subscription with the authentication secret replaced by the raw
/// secret's URL-safe base64 text.
pub fn set_raw_auth_key(subscription: WebPushSubscription, raw_auth_key: [u8; 16]) -> (res: WebPushSubscription)
    ensures
        res == (WebPushSubscription { auth_key: res.auth_key, ..subscription }),
        res.auth_key@ == base64_url_no_pad(raw_auth_key@),
{
    let key = encode_url_safe_no_pad(raw_auth_key.as_slice());
    WebPushSubscription { auth_key: key, ..subscription }
}

} // verus!
