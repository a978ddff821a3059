//! Web push subscriptions and the outcome of a push: the subscription row a
//! user's registration writes, the statement that keeps one subscription per
//! user, the lookup of a user's subscription, and how the messenger's answer
//! becomes the result the callers act on.

use crate::clock::new_uuid_v7;
use crate::records::WebPushSubscription;
use vstd::prelude::*;

verus! {

/// What came of sending a push message.
#[derive(Clone, Copy, Debug, PartialEq, Eq, Structural)]
pub enum SendWebPushResult {
    Sent,
    NotSent,
    /// The push service no longer knows the subscription; it should be removed.
    Invalid,
}

/// The push service's answer to a message it received.
#[derive(Clone, Copy, Debug, PartialEq, Eq, Structural)]
pub enum WebPushMessengerResult {
    OK,
    InvalidSubscription,
}

/// How an attempt to send went: no messenger could be made for the
/// subscription, the request failed, or the push service answered.
#[derive(Clone, Copy, Debug, PartialEq, Eq, Structural)]
pub enum WebPushDelivery {
    MessengerUnavailable,
    RequestFailed,
    Answered(WebPushMessengerResult),
}

pub open spec fn send_result_spec(delivery: WebPushDelivery) -> SendWebPushResult {
    match delivery {
        WebPushDelivery::MessengerUnavailable => SendWebPushResult::NotSent,
        WebPushDelivery::RequestFailed => SendWebPushResult::NotSent,
        WebPushDelivery::Answered(WebPushMessengerResult::OK) => SendWebPushResult::Sent,
        WebPushDelivery::Answered(WebPushMessengerResult::InvalidSubscription) => SendWebPushResult::Invalid,
    }
}

/// The result of a push: sent when the push service accepted it, invalid when
/// it refused the subscription, not sent otherwise.
pub fn send_web_push_result(delivery: WebPushDelivery) -> (res: SendWebPushResult)
    ensures
        res == send_result_spec(delivery),
{
    match delivery {
        WebPushDelivery::MessengerUnavailable => SendWebPushResult::NotSent,
        WebPushDelivery::RequestFailed => SendWebPushResult::NotSent,
        WebPushDelivery::Answered(answer) => match answer {
            WebPushMessengerResult::OK => SendWebPushResult::Sent,
            WebPushMessengerResult::InvalidSubscription => SendWebPushResult::Invalid,
        },
    }
}

/// A browser's push subscription, as a user registers it.
#[derive(Clone, Debug)]
pub struct CreateWebPushSubscriptionParams {
    pub user_id: i64,
    pub device_name: String,
    pub endpoint: String,
    pub expiration_epoch_time: Option<i64>,
    pub p256dh_key: String,
    pub auth_key: String,
}

/// The columns of `web_push_subscription` that a new registration overwrites.
#[derive(Clone, Copy, Debug, PartialEq, Eq, Structural)]
pub enum SubscriptionColumn {
    UserId,
    DeviceName,
    Endpoint,
    ExpirationEpochTime,
    P256dhKey,
    AuthKey,
}

/// An insert that, where the user already has a subscription, overwrites
/// `update_columns` of that row instead.
#[derive(Clone, Debug)]
pub struct SubscriptionUpsert {
    pub row: WebPushSubscription,
    pub conflict_column: SubscriptionColumn,
    pub update_columns: Vec<SubscriptionColumn>,
}

pub open spec fn row_holds_params(row: WebPushSubscription, params: CreateWebPushSubscriptionParams) -> bool {
    &&& row.user_id == params.user_id
    &&& row.device_name == params.device_name
    &&& row.endpoint == params.endpoint
    &&& row.expiration_epoch_time == params.expiration_epoch_time
    &&& row.p256dh_key == params.p256dh_key
    &&& row.auth_key == params.auth_key
}

pub open spec fn overwritten_columns() -> Seq<SubscriptionColumn> {
    seq![
        SubscriptionColumn::DeviceName,
        SubscriptionColumn::Endpoint,
        SubscriptionColumn::ExpirationEpochTime,
        SubscriptionColumn::P256dhKey,
        SubscriptionColumn::AuthKey,
    ]
}

/// Registering web push subscriptions.
pub struct WebPushSubscriptionMutation;

impl WebPushSubscriptionMutation {
    /// The subscription row for `params` under the identifier `id`.
    pub fn subscription(params: CreateWebPushSubscriptionParams, id: u128) -> (res: WebPushSubscription)
        ensures
            res.id == id,
            row_holds_params(res, params),
    {
        WebPushSubscription {
            id,
            user_id: params.user_id,
            device_name: params.device_name,
            endpoint: params.endpoint,
            expiration_epoch_time: params.expiration_epoch_time,
            p256dh_key: params.p256dh_key,
            auth_key: params.auth_key,
        }
    }

    /// The statement that registers `params` under the identifier `id`: one
    /// subscription per user, the latest registration's values win.
    pub fn upsert_at(params: CreateWebPushSubscriptionParams, id: u128) -> (res: SubscriptionUpsert)
        ensures
            res.row.id == id,
            row_holds_params(res.row, params),
            res.conflict_column == SubscriptionColumn::UserId,
            res.update_columns@ == overwritten_columns(),
    {
        let row = Self::subscription(params, id);
        let update_columns = vec![
            SubscriptionColumn::DeviceName,
            SubscriptionColumn::Endpoint,
            SubscriptionColumn::ExpirationEpochTime,
            SubscriptionColumn::P256dhKey,
            SubscriptionColumn::AuthKey,
        ];
        assert(update_columns@ =~= overwritten_columns());
        SubscriptionUpsert { row, conflict_column: SubscriptionColumn::UserId, update_columns }
    }

    /// The statement that registers `params` under a fresh identifier.
    pub fn upsert(params: CreateWebPushSubscriptionParams) -> (res: SubscriptionUpsert)
        ensures
            row_holds_params(res.row, params),
            res.conflict_column == SubscriptionColumn::UserId,
            res.update_columns@ == overwritten_columns(),
    {
        let id = new_uuid_v7();
        Self::upsert_at(params, id)
    }
}

/// A lookup of the subscription of one user.
#[derive(Clone, Copy, Debug)]
pub struct SubscriptionSelection {
    pub user_id: i64,
}

impl SubscriptionSelection {
    pub open spec fn admits(self, row: WebPushSubscription) -> bool {
        row.user_id == self.user_id
    }
}

/// The lookups of web push subscriptions.
pub struct WebPushSubscriptionQuery;

impl WebPushSubscriptionQuery {
    /// The subscription of `user_id`.
    pub fn get_by_user_id(user_id: i64) -> (res: SubscriptionSelection)
        ensures
            forall|row: WebPushSubscription| #[trigger] res.admits(row) <==> row.user_id == user_id,
    {
        SubscriptionSelection { user_id }
    }
}

// ---------------------------------------------------------------------------
// What the upsert statement does to the table.

/// The existing row with the listed columns taken from `row`; its id stays.
pub open spec fn overwritten(
    existing: WebPushSubscription,
    row: WebPushSubscription,
    columns: Seq<SubscriptionColumn>,
) -> WebPushSubscription {
    WebPushSubscription {
        id: existing.id,
        user_id: if columns.contains(SubscriptionColumn::UserId) { row.user_id } else { existing.user_id },
        device_name: if columns.contains(SubscriptionColumn::DeviceName) {
            row.device_name
        } else {
            existing.device_name
        },
        endpoint: if columns.contains(SubscriptionColumn::Endpoint) { row.endpoint } else { existing.endpoint },
        expiration_epoch_time: if columns.contains(SubscriptionColumn::ExpirationEpochTime) {
            row.expiration_epoch_time
        } else {
            existing.expiration_epoch_time
        },
        p256dh_key: if columns.contains(SubscriptionColumn::P256dhKey) {
            row.p256dh_key
        } else {
            existing.p256dh_key
        },
        auth_key: if columns.contains(SubscriptionColumn::AuthKey) { row.auth_key } else { existing.auth_key },
    }
}

/// No two subscriptions belong to the same user.
pub open spec fn user_ids_unique(table: Seq<WebPushSubscription>) -> bool {
    forall|i: int, j: int|
        0 <= i < table.len() && 0 <= j < table.len() && #[trigger] table[i].user_id == #[trigger] table[j].user_id
            ==> i == j
}

/// The table after an upsert statement that conflicts on the user, with the
/// row it answers: the user's row with the update columns overwritten, or
/// else the new row appended.
pub open spec fn upsert_effect(table: Seq<WebPushSubscription>, stmt: SubscriptionUpsert) -> (
    Seq<WebPushSubscription>,
    WebPushSubscription,
) {
    if exists|i: int| 0 <= i < table.len() && #[trigger] table[i].user_id == stmt.row.user_id {
        let i = choose|i: int| 0 <= i < table.len() && #[trigger] table[i].user_id == stmt.row.user_id;
        let r = overwritten(table[i], stmt.row, stmt.update_columns@);
        (table.update(i, r), r)
    } else {
        (table.push(stmt.row), stmt.row)
    }
}

/// Registering the same subscription twice changes nothing the second time:
/// on a table with one subscription per user, the second upsert (under any
/// fresh id) leaves the table as the first left it and answers the same row,
/// which keeps the id it was stored under.
pub proof fn law_repeated_upsert_changes_nothing(
    table: Seq<WebPushSubscription>,
    params: CreateWebPushSubscriptionParams,
    first: SubscriptionUpsert,
    second: SubscriptionUpsert,
)
    requires
        user_ids_unique(table),
        row_holds_params(first.row, params),
        row_holds_params(second.row, params),
        first.conflict_column == SubscriptionColumn::UserId,
        second.conflict_column == SubscriptionColumn::UserId,
        first.update_columns@ == overwritten_columns(),
        second.update_columns@ == overwritten_columns(),
    ensures
        ({
            let (after_first, answer_first) = upsert_effect(table, first);
            let (after_second, answer_second) = upsert_effect(after_first, second);
            &&& user_ids_unique(after_first)
            &&& after_second == after_first
            &&& answer_second == answer_first
            &&& row_holds_params(answer_first, params)
        }),
{
    let cols = overwritten_columns();
    assert(cols[0] == SubscriptionColumn::DeviceName);
    assert(cols[1] == SubscriptionColumn::Endpoint);
    assert(cols[2] == SubscriptionColumn::ExpirationEpochTime);
    assert(cols[3] == SubscriptionColumn::P256dhKey);
    assert(cols[4] == SubscriptionColumn::AuthKey);
    assert(!cols.contains(SubscriptionColumn::UserId));
    let (t1, a1) = upsert_effect(table, first);
    // The user's row in the table after the first upsert.
    let k: int = if exists|i: int| 0 <= i < table.len() && #[trigger] table[i].user_id == first.row.user_id {
        choose|i: int| 0 <= i < table.len() && #[trigger] table[i].user_id == first.row.user_id
    } else {
        table.len() as int
    };
    assert(0 <= k < t1.len() && t1[k] == a1 && a1.user_id == params.user_id);
    assert(row_holds_params(a1, params));
    assert(user_ids_unique(t1)) by {
        assert forall|i: int, j: int|
            0 <= i < t1.len() && 0 <= j < t1.len() && #[trigger] t1[i].user_id == #[trigger] t1[j].user_id
                implies i == j by {
            if i != k && j != k {
                assert(t1[i] == table[i] && t1[j] == table[j]);
            } else if i == k && j != k {
                assert(t1[j] == table[j]);
            } else if j == k && i != k {
                assert(t1[i] == table[i]);
            }
        }
    }
    assert(t1[k].user_id == second.row.user_id);
    let k2 = choose|i: int| 0 <= i < t1.len() && #[trigger] t1[i].user_id == second.row.user_id;
    assert(k2 == k);
    let r2 = overwritten(t1[k], second.row, second.update_columns@);
    assert(r2 == a1);
    assert(t1.update(k, r2) =~= t1);
}

} // verus!
