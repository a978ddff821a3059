//! Rows of the service's tables, as plain values. Identifiers of rows keyed by
//! UUID are held as `u128`; timestamps as microseconds since the Unix epoch.

use crate::calendar::Date;
use vstd::prelude::*;

verus! {

/// Microseconds since 1970-01-01T00:00:00Z.
pub type Timestamp = i64;

/// The states a ticket goes through, stored as short text.
#[derive(Clone, Copy, Debug, PartialEq, Eq, Structural)]
pub enum TicketStatus {
    Draft,
    Unread,
    Read,
}

/// The read state of a diary entry or a wish, stored as short text.
#[derive(Clone, Copy, Debug, PartialEq, Eq, Structural)]
pub enum ReadStatus {
    Unread,
    Read,
}

/// The read state of a diary entry for one of its two users.
pub type DiaryStatus = ReadStatus;

/// The read state of a wish.
pub type WishStatus = ReadStatus;

impl TicketStatus {
    pub open spec fn value(self) -> Seq<char> {
        match self {
            TicketStatus::Draft => "draft"@,
            TicketStatus::Unread => "unread"@,
            TicketStatus::Read => "read"@,
        }
    }

    /// The text under which the status is stored.
    pub fn to_value(&self) -> (res: String)
        ensures
            res@ == self.value(),
    {
        match self {
            TicketStatus::Draft => String::from_str("draft"),
            TicketStatus::Unread => String::from_str("unread"),
            TicketStatus::Read => String::from_str("read"),
        }
    }
}

impl ReadStatus {
    pub open spec fn value(self) -> Seq<char> {
        match self {
            ReadStatus::Unread => "unread"@,
            ReadStatus::Read => "read"@,
        }
    }

    /// The text under which the status is stored.
    pub fn to_value(&self) -> (res: String)
        ensures
            res@ == self.value(),
    {
        match self {
            ReadStatus::Unread => String::from_str("unread"),
            ReadStatus::Read => String::from_str("read"),
        }
    }
}

/// A row of `tickets_ticket`.
#[derive(Clone, Debug)]
pub struct Ticket {
    pub id: i64,
    pub description: String,
    pub gift_date: Date,
    pub status: String,
    pub is_special: bool,
    pub created_at: Timestamp,
    pub updated_at: Timestamp,
    pub giving_user_id: i64,
    pub user_relation_id: i64,
}

/// A row of `wish`: what the receiver of a ticket wishes for with it.
#[derive(Clone, Debug)]
pub struct Wish {
    pub id: u128,
    pub description: String,
    pub status: String,
    pub ticket_id: i64,
    pub user_relation_id: i64,
    pub created_at: Timestamp,
    pub updated_at: Timestamp,
}

/// A row of `user_relations_userrelation`: two users who share tickets and a diary.
#[derive(Clone, Debug)]
pub struct UserRelation {
    pub id: i64,
    pub user_1_giving_ticket_img: Option<String>,
    pub user_2_giving_ticket_img: Option<String>,
    pub created_at: Timestamp,
    pub updated_at: Timestamp,
    pub user_1_id: i64,
    pub user_2_id: i64,
    pub use_slack: bool,
    pub first_diary_date: Option<Date>,
    pub first_user_1_giving_ticket_date: Option<Date>,
    pub first_user_2_giving_ticket_date: Option<Date>,
}

/// A row of `diaries_diary`.
#[derive(Clone, Debug)]
pub struct Diary {
    pub id: u128,
    pub entry: String,
    pub date: Date,
    pub created_at: Timestamp,
    pub updated_at: Timestamp,
    pub user_relation_id: i64,
    pub user_1_status: String,
    pub user_2_status: String,
}

/// A row of `diaries_diarytag`.
#[derive(Clone, Debug)]
pub struct DiaryTagRecord {
    pub id: u128,
    pub text: String,
    pub sort_no: i32,
    pub created_at: Timestamp,
    pub updated_at: Timestamp,
    pub user_relation_id: i64,
}

/// A row of `diaries_diarytagrelation`: a tag attached to a diary entry.
#[derive(Clone, Debug)]
pub struct DiaryTagLink {
    pub id: u128,
    pub created_at: Timestamp,
    pub updated_at: Timestamp,
    pub diary_id: u128,
    pub tag_master_id: u128,
}

/// A row of `web_push_subscription`.
#[derive(Clone, Debug)]
pub struct WebPushSubscription {
    pub id: u128,
    pub user_id: i64,
    pub device_name: String,
    pub endpoint: String,
    pub expiration_epoch_time: Option<i64>,
    pub p256dh_key: String,
    pub auth_key: String,
}

impl UserRelation {
    /// `user_id` is one of the two users of the relation.
    pub open spec fn has_member(self, user_id: i64) -> bool {
        self.user_1_id == user_id || self.user_2_id == user_id
    }
}

} // verus!
