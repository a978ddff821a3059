//! Creates the table of web push subscriptions: at most one per user.

use super::{
    apply_ops, column, column_names, column_spec, columns_view, foreign_key, foreign_key_spec,
    foreign_keys_view, lemma_drop_created_index, lemma_drop_created_table, ops_view, ColumnDef,
    ColumnDefView, ColumnType, ForeignKeyDef, ForeignKeyView, SchemaModel, SchemaOp, SchemaOpView,
};
use vstd::prelude::*;

verus! {

pub const WEB_PUSH_SUBSCRIPTION_INDEX_NAME: &'static str = "web_push_subscription_user_id_index";

pub const FOREIGN_KEY_NAME: &'static str = "fk-web_push_subscription-user_id";

/// The columns of the web push subscriptions table.
#[derive(Clone, Copy, Debug, PartialEq, Eq, Structural)]
pub enum WebPushSubscription {
    Table,
    Id,
    UserId,
    DeviceName,
    Endpoint,
    ExpirationEpochTime,
    P256dhKey,
    AuthKey,
}

impl WebPushSubscription {
    pub open spec fn iden_text(self) -> Seq<char> {
        match self {
            WebPushSubscription::Table => "web_push_subscription"@,
            WebPushSubscription::Id => "id"@,
            WebPushSubscription::UserId => "user_id"@,
            WebPushSubscription::DeviceName => "device_name"@,
            WebPushSubscription::Endpoint => "endpoint"@,
            WebPushSubscription::ExpirationEpochTime => "expiration_epoch_time"@,
            WebPushSubscription::P256dhKey => "p256dh_key"@,
            WebPushSubscription::AuthKey => "auth_key"@,
        }
    }

    /// The table's or the column's name in the database.
    pub fn iden(&self) -> (res: &'static str)
        ensures
            res@ == self.iden_text(),
    {
        match self {
            WebPushSubscription::Table => "web_push_subscription",
            WebPushSubscription::Id => "id",
            WebPushSubscription::UserId => "user_id",
            WebPushSubscription::DeviceName => "device_name",
            WebPushSubscription::Endpoint => "endpoint",
            WebPushSubscription::ExpirationEpochTime => "expiration_epoch_time",
            WebPushSubscription::P256dhKey => "p256dh_key",
            WebPushSubscription::AuthKey => "auth_key",
        }
    }
}

/// The users table, as far as subscriptions refer to it.
#[derive(Clone, Copy, Debug, PartialEq, Eq, Structural)]
pub enum UsersUser {
    Table,
    Id,
}

impl UsersUser {
    pub open spec fn iden_text(self) -> Seq<char> {
        match self {
            UsersUser::Table => "users_user"@,
            UsersUser::Id => "id"@,
        }
    }

    /// The table's or the column's name in the database.
    pub fn iden(&self) -> (res: &'static str)
        ensures
            res@ == self.iden_text(),
    {
        match self {
            UsersUser::Table => "users_user",
            UsersUser::Id => "id",
        }
    }
}

/// Creates the web push subscriptions table.
#[derive(Clone, Copy, Debug)]
pub struct Migration;

pub open spec fn subscription_columns() -> Seq<ColumnDefView> {
    seq![
        ColumnDefView {
            primary_key: true,
            ..column_spec(WebPushSubscription::Id.iden_text(), ColumnType::Uuid)
        },
        ColumnDefView {
            unique: true,
            ..column_spec(WebPushSubscription::UserId.iden_text(), ColumnType::BigInteger)
        },
        column_spec(WebPushSubscription::DeviceName.iden_text(), ColumnType::StringLen(64)),
        column_spec(WebPushSubscription::Endpoint.iden_text(), ColumnType::String),
        ColumnDefView {
            nullable: true,
            ..column_spec(WebPushSubscription::ExpirationEpochTime.iden_text(), ColumnType::BigInteger)
        },
        column_spec(WebPushSubscription::P256dhKey.iden_text(), ColumnType::String),
        column_spec(WebPushSubscription::AuthKey.iden_text(), ColumnType::String),
    ]
}

pub open spec fn subscription_foreign_keys() -> Seq<ForeignKeyView> {
    seq![
        ForeignKeyView {
            on_delete_restrict: true,
            ..foreign_key_spec(
                FOREIGN_KEY_NAME@,
                WebPushSubscription::UserId.iden_text(),
                UsersUser::Table.iden_text(),
                UsersUser::Id.iden_text(),
            )
        },
    ]
}

impl Migration {
    /// The migration's name, which the migration table records.
    pub fn name(&self) -> (res: &'static str)
        ensures
            res@ == "m20260301_000001_create_web_push_subscriptions_table"@,
    {
        "m20260301_000001_create_web_push_subscriptions_table"
    }

    pub open spec fn up_plan() -> Seq<SchemaOpView> {
        let t = WebPushSubscription::Table.iden_text();
        seq![
            SchemaOpView::CreateTable {
                table: t,
                if_not_exists: true,
                columns: subscription_columns(),
                foreign_keys: subscription_foreign_keys(),
            },
            SchemaOpView::CreateIndex {
                name: WEB_PUSH_SUBSCRIPTION_INDEX_NAME@,
                table: t,
                column: WebPushSubscription::UserId.iden_text(),
                if_not_exists: false,
            },
        ]
    }

    /// The schema after the `up` plan, on a schema without the table and its index.
    pub open spec fn applied(s: SchemaModel) -> SchemaModel {
        let t = WebPushSubscription::Table.iden_text();
        SchemaModel {
            tables: s.tables.insert(t, column_names(subscription_columns())),
            indexes: s.indexes.insert(WEB_PUSH_SUBSCRIPTION_INDEX_NAME@, t),
        }
    }

    pub open spec fn down_plan() -> Seq<SchemaOpView> {
        seq![
            SchemaOpView::DropIndex { name: WEB_PUSH_SUBSCRIPTION_INDEX_NAME@, if_exists: false },
            SchemaOpView::DropTable { table: WebPushSubscription::Table.iden_text(), if_exists: false },
        ]
    }

    /// Creates the table, then an index on the user.
    pub fn up(&self) -> (res: Vec<SchemaOp>)
        ensures
            ops_view(res@) == Self::up_plan(),
    {
        let columns: Vec<ColumnDef> = vec![
            column(WebPushSubscription::Id.iden(), ColumnType::Uuid).primary_key(),
            column(WebPushSubscription::UserId.iden(), ColumnType::BigInteger).uniq(),
            column(WebPushSubscription::DeviceName.iden(), ColumnType::StringLen(64)),
            column(WebPushSubscription::Endpoint.iden(), ColumnType::String),
            column(WebPushSubscription::ExpirationEpochTime.iden(), ColumnType::BigInteger).null(),
            column(WebPushSubscription::P256dhKey.iden(), ColumnType::String),
            column(WebPushSubscription::AuthKey.iden(), ColumnType::String),
        ];
        assert(columns_view(columns@) =~= subscription_columns());
        let foreign_keys: Vec<ForeignKeyDef> = vec![
            foreign_key(
                FOREIGN_KEY_NAME,
                WebPushSubscription::UserId.iden(),
                UsersUser::Table.iden(),
                UsersUser::Id.iden(),
            ).on_delete_restrict(),
        ];
        assert(foreign_keys_view(foreign_keys@) =~= subscription_foreign_keys());
        let t = WebPushSubscription::Table.iden();
        let res = vec![
            SchemaOp::CreateTable { table: t, if_not_exists: true, columns, foreign_keys },
            SchemaOp::CreateIndex {
                name: WEB_PUSH_SUBSCRIPTION_INDEX_NAME,
                table: t,
                column: WebPushSubscription::UserId.iden(),
                if_not_exists: false,
            },
        ];
        assert(ops_view(res@) =~= Self::up_plan());
        res
    }

    /// Drops the index, then the table.
    pub fn down(&self) -> (res: Vec<SchemaOp>)
        ensures
            ops_view(res@) == Self::down_plan(),
    {
        let res = vec![
            SchemaOp::DropIndex { name: WEB_PUSH_SUBSCRIPTION_INDEX_NAME, if_exists: false },
            SchemaOp::DropTable { table: WebPushSubscription::Table.iden(), if_exists: false },
        ];
        assert(ops_view(res@) =~= Self::down_plan());
        res
    }
}

/// Undoing the migration restores the schema: on a schema without the
/// subscriptions table and its index, running the `up` plan and then the
/// `down` plan succeeds and leaves the schema as it was.
pub proof fn law_down_undoes_up(s: SchemaModel)
    requires
        s.well_formed(),
        !s.tables.contains_key(WebPushSubscription::Table.iden_text()),
        !s.indexes.contains_key(WEB_PUSH_SUBSCRIPTION_INDEX_NAME@),
    ensures
        apply_ops(s, Migration::up_plan()) matches Some(after) && after.well_formed() && apply_ops(
            after,
            Migration::down_plan(),
        ) == Some(s),
        apply_ops(s, Migration::up_plan()) == Some(Migration::applied(s)),
{
    reveal_with_fuel(apply_ops, 3);
    let t = WebPushSubscription::Table.iden_text();
    let s1 = SchemaModel { tables: s.tables.insert(t, column_names(subscription_columns())), ..s };
    let s2 = SchemaModel { indexes: s1.indexes.insert(WEB_PUSH_SUBSCRIPTION_INDEX_NAME@, t), ..s1 };
    let up = Migration::up_plan();
    assert(up.drop_first() =~= seq![up[1]]);
    assert(up.drop_first().drop_first() =~= Seq::<SchemaOpView>::empty());
    assert(apply_ops(s, up) == Some(s2));
    let down = Migration::down_plan();
    assert(down.drop_first() =~= seq![down[1]]);
    assert(down.drop_first().drop_first() =~= Seq::<SchemaOpView>::empty());
    lemma_drop_created_index(s1, WEB_PUSH_SUBSCRIPTION_INDEX_NAME@, t, false);
    lemma_drop_created_table(s, t, column_names(subscription_columns()), false);
    assert(s2.well_formed());
}

} // verus!
