//! Creates the users table, with an index for pattern searches on e-mail.

use super::{
    lemma_plan_again, only_adds,
    apply_op, apply_ops, column, column_names, column_spec, lemma_drop_created_index, lemma_drop_created_table, columns_view, foreign_keys_view, ops_view, ColumnDef,
    ColumnType, SchemaModel, SchemaOp, SchemaOpView,
};
use vstd::prelude::*;

verus! {

pub const INDEX_NAME: &'static str = "users_user_email_243f6e77_like";

/// The columns of the users table.
#[derive(Clone, Copy, Debug, PartialEq, Eq, Structural)]
pub enum UsersUser {
    Table,
    Id,
    Password,
    LastLogin,
    Username,
    Email,
}

impl UsersUser {
    pub open spec fn iden_text(self) -> Seq<char> {
        match self {
            UsersUser::Table => "users_user"@,
            UsersUser::Id => "id"@,
            UsersUser::Password => "password"@,
            UsersUser::LastLogin => "last_login"@,
            UsersUser::Username => "username"@,
            UsersUser::Email => "email"@,
        }
    }

    /// The table's or the column's name in the database.
    pub fn iden(&self) -> (res: &'static str)
        ensures
            res@ == self.iden_text(),
    {
        match self {
            UsersUser::Table => "users_user",
            UsersUser::Id => "id",
            UsersUser::Password => "password",
            UsersUser::LastLogin => "last_login",
            UsersUser::Username => "username",
            UsersUser::Email => "email",
        }
    }
}

/// Creates the users table.
#[derive(Clone, Copy, Debug)]
pub struct Migration;

pub open spec fn index_sql() -> Seq<char> {
    "CREATE INDEX IF NOT EXISTS "@ + INDEX_NAME@
        + " ON public.users_user USING btree (email varchar_pattern_ops)"@
}

pub open spec fn user_columns() -> Seq<super::ColumnDefView> {
    seq![
        super::ColumnDefView {
            auto_increment: true,
            primary_key: true,
            ..column_spec(UsersUser::Id.iden_text(), ColumnType::BigInteger)
        },
        column_spec(UsersUser::Password.iden_text(), ColumnType::StringLen(128)),
        super::ColumnDefView {
            nullable: true,
            ..column_spec(UsersUser::LastLogin.iden_text(), ColumnType::TimestampWithTimeZone)
        },
        column_spec(UsersUser::Username.iden_text(), ColumnType::StringLen(150)),
        super::ColumnDefView {
            unique: true,
            ..column_spec(UsersUser::Email.iden_text(), ColumnType::StringLen(254))
        },
    ]
}

impl Migration {
    /// The migration's name, which the migration table records.
    pub fn name(&self) -> (res: &'static str)
        ensures
            res@ == "m20250507_000001_create_users_table"@,
    {
        "m20250507_000001_create_users_table"
    }

    pub open spec fn up_plan() -> Seq<SchemaOpView> {
        seq![
            SchemaOpView::CreateTable {
                table: UsersUser::Table.iden_text(),
                if_not_exists: true,
                columns: user_columns(),
                foreign_keys: Seq::empty(),
            },
            SchemaOpView::CreateIndexSql {
                name: INDEX_NAME@,
                table: UsersUser::Table.iden_text(),
                sql: index_sql(),
            },
        ]
    }

    /// The schema after the `up` plan, on a schema without the table and its index.
    pub open spec fn applied(s: SchemaModel) -> SchemaModel {
        let t = UsersUser::Table.iden_text();
        SchemaModel {
            tables: s.tables.insert(t, column_names(user_columns())),
            indexes: s.indexes.insert(INDEX_NAME@, t),
        }
    }

    pub open spec fn down_plan() -> Seq<SchemaOpView> {
        seq![
            SchemaOpView::DropIndex { name: INDEX_NAME@, if_exists: true },
            SchemaOpView::DropTable { table: UsersUser::Table.iden_text(), if_exists: true },
        ]
    }

    /// Creates the table, then the e-mail index.
    pub fn up(&self) -> (res: Vec<SchemaOp>)
        ensures
            ops_view(res@) == Self::up_plan(),
    {
        let columns: Vec<ColumnDef> = vec![
            column(UsersUser::Id.iden(), ColumnType::BigInteger).auto_increment().primary_key(),
            column(UsersUser::Password.iden(), ColumnType::StringLen(128)),
            column(UsersUser::LastLogin.iden(), ColumnType::TimestampWithTimeZone).null(),
            column(UsersUser::Username.iden(), ColumnType::StringLen(150)),
            column(UsersUser::Email.iden(), ColumnType::StringLen(254)).uniq(),
        ];
        assert(columns_view(columns@) =~= user_columns());
        let sql = String::from_str("CREATE INDEX IF NOT EXISTS ").concat(INDEX_NAME).concat(
            " ON public.users_user USING btree (email varchar_pattern_ops)",
        );
        let res = vec![
            SchemaOp::CreateTable {
                table: UsersUser::Table.iden(),
                if_not_exists: true,
                columns,
                foreign_keys: Vec::new(),
            },
            SchemaOp::CreateIndexSql { name: INDEX_NAME, table: UsersUser::Table.iden(), sql },
        ];
        assert(foreign_keys_view(Seq::<super::ForeignKeyDef>::empty()) =~= Seq::empty());
        assert(ops_view(res@) =~= Self::up_plan());
        res
    }

    /// Drops the e-mail index, then the table.
    pub fn down(&self) -> (res: Vec<SchemaOp>)
        ensures
            ops_view(res@) == Self::down_plan(),
    {
        let res = vec![
            SchemaOp::DropIndex { name: INDEX_NAME, if_exists: true },
            SchemaOp::DropTable { table: UsersUser::Table.iden(), if_exists: true },
        ];
        assert(ops_view(res@) =~= Self::down_plan());
        res
    }
}

/// Undoing the migration restores the schema: on a schema without the users
/// table and its index, running the `up` plan and then the `down` plan
/// succeeds and leaves the schema as it was.
pub proof fn law_down_undoes_up(s: SchemaModel)
    requires
        s.well_formed(),
        !s.tables.contains_key(UsersUser::Table.iden_text()),
        !s.indexes.contains_key(INDEX_NAME@),
    ensures
        apply_ops(s, Migration::up_plan()) matches Some(after) && after.well_formed() && apply_ops(
            after,
            Migration::down_plan(),
        ) == Some(s),
        apply_ops(s, Migration::up_plan()) == Some(Migration::applied(s)),
{
    reveal_with_fuel(apply_ops, 3);
    let t = UsersUser::Table.iden_text();
    let s1 = SchemaModel { tables: s.tables.insert(t, column_names(user_columns())), ..s };
    let s2 = SchemaModel { indexes: s1.indexes.insert(INDEX_NAME@, t), ..s1 };
    let up = Migration::up_plan();
    assert(up.drop_first() =~= seq![up[1]]);
    assert(up.drop_first().drop_first() =~= Seq::<SchemaOpView>::empty());
    assert(apply_ops(s, up) == Some(s2));
    let down = Migration::down_plan();
    assert(down.drop_first() =~= seq![down[1]]);
    assert(down.drop_first().drop_first() =~= Seq::<SchemaOpView>::empty());
    lemma_drop_created_index(s1, INDEX_NAME@, t, true);
    lemma_drop_created_table(s, t, column_names(user_columns()), true);
    assert(s2.well_formed());
}

/// Running the migration again changes nothing: on any schema on which the
/// `up` plan went through, a second run goes through too and leaves the
/// schema as the first run left it, since every step creates its table or
/// index, or adds its column, only where it does not exist yet.
pub proof fn law_up_again_changes_nothing(s: SchemaModel)
    requires
        apply_ops(s, Migration::up_plan()) is Some,
    ensures
        apply_ops(apply_ops(s, Migration::up_plan())->0, Migration::up_plan()) == apply_ops(
            s,
            Migration::up_plan(),
        ),
{
    let up = Migration::up_plan();
    assert forall|i: int| 0 <= i < up.len() implies only_adds(#[trigger] up[i]) by {}
    lemma_plan_again(s, up, apply_ops(s, up)->0);
}

} // verus!
