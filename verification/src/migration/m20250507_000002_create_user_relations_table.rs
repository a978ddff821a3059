//! Creates the table of user relations: pairs of users who share tickets and
//! a diary.

use super::{
    lemma_plan_again, only_adds,
    apply_op, apply_ops, column, column_names, column_spec, columns_view, foreign_key, foreign_key_spec,
    foreign_keys_view, lemma_drop_created_index, lemma_drop_created_table, ops_view, ColumnDef,
    ColumnDefView, ColumnType, ForeignKeyDef, ForeignKeyView, SchemaModel, SchemaOp, SchemaOpView,
};
use vstd::prelude::*;

verus! {

pub const INDEX_1_NAME: &'static str = "user_relations_userrelation2_user_1_id_b0a40a01";

pub const INDEX_2_NAME: &'static str = "user_relations_userrelation2_user_2_id_7aacb430";

/// The columns of the user relations table.
#[derive(Clone, Copy, Debug, PartialEq, Eq, Structural)]
pub enum UserRelationsUserrelation {
    Table,
    Id,
    User1GivingTicketImg,
    User2GivingTicketImg,
    CreatedAt,
    UpdatedAt,
    User1Id,
    User2Id,
    UseSlack,
}

impl UserRelationsUserrelation {
    pub open spec fn iden_text(self) -> Seq<char> {
        match self {
            UserRelationsUserrelation::Table => "user_relations_userrelation"@,
            UserRelationsUserrelation::Id => "id"@,
            UserRelationsUserrelation::User1GivingTicketImg => "user_1_giving_ticket_img"@,
            UserRelationsUserrelation::User2GivingTicketImg => "user_2_giving_ticket_img"@,
            UserRelationsUserrelation::CreatedAt => "created_at"@,
            UserRelationsUserrelation::UpdatedAt => "updated_at"@,
            UserRelationsUserrelation::User1Id => "user_1_id"@,
            UserRelationsUserrelation::User2Id => "user_2_id"@,
            UserRelationsUserrelation::UseSlack => "use_slack"@,
        }
    }

    /// The table's or the column's name in the database.
    pub fn iden(&self) -> (res: &'static str)
        ensures
            res@ == self.iden_text(),
    {
        match self {
            UserRelationsUserrelation::Table => "user_relations_userrelation",
            UserRelationsUserrelation::Id => "id",
            UserRelationsUserrelation::User1GivingTicketImg => "user_1_giving_ticket_img",
            UserRelationsUserrelation::User2GivingTicketImg => "user_2_giving_ticket_img",
            UserRelationsUserrelation::CreatedAt => "created_at",
            UserRelationsUserrelation::UpdatedAt => "updated_at",
            UserRelationsUserrelation::User1Id => "user_1_id",
            UserRelationsUserrelation::User2Id => "user_2_id",
            UserRelationsUserrelation::UseSlack => "use_slack",
        }
    }
}

/// The users table, as far as the relations refer to it.
#[derive(Clone, Copy, Debug, PartialEq, Eq, Structural)]
pub enum UsersUser {
    Table,
    Id,
}

impl UsersUser {
    pub open spec fn iden_text(self) -> Seq<char> {
        match self {
            UsersUser::Table => "users_user"@,
            UsersUser::Id => "id"@,
        }
    }

    /// The table's or the column's name in the database.
    pub fn iden(&self) -> (res: &'static str)
        ensures
            res@ == self.iden_text(),
    {
        match self {
            UsersUser::Table => "users_user",
            UsersUser::Id => "id",
        }
    }
}

/// Creates the user relations table.
#[derive(Clone, Copy, Debug)]
pub struct Migration;

pub open spec fn relation_columns() -> Seq<ColumnDefView> {
    seq![
        ColumnDefView {
            auto_increment: true,
            primary_key: true,
            ..column_spec(UserRelationsUserrelation::Id.iden_text(), ColumnType::BigInteger)
        },
        ColumnDefView {
            nullable: true,
            ..column_spec(
                UserRelationsUserrelation::User1GivingTicketImg.iden_text(),
                ColumnType::StringLen(13),
            )
        },
        ColumnDefView {
            nullable: true,
            ..column_spec(
                UserRelationsUserrelation::User2GivingTicketImg.iden_text(),
                ColumnType::StringLen(13),
            )
        },
        column_spec(UserRelationsUserrelation::CreatedAt.iden_text(), ColumnType::TimestampWithTimeZone),
        column_spec(UserRelationsUserrelation::UpdatedAt.iden_text(), ColumnType::TimestampWithTimeZone),
        column_spec(UserRelationsUserrelation::User1Id.iden_text(), ColumnType::BigInteger),
        column_spec(UserRelationsUserrelation::User2Id.iden_text(), ColumnType::BigInteger),
        column_spec(UserRelationsUserrelation::UseSlack.iden_text(), ColumnType::Boolean),
    ]
}

pub open spec fn relation_foreign_keys() -> Seq<ForeignKeyView> {
    seq![
        foreign_key_spec(
            INDEX_1_NAME@,
            UserRelationsUserrelation::User1Id.iden_text(),
            UsersUser::Table.iden_text(),
            UsersUser::Id.iden_text(),
        ),
        foreign_key_spec(
            INDEX_2_NAME@,
            UserRelationsUserrelation::User2Id.iden_text(),
            UsersUser::Table.iden_text(),
            UsersUser::Id.iden_text(),
        ),
    ]
}

impl Migration {
    /// The migration's name, which the migration table records.
    pub fn name(&self) -> (res: &'static str)
        ensures
            res@ == "m20250507_000002_create_user_relations_table"@,
    {
        "m20250507_000002_create_user_relations_table"
    }

    pub open spec fn up_plan() -> Seq<SchemaOpView> {
        let t = UserRelationsUserrelation::Table.iden_text();
        seq![
            SchemaOpView::CreateTable {
                table: t,
                if_not_exists: true,
                columns: relation_columns(),
                foreign_keys: relation_foreign_keys(),
            },
            SchemaOpView::CreateIndex {
                name: INDEX_1_NAME@,
                table: t,
                column: UserRelationsUserrelation::User1Id.iden_text(),
                if_not_exists: true,
            },
            SchemaOpView::CreateIndex {
                name: INDEX_2_NAME@,
                table: t,
                column: UserRelationsUserrelation::User2Id.iden_text(),
                if_not_exists: true,
            },
        ]
    }

    /// The schema after the `up` plan, on a schema without the table and its indexes.
    pub open spec fn applied(s: SchemaModel) -> SchemaModel {
        let t = UserRelationsUserrelation::Table.iden_text();
        SchemaModel {
            tables: s.tables.insert(t, column_names(relation_columns())),
            indexes: s.indexes.insert(INDEX_1_NAME@, t).insert(INDEX_2_NAME@, t),
        }
    }

    pub open spec fn down_plan() -> Seq<SchemaOpView> {
        seq![
            SchemaOpView::DropIndex { name: INDEX_2_NAME@, if_exists: true },
            SchemaOpView::DropIndex { name: INDEX_1_NAME@, if_exists: true },
            SchemaOpView::DropTable {
                table: UserRelationsUserrelation::Table.iden_text(),
                if_exists: true,
            },
        ]
    }

    /// Creates the table, then an index on each of its two user columns.
    pub fn up(&self) -> (res: Vec<SchemaOp>)
        ensures
            ops_view(res@) == Self::up_plan(),
    {
        let columns: Vec<ColumnDef> = vec![
            column(UserRelationsUserrelation::Id.iden(), ColumnType::BigInteger).auto_increment().primary_key(),
            column(UserRelationsUserrelation::User1GivingTicketImg.iden(), ColumnType::StringLen(13)).null(),
            column(UserRelationsUserrelation::User2GivingTicketImg.iden(), ColumnType::StringLen(13)).null(),
            column(UserRelationsUserrelation::CreatedAt.iden(), ColumnType::TimestampWithTimeZone),
            column(UserRelationsUserrelation::UpdatedAt.iden(), ColumnType::TimestampWithTimeZone),
            column(UserRelationsUserrelation::User1Id.iden(), ColumnType::BigInteger),
            column(UserRelationsUserrelation::User2Id.iden(), ColumnType::BigInteger),
            column(UserRelationsUserrelation::UseSlack.iden(), ColumnType::Boolean),
        ];
        assert(columns_view(columns@) =~= relation_columns());
        let foreign_keys: Vec<ForeignKeyDef> = vec![
            foreign_key(
                INDEX_1_NAME,
                UserRelationsUserrelation::User1Id.iden(),
                UsersUser::Table.iden(),
                UsersUser::Id.iden(),
            ),
            foreign_key(
                INDEX_2_NAME,
                UserRelationsUserrelation::User2Id.iden(),
                UsersUser::Table.iden(),
                UsersUser::Id.iden(),
            ),
        ];
        assert(foreign_keys_view(foreign_keys@) =~= relation_foreign_keys());
        let t = UserRelationsUserrelation::Table.iden();
        let res = vec![
            SchemaOp::CreateTable { table: t, if_not_exists: true, columns, foreign_keys },
            SchemaOp::CreateIndex {
                name: INDEX_1_NAME,
                table: t,
                column: UserRelationsUserrelation::User1Id.iden(),
                if_not_exists: true,
            },
            SchemaOp::CreateIndex {
                name: INDEX_2_NAME,
                table: t,
                column: UserRelationsUserrelation::User2Id.iden(),
                if_not_exists: true,
            },
        ];
        assert(ops_view(res@) =~= Self::up_plan());
        res
    }

    /// Drops the two indexes, then the table.
    pub fn down(&self) -> (res: Vec<SchemaOp>)
        ensures
            ops_view(res@) == Self::down_plan(),
    {
        let res = vec![
            SchemaOp::DropIndex { name: INDEX_2_NAME, if_exists: true },
            SchemaOp::DropIndex { name: INDEX_1_NAME, if_exists: true },
            SchemaOp::DropTable { table: UserRelationsUserrelation::Table.iden(), if_exists: true },
        ];
        assert(ops_view(res@) =~= Self::down_plan());
        res
    }
}

/// Undoing the migration restores the schema: on a schema without the
/// relations table and its indexes, running the `up` plan and then the `down`
/// plan succeeds and leaves the schema as it was.
pub proof fn law_down_undoes_up(s: SchemaModel)
    requires
        s.well_formed(),
        !s.tables.contains_key(UserRelationsUserrelation::Table.iden_text()),
        !s.indexes.contains_key(INDEX_1_NAME@),
        !s.indexes.contains_key(INDEX_2_NAME@),
    ensures
        apply_ops(s, Migration::up_plan()) matches Some(after) && after.well_formed() && apply_ops(
            after,
            Migration::down_plan(),
        ) == Some(s),
        apply_ops(s, Migration::up_plan()) == Some(Migration::applied(s)),
{
    reveal_with_fuel(apply_ops, 4);
    reveal_strlit("user_relations_userrelation2_user_1_id_b0a40a01");
    reveal_strlit("user_relations_userrelation2_user_2_id_7aacb430");
    assert(INDEX_1_NAME@ != INDEX_2_NAME@) by {
        assert(INDEX_1_NAME@[34] != INDEX_2_NAME@[34]);
    }
    let t = UserRelationsUserrelation::Table.iden_text();
    let s1 = SchemaModel { tables: s.tables.insert(t, column_names(relation_columns())), ..s };
    let s2 = SchemaModel { indexes: s1.indexes.insert(INDEX_1_NAME@, t), ..s1 };
    let s3 = SchemaModel { indexes: s2.indexes.insert(INDEX_2_NAME@, t), ..s2 };
    let up = Migration::up_plan();
    assert(up.drop_first() =~= seq![up[1], up[2]]);
    assert(up.drop_first().drop_first() =~= seq![up[2]]);
    assert(up.drop_first().drop_first().drop_first() =~= Seq::<SchemaOpView>::empty());
    assert(apply_ops(s, up) == Some(s3));
    let down = Migration::down_plan();
    assert(down.drop_first() =~= seq![down[1], down[2]]);
    assert(down.drop_first().drop_first() =~= seq![down[2]]);
    assert(down.drop_first().drop_first().drop_first() =~= Seq::<SchemaOpView>::empty());
    lemma_drop_created_index(s2, INDEX_2_NAME@, t, true);
    lemma_drop_created_index(s1, INDEX_1_NAME@, t, true);
    lemma_drop_created_table(s, t, column_names(relation_columns()), true);
    assert(s3.well_formed());
}

/// Running the migration again changes nothing: on any schema on which the
/// `up` plan went through, a second run goes through too and leaves the
/// schema as the first run left it, since every step creates its table or
/// index, or adds its column, only where it does not exist yet.
pub proof fn law_up_again_changes_nothing(s: SchemaModel)
    requires
        apply_ops(s, Migration::up_plan()) is Some,
    ensures
        apply_ops(apply_ops(s, Migration::up_plan())->0, Migration::up_plan()) == apply_ops(
            s,
            Migration::up_plan(),
        ),
{
    let up = Migration::up_plan();
    assert forall|i: int| 0 <= i < up.len() implies only_adds(#[trigger] up[i]) by {}
    lemma_plan_again(s, up, apply_ops(s, up)->0);
}

} // verus!
