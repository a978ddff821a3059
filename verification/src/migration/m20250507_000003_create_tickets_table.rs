//! Creates the tickets table.

use super::{
    lemma_plan_again, only_adds,
    apply_op, apply_ops, column, column_names, column_spec, columns_view, foreign_key, foreign_key_spec,
    foreign_keys_view, lemma_drop_created_index, lemma_drop_created_table, ops_view, ColumnDef,
    ColumnDefView, ColumnType, ForeignKeyDef, ForeignKeyView, SchemaModel, SchemaOp, SchemaOpView,
};
use vstd::prelude::*;

verus! {

pub const USER_INDEX_NAME: &'static str = "tickets_ticket_giving_user_id_d60738e9";

pub const RELATION_INDEX_NAME: &'static str = "tickets_ticket_user_relation_2_id_e828e9ed";

/// The columns of the tickets table.
#[derive(Clone, Copy, Debug, PartialEq, Eq, Structural)]
pub enum TicketsTicket {
    Table,
    Id,
    Description,
    GiftDate,
    UseDescription,
    UseDate,
    Status,
    IsSpecial,
    CreatedAt,
    UpdatedAt,
    GivingUserId,
    UserRelationId,
}

impl TicketsTicket {
    pub open spec fn iden_text(self) -> Seq<char> {
        match self {
            TicketsTicket::Table => "tickets_ticket"@,
            TicketsTicket::Id => "id"@,
            TicketsTicket::Description => "description"@,
            TicketsTicket::GiftDate => "gift_date"@,
            TicketsTicket::UseDescription => "use_description"@,
            TicketsTicket::UseDate => "use_date"@,
            TicketsTicket::Status => "status"@,
            TicketsTicket::IsSpecial => "is_special"@,
            TicketsTicket::CreatedAt => "created_at"@,
            TicketsTicket::UpdatedAt => "updated_at"@,
            TicketsTicket::GivingUserId => "giving_user_id"@,
            TicketsTicket::UserRelationId => "user_relation_id"@,
        }
    }

    /// The table's or the column's name in the database.
    pub fn iden(&self) -> (res: &'static str)
        ensures
            res@ == self.iden_text(),
    {
        match self {
            TicketsTicket::Table => "tickets_ticket",
            TicketsTicket::Id => "id",
            TicketsTicket::Description => "description",
            TicketsTicket::GiftDate => "gift_date",
            TicketsTicket::UseDescription => "use_description",
            TicketsTicket::UseDate => "use_date",
            TicketsTicket::Status => "status",
            TicketsTicket::IsSpecial => "is_special",
            TicketsTicket::CreatedAt => "created_at",
            TicketsTicket::UpdatedAt => "updated_at",
            TicketsTicket::GivingUserId => "giving_user_id",
            TicketsTicket::UserRelationId => "user_relation_id",
        }
    }
}

/// The user relations table, as far as tickets refer to it.
#[derive(Clone, Copy, Debug, PartialEq, Eq, Structural)]
pub enum UserRelationsUserrelation {
    Table,
    Id,
}

impl UserRelationsUserrelation {
    pub open spec fn iden_text(self) -> Seq<char> {
        match self {
            UserRelationsUserrelation::Table => "user_relations_userrelation"@,
            UserRelationsUserrelation::Id => "id"@,
        }
    }

    /// The table's or the column's name in the database.
    pub fn iden(&self) -> (res: &'static str)
        ensures
            res@ == self.iden_text(),
    {
        match self {
            UserRelationsUserrelation::Table => "user_relations_userrelation",
            UserRelationsUserrelation::Id => "id",
        }
    }
}

/// The users table, as far as tickets refer to it.
#[derive(Clone, Copy, Debug, PartialEq, Eq, Structural)]
pub enum UsersUser {
    Table,
    Id,
}

impl UsersUser {
    pub open spec fn iden_text(self) -> Seq<char> {
        match self {
            UsersUser::Table => "users_user"@,
            UsersUser::Id => "id"@,
        }
    }

    /// The table's or the column's name in the database.
    pub fn iden(&self) -> (res: &'static str)
        ensures
            res@ == self.iden_text(),
    {
        match self {
            UsersUser::Table => "users_user",
            UsersUser::Id => "id",
        }
    }
}

/// Creates the tickets table.
#[derive(Clone, Copy, Debug)]
pub struct Migration;

pub open spec fn ticket_columns() -> Seq<ColumnDefView> {
    seq![
        ColumnDefView {
            auto_increment: true,
            primary_key: true,
            ..column_spec(TicketsTicket::Id.iden_text(), ColumnType::BigInteger)
        },
        column_spec(TicketsTicket::Description.iden_text(), ColumnType::Text),
        column_spec(TicketsTicket::GiftDate.iden_text(), ColumnType::Date),
        column_spec(TicketsTicket::UseDescription.iden_text(), ColumnType::Text),
        ColumnDefView { nullable: true, ..column_spec(TicketsTicket::UseDate.iden_text(), ColumnType::Date) },
        column_spec(TicketsTicket::Status.iden_text(), ColumnType::StringLen(8)),
        column_spec(TicketsTicket::IsSpecial.iden_text(), ColumnType::Boolean),
        column_spec(TicketsTicket::CreatedAt.iden_text(), ColumnType::TimestampWithTimeZone),
        column_spec(TicketsTicket::UpdatedAt.iden_text(), ColumnType::TimestampWithTimeZone),
        column_spec(TicketsTicket::GivingUserId.iden_text(), ColumnType::BigInteger),
        column_spec(TicketsTicket::UserRelationId.iden_text(), ColumnType::BigInteger),
    ]
}

pub open spec fn ticket_foreign_keys() -> Seq<ForeignKeyView> {
    seq![
        foreign_key_spec(
            USER_INDEX_NAME@,
            TicketsTicket::GivingUserId.iden_text(),
            UsersUser::Table.iden_text(),
            UsersUser::Id.iden_text(),
        ),
        foreign_key_spec(
            RELATION_INDEX_NAME@,
            TicketsTicket::UserRelationId.iden_text(),
            UserRelationsUserrelation::Table.iden_text(),
            UserRelationsUserrelation::Id.iden_text(),
        ),
    ]
}

impl Migration {
    /// The migration's name, which the migration table records.
    pub fn name(&self) -> (res: &'static str)
        ensures
            res@ == "m20250507_000003_create_tickets_table"@,
    {
        "m20250507_000003_create_tickets_table"
    }

    pub open spec fn up_plan() -> Seq<SchemaOpView> {
        let t = TicketsTicket::Table.iden_text();
        seq![
            SchemaOpView::CreateTable {
                table: t,
                if_not_exists: true,
                columns: ticket_columns(),
                foreign_keys: ticket_foreign_keys(),
            },
            SchemaOpView::CreateIndex {
                name: USER_INDEX_NAME@,
                table: t,
                column: TicketsTicket::GivingUserId.iden_text(),
                if_not_exists: true,
            },
            SchemaOpView::CreateIndex {
                name: RELATION_INDEX_NAME@,
                table: t,
                column: TicketsTicket::UserRelationId.iden_text(),
                if_not_exists: true,
            },
        ]
    }

    /// The schema after the `up` plan, on a schema without the table and its indexes.
    pub open spec fn applied(s: SchemaModel) -> SchemaModel {
        let t = TicketsTicket::Table.iden_text();
        SchemaModel {
            tables: s.tables.insert(t, column_names(ticket_columns())),
            indexes: s.indexes.insert(USER_INDEX_NAME@, t).insert(RELATION_INDEX_NAME@, t),
        }
    }

    pub open spec fn down_plan() -> Seq<SchemaOpView> {
        seq![
            SchemaOpView::DropIndex { name: RELATION_INDEX_NAME@, if_exists: true },
            SchemaOpView::DropIndex { name: USER_INDEX_NAME@, if_exists: true },
            SchemaOpView::DropTable { table: TicketsTicket::Table.iden_text(), if_exists: true },
        ]
    }

    /// Creates the table, then indexes on the giver and on the relation.
    pub fn up(&self) -> (res: Vec<SchemaOp>)
        ensures
            ops_view(res@) == Self::up_plan(),
    {
        let columns: Vec<ColumnDef> = vec![
            column(TicketsTicket::Id.iden(), ColumnType::BigInteger).auto_increment().primary_key(),
            column(TicketsTicket::Description.iden(), ColumnType::Text),
            column(TicketsTicket::GiftDate.iden(), ColumnType::Date),
            column(TicketsTicket::UseDescription.iden(), ColumnType::Text),
            column(TicketsTicket::UseDate.iden(), ColumnType::Date).null(),
            column(TicketsTicket::Status.iden(), ColumnType::StringLen(8)),
            column(TicketsTicket::IsSpecial.iden(), ColumnType::Boolean),
            column(TicketsTicket::CreatedAt.iden(), ColumnType::TimestampWithTimeZone),
            column(TicketsTicket::UpdatedAt.iden(), ColumnType::TimestampWithTimeZone),
            column(TicketsTicket::GivingUserId.iden(), ColumnType::BigInteger),
            column(TicketsTicket::UserRelationId.iden(), ColumnType::BigInteger),
        ];
        assert(columns_view(columns@) =~= ticket_columns());
        let foreign_keys: Vec<ForeignKeyDef> = vec![
            foreign_key(
                USER_INDEX_NAME,
                TicketsTicket::GivingUserId.iden(),
                UsersUser::Table.iden(),
                UsersUser::Id.iden(),
            ),
            foreign_key(
                RELATION_INDEX_NAME,
                TicketsTicket::UserRelationId.iden(),
                UserRelationsUserrelation::Table.iden(),
                UserRelationsUserrelation::Id.iden(),
            ),
        ];
        assert(foreign_keys_view(foreign_keys@) =~= ticket_foreign_keys());
        let t = TicketsTicket::Table.iden();
        let res = vec![
            SchemaOp::CreateTable { table: t, if_not_exists: true, columns, foreign_keys },
            SchemaOp::CreateIndex {
                name: USER_INDEX_NAME,
                table: t,
                column: TicketsTicket::GivingUserId.iden(),
                if_not_exists: true,
            },
            SchemaOp::CreateIndex {
                name: RELATION_INDEX_NAME,
                table: t,
                column: TicketsTicket::UserRelationId.iden(),
                if_not_exists: true,
            },
        ];
        assert(ops_view(res@) =~= Self::up_plan());
        res
    }

    /// Drops the two indexes, then the table.
    pub fn down(&self) -> (res: Vec<SchemaOp>)
        ensures
            ops_view(res@) == Self::down_plan(),
    {
        let res = vec![
            SchemaOp::DropIndex { name: RELATION_INDEX_NAME, if_exists: true },
            SchemaOp::DropIndex { name: USER_INDEX_NAME, if_exists: true },
            SchemaOp::DropTable { table: TicketsTicket::Table.iden(), if_exists: true },
        ];
        assert(ops_view(res@) =~= Self::down_plan());
        res
    }
}

/// Undoing the migration restores the schema: on a schema without the
/// tickets table and its indexes, running the `up` plan and then the `down`
/// plan succeeds and leaves the schema as it was.
pub proof fn law_down_undoes_up(s: SchemaModel)
    requires
        s.well_formed(),
        !s.tables.contains_key(TicketsTicket::Table.iden_text()),
        !s.indexes.contains_key(USER_INDEX_NAME@),
        !s.indexes.contains_key(RELATION_INDEX_NAME@),
    ensures
        apply_ops(s, Migration::up_plan()) matches Some(after) && after.well_formed() && apply_ops(
            after,
            Migration::down_plan(),
        ) == Some(s),
        apply_ops(s, Migration::up_plan()) == Some(Migration::applied(s)),
{
    reveal_with_fuel(apply_ops, 4);
    reveal_strlit("tickets_ticket_giving_user_id_d60738e9");
    reveal_strlit("tickets_ticket_user_relation_2_id_e828e9ed");
    assert(USER_INDEX_NAME@ != RELATION_INDEX_NAME@) by {
        assert(USER_INDEX_NAME@[15] != RELATION_INDEX_NAME@[15]);
    }
    let t = TicketsTicket::Table.iden_text();
    let s1 = SchemaModel { tables: s.tables.insert(t, column_names(ticket_columns())), ..s };
    let s2 = SchemaModel { indexes: s1.indexes.insert(USER_INDEX_NAME@, t), ..s1 };
    let s3 = SchemaModel { indexes: s2.indexes.insert(RELATION_INDEX_NAME@, t), ..s2 };
    let up = Migration::up_plan();
    assert(up.drop_first() =~= seq![up[1], up[2]]);
    assert(up.drop_first().drop_first() =~= seq![up[2]]);
    assert(up.drop_first().drop_first().drop_first() =~= Seq::<SchemaOpView>::empty());
    assert(apply_ops(s, up) == Some(s3));
    let down = Migration::down_plan();
    assert(down.drop_first() =~= seq![down[1], down[2]]);
    assert(down.drop_first().drop_first() =~= seq![down[2]]);
    assert(down.drop_first().drop_first().drop_first() =~= Seq::<SchemaOpView>::empty());
    lemma_drop_created_index(s2, RELATION_INDEX_NAME@, t, true);
    lemma_drop_created_index(s1, USER_INDEX_NAME@, t, true);
    lemma_drop_created_table(s, t, column_names(ticket_columns()), true);
    assert(s3.well_formed());
}

/// Running the migration again changes nothing: on any schema on which the
/// `up` plan went through, a second run goes through too and leaves the
/// schema as the first run left it, since every step creates its table or
/// index, or adds its column, only where it does not exist yet.
pub proof fn law_up_again_changes_nothing(s: SchemaModel)
    requires
        apply_ops(s, Migration::up_plan()) is Some,
    ensures
        apply_ops(apply_ops(s, Migration::up_plan())->0, Migration::up_plan()) == apply_ops(
            s,
            Migration::up_plan(),
        ),
{
    let up = Migration::up_plan();
    assert forall|i: int| 0 <= i < up.len() implies only_adds(#[trigger] up[i]) by {}
    lemma_plan_again(s, up, apply_ops(s, up)->0);
}

} // verus!
