//! Creates the wishes table, moves the wishes that used tickets recorded into
//! it, and drops the ticket columns that held them.

use super::{
    apply_op, apply_ops, column, column_names, column_spec, columns_view, foreign_key,
    foreign_key_spec, foreign_keys_view, lemma_drop_created_index, lemma_drop_created_table,
    ops_view, ColumnDef, ColumnDefView, ColumnType, ForeignKeyDef, ForeignKeyView, SchemaModel,
    SchemaOp, SchemaOpView,
};
use vstd::prelude::*;

verus! {

pub const TICKET_FK_NAME: &'static str = "wish_tickets_ticket_fk";

pub const RELATION_FK_NAME: &'static str = "wish_user_relation_fk";

pub const TICKET_INDEX_NAME: &'static str = "wish_ticket_id";

pub const RELATION_INDEX_NAME: &'static str = "wish_user_relation_id";

/// Copies each used ticket's wish (its use description) into the new table,
/// marked as read.
pub const MOVE_WISHES_SQL: &'static str = "INSERT INTO wish (id, description, status, ticket_id, user_relation_id, created_at, updated_at)
                SELECT
                    gen_random_uuid(),
                    use_description,
                    'read',
                    id,
                    user_relation_id,
                    updated_at,
                    updated_at
                FROM
                    tickets_ticket
                WHERE
                    use_date is not null;
            ";

/// The columns of the wishes table.
#[derive(Clone, Copy, Debug, PartialEq, Eq, Structural)]
pub enum Wish {
    Table,
    Id,
    Description,
    Status,
    TicketId,
    UserRelationId,
    CreatedAt,
    UpdatedAt,
}

impl Wish {
    pub open spec fn iden_text(self) -> Seq<char> {
        match self {
            Wish::Table => "wish"@,
            Wish::Id => "id"@,
            Wish::Description => "description"@,
            Wish::Status => "status"@,
            Wish::TicketId => "ticket_id"@,
            Wish::UserRelationId => "user_relation_id"@,
            Wish::CreatedAt => "created_at"@,
            Wish::UpdatedAt => "updated_at"@,
        }
    }

    /// The table's or the column's name in the database.
    pub fn iden(&self) -> (res: &'static str)
        ensures
            res@ == self.iden_text(),
    {
        match self {
            Wish::Table => "wish",
            Wish::Id => "id",
            Wish::Description => "description",
            Wish::Status => "status",
            Wish::TicketId => "ticket_id",
            Wish::UserRelationId => "user_relation_id",
            Wish::CreatedAt => "created_at",
            Wish::UpdatedAt => "updated_at",
        }
    }
}

/// The tickets table, as far as wishes refer to it.
#[derive(Clone, Copy, Debug, PartialEq, Eq, Structural)]
pub enum TicketsTicket {
    Table,
    Id,
    UseDescription,
    UseDate,
}

impl TicketsTicket {
    pub open spec fn iden_text(self) -> Seq<char> {
        match self {
            TicketsTicket::Table => "tickets_ticket"@,
            TicketsTicket::Id => "id"@,
            TicketsTicket::UseDescription => "use_description"@,
            TicketsTicket::UseDate => "use_date"@,
        }
    }

    /// The table's or the column's name in the database.
    pub fn iden(&self) -> (res: &'static str)
        ensures
            res@ == self.iden_text(),
    {
        match self {
            TicketsTicket::Table => "tickets_ticket",
            TicketsTicket::Id => "id",
            TicketsTicket::UseDescription => "use_description",
            TicketsTicket::UseDate => "use_date",
        }
    }
}

/// The user relations table, as far as wishes refer to it.
#[derive(Clone, Copy, Debug, PartialEq, Eq, Structural)]
pub enum UserRelationsUserrelation {
    Table,
    Id,
}

impl UserRelationsUserrelation {
    pub open spec fn iden_text(self) -> Seq<char> {
        match self {
            UserRelationsUserrelation::Table => "user_relations_userrelation"@,
            UserRelationsUserrelation::Id => "id"@,
        }
    }

    /// The table's or the column's name in the database.
    pub fn iden(&self) -> (res: &'static str)
        ensures
            res@ == self.iden_text(),
    {
        match self {
            UserRelationsUserrelation::Table => "user_relations_userrelation",
            UserRelationsUserrelation::Id => "id",
        }
    }
}

/// Creates the wishes table.
#[derive(Clone, Copy, Debug)]
pub struct Migration;

pub open spec fn wish_columns() -> Seq<ColumnDefView> {
    seq![
        ColumnDefView { primary_key: true, ..column_spec(Wish::Id.iden_text(), ColumnType::Uuid) },
        column_spec(Wish::Description.iden_text(), ColumnType::Text),
        column_spec(Wish::Status.iden_text(), ColumnType::StringLen(8)),
        ColumnDefView { unique: true, ..column_spec(Wish::TicketId.iden_text(), ColumnType::BigInteger) },
        column_spec(Wish::UserRelationId.iden_text(), ColumnType::BigInteger),
        column_spec(Wish::CreatedAt.iden_text(), ColumnType::TimestampWithTimeZone),
        column_spec(Wish::UpdatedAt.iden_text(), ColumnType::TimestampWithTimeZone),
    ]
}

pub open spec fn wish_foreign_keys() -> Seq<ForeignKeyView> {
    seq![
        foreign_key_spec(
            TICKET_FK_NAME@,
            Wish::TicketId.iden_text(),
            TicketsTicket::Table.iden_text(),
            TicketsTicket::Id.iden_text(),
        ),
        foreign_key_spec(
            RELATION_FK_NAME@,
            Wish::UserRelationId.iden_text(),
            UserRelationsUserrelation::Table.iden_text(),
            UserRelationsUserrelation::Id.iden_text(),
        ),
    ]
}

/// The use date column as it is put back: a date that may be empty.
pub open spec fn restored_use_date() -> ColumnDefView {
    ColumnDefView { nullable: true, ..column_spec(TicketsTicket::UseDate.iden_text(), ColumnType::Date) }
}

/// The use description column as it is put back: text, empty by default.
pub open spec fn restored_use_description() -> ColumnDefView {
    ColumnDefView {
        default_text: Some(""@),
        ..column_spec(TicketsTicket::UseDescription.iden_text(), ColumnType::Text)
    }
}

impl Migration {
    /// The migration's name, which the migration table records.
    pub fn name(&self) -> (res: &'static str)
        ensures
            res@ == "m20260330_000001_create_wishes_table"@,
    {
        "m20260330_000001_create_wishes_table"
    }

    pub open spec fn up_plan() -> Seq<SchemaOpView> {
        let t = Wish::Table.iden_text();
        let tickets = TicketsTicket::Table.iden_text();
        seq![
            SchemaOpView::CreateTable {
                table: t,
                if_not_exists: true,
                columns: wish_columns(),
                foreign_keys: wish_foreign_keys(),
            },
            SchemaOpView::CreateIndex {
                name: TICKET_INDEX_NAME@,
                table: t,
                column: Wish::TicketId.iden_text(),
                if_not_exists: true,
            },
            SchemaOpView::CreateIndex {
                name: RELATION_INDEX_NAME@,
                table: t,
                column: Wish::UserRelationId.iden_text(),
                if_not_exists: true,
            },
            SchemaOpView::ExecuteSql { sql: MOVE_WISHES_SQL@ },
            SchemaOpView::DropColumn { table: tickets, column: TicketsTicket::UseDate.iden_text() },
            SchemaOpView::DropColumn { table: tickets, column: TicketsTicket::UseDescription.iden_text() },
        ]
    }

    /// The schema after the `up` plan, on a schema without the table and its
    /// indexes whose tickets table has the two columns that move to wishes.
    pub open spec fn applied(s: SchemaModel) -> SchemaModel {
        let t = Wish::Table.iden_text();
        let tickets = TicketsTicket::Table.iden_text();
        SchemaModel {
            tables: s.tables.insert(t, column_names(wish_columns())).insert(
                tickets,
                s.tables[tickets].remove(TicketsTicket::UseDate.iden_text()).remove(
                    TicketsTicket::UseDescription.iden_text(),
                ),
            ),
            indexes: s.indexes.insert(TICKET_INDEX_NAME@, t).insert(RELATION_INDEX_NAME@, t),
        }
    }

    pub open spec fn down_plan() -> Seq<SchemaOpView> {
        let tickets = TicketsTicket::Table.iden_text();
        seq![
            SchemaOpView::AddColumn { table: tickets, column: restored_use_date() },
            SchemaOpView::AddColumn { table: tickets, column: restored_use_description() },
            SchemaOpView::DropIndex { name: RELATION_INDEX_NAME@, if_exists: true },
            SchemaOpView::DropIndex { name: TICKET_INDEX_NAME@, if_exists: true },
            SchemaOpView::DropTable { table: Wish::Table.iden_text(), if_exists: true },
        ]
    }

    /// Creates the table and its indexes, copies the wishes over, then drops
    /// the tickets' use date and use description.
    pub fn up(&self) -> (res: Vec<SchemaOp>)
        ensures
            ops_view(res@) == Self::up_plan(),
    {
        let columns: Vec<ColumnDef> = vec![
            column(Wish::Id.iden(), ColumnType::Uuid).primary_key(),
            column(Wish::Description.iden(), ColumnType::Text),
            column(Wish::Status.iden(), ColumnType::StringLen(8)),
            column(Wish::TicketId.iden(), ColumnType::BigInteger).uniq(),
            column(Wish::UserRelationId.iden(), ColumnType::BigInteger),
            column(Wish::CreatedAt.iden(), ColumnType::TimestampWithTimeZone),
            column(Wish::UpdatedAt.iden(), ColumnType::TimestampWithTimeZone),
        ];
        assert(columns_view(columns@) =~= wish_columns());
        let foreign_keys: Vec<ForeignKeyDef> = vec![
            foreign_key(
                TICKET_FK_NAME,
                Wish::TicketId.iden(),
                TicketsTicket::Table.iden(),
                TicketsTicket::Id.iden(),
            ),
            foreign_key(
                RELATION_FK_NAME,
                Wish::UserRelationId.iden(),
                UserRelationsUserrelation::Table.iden(),
                UserRelationsUserrelation::Id.iden(),
            ),
        ];
        assert(foreign_keys_view(foreign_keys@) =~= wish_foreign_keys());
        let t = Wish::Table.iden();
        let tickets = TicketsTicket::Table.iden();
        let res = vec![
            SchemaOp::CreateTable { table: t, if_not_exists: true, columns, foreign_keys },
            SchemaOp::CreateIndex {
                name: TICKET_INDEX_NAME,
                table: t,
                column: Wish::TicketId.iden(),
                if_not_exists: true,
            },
            SchemaOp::CreateIndex {
                name: RELATION_INDEX_NAME,
                table: t,
                column: Wish::UserRelationId.iden(),
                if_not_exists: true,
            },
            SchemaOp::ExecuteSql { sql: String::from_str(MOVE_WISHES_SQL) },
            SchemaOp::DropColumn { table: tickets, column: TicketsTicket::UseDate.iden() },
            SchemaOp::DropColumn { table: tickets, column: TicketsTicket::UseDescription.iden() },
        ];
        assert(ops_view(res@) =~= Self::up_plan());
        res
    }

    /// Puts the two ticket columns back (the description now empty by
    /// default), then drops the wishes table's indexes and the table.
    pub fn down(&self) -> (res: Vec<SchemaOp>)
        ensures
            ops_view(res@) == Self::down_plan(),
    {
        let tickets = TicketsTicket::Table.iden();
        let res = vec![
            SchemaOp::AddColumn {
                table: tickets,
                column: column(TicketsTicket::UseDate.iden(), ColumnType::Date).null(),
            },
            SchemaOp::AddColumn {
                table: tickets,
                column: column(TicketsTicket::UseDescription.iden(), ColumnType::Text).default_text(""),
            },
            SchemaOp::DropIndex { name: RELATION_INDEX_NAME, if_exists: true },
            SchemaOp::DropIndex { name: TICKET_INDEX_NAME, if_exists: true },
            SchemaOp::DropTable { table: Wish::Table.iden(), if_exists: true },
        ];
        assert(ops_view(res@) =~= Self::down_plan());
        res
    }
}

/// Undoing the migration restores the schema's tables, columns and indexes:
/// on a schema without the wishes table and its indexes, whose tickets table
/// has the use date and use description columns, running the `up` plan and
/// then the `down` plan succeeds and leaves every table with the columns it
/// had, and the indexes as they were. (The restored use description column
/// gets an empty default that it did not have before.)
pub proof fn law_down_undoes_up(s: SchemaModel)
    requires
        s.well_formed(),
        !s.tables.contains_key(Wish::Table.iden_text()),
        s.tables.contains_key(TicketsTicket::Table.iden_text()),
        s.tables[TicketsTicket::Table.iden_text()].contains(TicketsTicket::UseDate.iden_text()),
        s.tables[TicketsTicket::Table.iden_text()].contains(TicketsTicket::UseDescription.iden_text()),
        !s.indexes.contains_key(TICKET_INDEX_NAME@),
        !s.indexes.contains_key(RELATION_INDEX_NAME@),
    ensures
        apply_ops(s, Migration::up_plan()) matches Some(after) && after.well_formed() && apply_ops(
            after,
            Migration::down_plan(),
        ) == Some(s),
        apply_ops(s, Migration::up_plan()) == Some(Migration::applied(s)),
{
    reveal_with_fuel(apply_ops, 7);
    reveal_strlit("wish");
    reveal_strlit("tickets_ticket");
    reveal_strlit("wish_ticket_id");
    reveal_strlit("wish_user_relation_id");
    let t = Wish::Table.iden_text();
    let tickets = TicketsTicket::Table.iden_text();
    let use_date = TicketsTicket::UseDate.iden_text();
    let use_description = TicketsTicket::UseDescription.iden_text();
    assert(t != tickets) by {
        assert(t.len() != tickets.len());
    }
    assert(TICKET_INDEX_NAME@ != RELATION_INDEX_NAME@) by {
        assert(TICKET_INDEX_NAME@[5] != RELATION_INDEX_NAME@[5]);
    }
    reveal_strlit("use_date");
    reveal_strlit("use_description");
    assert(use_date != use_description) by {
        assert(use_date.len() != use_description.len());
    }
    let cols = s.tables[tickets];
    let s1 = SchemaModel { tables: s.tables.insert(t, column_names(wish_columns())), ..s };
    let s2 = SchemaModel { indexes: s1.indexes.insert(TICKET_INDEX_NAME@, t), ..s1 };
    let s3 = SchemaModel { indexes: s2.indexes.insert(RELATION_INDEX_NAME@, t), ..s2 };
    assert(s3.tables[tickets] == cols);
    let s5 = SchemaModel { tables: s3.tables.insert(tickets, cols.remove(use_date)), ..s3 };
    let s6 = SchemaModel {
        tables: s5.tables.insert(tickets, cols.remove(use_date).remove(use_description)),
        ..s5
    };
    let up = Migration::up_plan();
    assert(up.drop_first() =~= up.subrange(1, 6));
    assert(up.drop_first().drop_first() =~= up.subrange(2, 6));
    assert(up.drop_first().drop_first().drop_first() =~= up.subrange(3, 6));
    assert(up.drop_first().drop_first().drop_first().drop_first() =~= up.subrange(4, 6));
    assert(up.drop_first().drop_first().drop_first().drop_first().drop_first() =~= up.subrange(5, 6));
    assert(up.subrange(5, 6).drop_first() =~= Seq::<SchemaOpView>::empty());
    assert(apply_op(s, up[0]) == Some(s1));
    assert(apply_op(s1, up[1]) == Some(s2));
    assert(apply_op(s2, up[2]) == Some(s3));
    assert(apply_op(s3, up[3]) == Some(s3));
    assert(apply_op(s3, up[4]) == Some(s5));
    assert(apply_op(s5, up[5]) == Some(s6));
    assert(apply_ops(s, up) == Some(s6));
    assert(s6.tables =~= Migration::applied(s).tables);
    assert(s6.well_formed());
    let s7 = SchemaModel {
        tables: s6.tables.insert(tickets, cols.remove(use_date).remove(use_description).insert(use_date)),
        ..s6
    };
    let back = cols.remove(use_date).remove(use_description).insert(use_date).insert(use_description);
    assert(back =~= cols);
    let s8 = SchemaModel { tables: s7.tables.insert(tickets, back), ..s7 };
    assert(s8.tables =~= s3.tables);
    assert(s8 == s3);
    let down = Migration::down_plan();
    assert(down.drop_first() =~= down.subrange(1, 5));
    assert(down.drop_first().drop_first() =~= down.subrange(2, 5));
    assert(down.drop_first().drop_first().drop_first() =~= down.subrange(3, 5));
    assert(down.drop_first().drop_first().drop_first().drop_first() =~= down.subrange(4, 5));
    assert(down.subrange(4, 5).drop_first() =~= Seq::<SchemaOpView>::empty());
    assert(apply_op(s6, down[0]) == Some(s7));
    assert(apply_op(s7, down[1]) == Some(s8));
    lemma_drop_created_index(s2, RELATION_INDEX_NAME@, t, true);
    lemma_drop_created_index(s1, TICKET_INDEX_NAME@, t, true);
    lemma_drop_created_table(s, t, column_names(wish_columns()), true);
}

} // verus!
