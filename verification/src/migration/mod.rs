//! The database migrations as plans of schema operations, and what a plan
//! does to the set of tables, columns and indexes. The caller carries out the
//! operations against the database; each migration's `down` plan undoes its
//! `up` plan on that schema.

use vstd::prelude::*;

pub mod m20250507_000001_create_users_table;
pub mod m20250507_000002_create_user_relations_table;
pub mod m20250507_000003_create_tickets_table;
pub mod m20250507_000004_create_diaries_table;
pub mod m20250507_000005_create_diary_tags_table;
pub mod m20260301_000001_create_web_push_subscriptions_table;
pub mod m20260330_000001_create_wishes_table;
pub mod m20260505_000001_add_first_diary_date_to_user_relations_table;
pub mod m20260510_000001_add_first_giving_receiving_ticket_date_to_user_relations_table;

verus! {

/// The type of a column.
#[derive(Clone, Copy, Debug, PartialEq, Eq, Structural)]
pub enum ColumnType {
    BigInteger,
    Integer,
    Boolean,
    Date,
    Text,
    Uuid,
    /// Text of any length up to the database's default limit.
    String,
    /// Text of at most this many characters.
    StringLen(u32),
    TimestampWithTimeZone,
}

/// A column of a table.
#[derive(Clone, Copy, Debug)]
pub struct ColumnDef {
    pub name: &'static str,
    pub column_type: ColumnType,
    pub nullable: bool,
    pub unique: bool,
    pub primary_key: bool,
    pub auto_increment: bool,
    pub default_text: Option<&'static str>,
}

/// A foreign key from a column of the table being created.
#[derive(Clone, Copy, Debug)]
pub struct ForeignKeyDef {
    pub name: &'static str,
    pub from_column: &'static str,
    pub to_table: &'static str,
    pub to_column: &'static str,
    /// Deleting a referenced row is refused (rather than left to the default).
    pub on_delete_restrict: bool,
}

/// One step of a migration.
#[derive(Clone, Debug)]
pub enum SchemaOp {
    CreateTable {
        table: &'static str,
        if_not_exists: bool,
        columns: Vec<ColumnDef>,
        foreign_keys: Vec<ForeignKeyDef>,
    },
    DropTable { table: &'static str, if_exists: bool },
    CreateIndex { name: &'static str, table: &'static str, column: &'static str, if_not_exists: bool },
    /// An index made by a raw `CREATE INDEX IF NOT EXISTS` statement.
    CreateIndexSql { name: &'static str, table: &'static str, sql: String },
    DropIndex { name: &'static str, if_exists: bool },
    /// Adds the column unless the table already has it.
    AddColumn { table: &'static str, column: ColumnDef },
    DropColumn { table: &'static str, column: &'static str },
    /// A statement that changes only data.
    ExecuteSql { sql: String },
}

pub struct ColumnDefView {
    pub name: Seq<char>,
    pub column_type: ColumnType,
    pub nullable: bool,
    pub unique: bool,
    pub primary_key: bool,
    pub auto_increment: bool,
    pub default_text: Option<Seq<char>>,
}

pub struct ForeignKeyView {
    pub name: Seq<char>,
    pub from_column: Seq<char>,
    pub to_table: Seq<char>,
    pub to_column: Seq<char>,
    pub on_delete_restrict: bool,
}

pub enum SchemaOpView {
    CreateTable {
        table: Seq<char>,
        if_not_exists: bool,
        columns: Seq<ColumnDefView>,
        foreign_keys: Seq<ForeignKeyView>,
    },
    DropTable { table: Seq<char>, if_exists: bool },
    CreateIndex { name: Seq<char>, table: Seq<char>, column: Seq<char>, if_not_exists: bool },
    CreateIndexSql { name: Seq<char>, table: Seq<char>, sql: Seq<char> },
    DropIndex { name: Seq<char>, if_exists: bool },
    AddColumn { table: Seq<char>, column: ColumnDefView },
    DropColumn { table: Seq<char>, column: Seq<char> },
    ExecuteSql { sql: Seq<char> },
}

impl View for ColumnDef {
    type V = ColumnDefView;

    open spec fn view(&self) -> ColumnDefView {
        ColumnDefView {
            name: self.name@,
            column_type: self.column_type,
            nullable: self.nullable,
            unique: self.unique,
            primary_key: self.primary_key,
            auto_increment: self.auto_increment,
            default_text: match self.default_text {
                Some(t) => Some(t@),
                None => None,
            },
        }
    }
}

impl View for ForeignKeyDef {
    type V = ForeignKeyView;

    open spec fn view(&self) -> ForeignKeyView {
        ForeignKeyView {
            name: self.name@,
            from_column: self.from_column@,
            to_table: self.to_table@,
            to_column: self.to_column@,
            on_delete_restrict: self.on_delete_restrict,
        }
    }
}

pub open spec fn columns_view(columns: Seq<ColumnDef>) -> Seq<ColumnDefView> {
    columns.map_values(|c: ColumnDef| c@)
}

pub open spec fn foreign_keys_view(keys: Seq<ForeignKeyDef>) -> Seq<ForeignKeyView> {
    keys.map_values(|k: ForeignKeyDef| k@)
}

impl View for SchemaOp {
    type V = SchemaOpView;

    open spec fn view(&self) -> SchemaOpView {
        match self {
            SchemaOp::CreateTable { table, if_not_exists, columns, foreign_keys } => SchemaOpView::CreateTable {
                table: table@,
                if_not_exists: *if_not_exists,
                columns: columns_view(columns@),
                foreign_keys: foreign_keys_view(foreign_keys@),
            },
            SchemaOp::DropTable { table, if_exists } => SchemaOpView::DropTable {
                table: table@,
                if_exists: *if_exists,
            },
            SchemaOp::CreateIndex { name, table, column, if_not_exists } => SchemaOpView::CreateIndex {
                name: name@,
                table: table@,
                column: column@,
                if_not_exists: *if_not_exists,
            },
            SchemaOp::CreateIndexSql { name, table, sql } => SchemaOpView::CreateIndexSql {
                name: name@,
                table: table@,
                sql: sql@,
            },
            SchemaOp::DropIndex { name, if_exists } => SchemaOpView::DropIndex {
                name: name@,
                if_exists: *if_exists,
            },
            SchemaOp::AddColumn { table, column } => SchemaOpView::AddColumn {
                table: table@,
                column: column@,
            },
            SchemaOp::DropColumn { table, column } => SchemaOpView::DropColumn {
                table: table@,
                column: column@,
            },
            SchemaOp::ExecuteSql { sql } => SchemaOpView::ExecuteSql { sql: sql@ },
        }
    }
}

pub open spec fn ops_view(ops: Seq<SchemaOp>) -> Seq<SchemaOpView> {
    ops.map_values(|op: SchemaOp| op@)
}

// ---------------------------------------------------------------------------
// Column definitions.

pub open spec fn column_spec(name: Seq<char>, column_type: ColumnType) -> ColumnDefView {
    ColumnDefView {
        name,
        column_type,
        nullable: false,
        unique: false,
        primary_key: false,
        auto_increment: false,
        default_text: None,
    }
}

/// A column that must hold a value.
pub fn column(name: &'static str, column_type: ColumnType) -> (res: ColumnDef)
    ensures
        res@ == column_spec(name@, column_type),
{
    ColumnDef {
        name,
        column_type,
        nullable: false,
        unique: false,
        primary_key: false,
        auto_increment: false,
        default_text: None,
    }
}

impl ColumnDef {
    /// The column may be empty.
    pub fn null(self) -> (res: ColumnDef)
        ensures
            res@ == (ColumnDefView { nullable: true, ..self@ }),
    {
        ColumnDef { nullable: true, ..self }
    }

    /// No two rows hold the same value.
    pub fn uniq(self) -> (res: ColumnDef)
        ensures
            res@ == (ColumnDefView { unique: true, ..self@ }),
    {
        ColumnDef { unique: true, ..self }
    }

    /// The column is the table's primary key.
    pub fn primary_key(self) -> (res: ColumnDef)
        ensures
            res@ == (ColumnDefView { primary_key: true, ..self@ }),
    {
        ColumnDef { primary_key: true, ..self }
    }

    /// The database numbers new rows itself.
    pub fn auto_increment(self) -> (res: ColumnDef)
        ensures
            res@ == (ColumnDefView { auto_increment: true, ..self@ }),
    {
        ColumnDef { auto_increment: true, ..self }
    }

    /// New rows get this text unless given another.
    pub fn default_text(self, text: &'static str) -> (res: ColumnDef)
        ensures
            res@ == (ColumnDefView { default_text: Some(text@), ..self@ }),
    {
        ColumnDef { default_text: Some(text), ..self }
    }
}

pub open spec fn foreign_key_spec(
    name: Seq<char>,
    from_column: Seq<char>,
    to_table: Seq<char>,
    to_column: Seq<char>,
) -> ForeignKeyView {
    ForeignKeyView { name, from_column, to_table, to_column, on_delete_restrict: false }
}

/// A foreign key from `from_column` to `to_table.to_column`.
pub fn foreign_key(
    name: &'static str,
    from_column: &'static str,
    to_table: &'static str,
    to_column: &'static str,
) -> (res: ForeignKeyDef)
    ensures
        res@ == foreign_key_spec(name@, from_column@, to_table@, to_column@),
{
    ForeignKeyDef { name, from_column, to_table, to_column, on_delete_restrict: false }
}

impl ForeignKeyDef {
    /// Deleting a referenced row is refused.
    pub fn on_delete_restrict(self) -> (res: ForeignKeyDef)
        ensures
            res@ == (ForeignKeyView { on_delete_restrict: true, ..self@ }),
    {
        ForeignKeyDef { on_delete_restrict: true, ..self }
    }
}

// ---------------------------------------------------------------------------
// What a plan does to the schema.

/// The schema as far as migrations see it: each table with the names of its
/// columns, and each index with the table it is on.
pub struct SchemaModel {
    pub tables: Map<Seq<char>, Set<Seq<char>>>,
    pub indexes: Map<Seq<char>, Seq<char>>,
}

impl SchemaModel {
    /// Every index is on an existing table.
    pub open spec fn well_formed(self) -> bool {
        forall|name: Seq<char>|
            #[trigger] self.indexes.contains_key(name) ==> self.tables.contains_key(self.indexes[name])
    }
}

pub open spec fn column_names(columns: Seq<ColumnDefView>) -> Set<Seq<char>> {
    Set::new(|name: Seq<char>| exists|i: int| 0 <= i < columns.len() && columns[i].name == name)
}

/// The indexes that are not on `table`.
pub open spec fn indexes_off(indexes: Map<Seq<char>, Seq<char>>, table: Seq<char>) -> Map<
    Seq<char>,
    Seq<char>,
> {
    indexes.restrict(indexes.dom().filter(|name: Seq<char>| indexes[name] != table))
}

/// The schema after one operation, or `None` when the database refuses it.
/// Dropping a table drops its indexes; foreign keys are not followed.
pub open spec fn apply_op(s: SchemaModel, op: SchemaOpView) -> Option<SchemaModel> {
    match op {
        SchemaOpView::CreateTable { table, if_not_exists, columns, foreign_keys } => {
            if s.tables.contains_key(table) {
                if if_not_exists { Some(s) } else { None }
            } else {
                Some(SchemaModel { tables: s.tables.insert(table, column_names(columns)), ..s })
            }
        },
        SchemaOpView::DropTable { table, if_exists } => {
            if !s.tables.contains_key(table) {
                if if_exists { Some(s) } else { None }
            } else {
                Some(SchemaModel { tables: s.tables.remove(table), indexes: indexes_off(s.indexes, table) })
            }
        },
        SchemaOpView::CreateIndex { name, table, column, if_not_exists } => {
            if !s.tables.contains_key(table) {
                None
            } else if s.indexes.contains_key(name) {
                if if_not_exists { Some(s) } else { None }
            } else {
                Some(SchemaModel { indexes: s.indexes.insert(name, table), ..s })
            }
        },
        SchemaOpView::CreateIndexSql { name, table, sql } => {
            if !s.tables.contains_key(table) {
                None
            } else if s.indexes.contains_key(name) {
                Some(s)
            } else {
                Some(SchemaModel { indexes: s.indexes.insert(name, table), ..s })
            }
        },
        SchemaOpView::DropIndex { name, if_exists } => {
            if !s.indexes.contains_key(name) {
                if if_exists { Some(s) } else { None }
            } else {
                Some(SchemaModel { indexes: s.indexes.remove(name), ..s })
            }
        },
        SchemaOpView::AddColumn { table, column } => {
            if !s.tables.contains_key(table) {
                None
            } else {
                Some(SchemaModel { tables: s.tables.insert(table, s.tables[table].insert(column.name)), ..s })
            }
        },
        SchemaOpView::DropColumn { table, column } => {
            if !s.tables.contains_key(table) || !s.tables[table].contains(column) {
                None
            } else {
                Some(SchemaModel { tables: s.tables.insert(table, s.tables[table].remove(column)), ..s })
            }
        },
        SchemaOpView::ExecuteSql { sql } => Some(s),
    }
}

/// The schema after a plan, or `None` when the database refuses a step.
pub open spec fn apply_ops(s: SchemaModel, ops: Seq<SchemaOpView>) -> Option<SchemaModel>
    decreases ops.len(),
{
    if ops.len() == 0 {
        Some(s)
    } else {
        match apply_op(s, ops[0]) {
            None => None,
            Some(next) => apply_ops(next, ops.drop_first()),
        }
    }
}

/// Dropping a table that a plan had just created, with no index left on it,
/// gives back the schema from before.
pub proof fn lemma_drop_created_table(
    s: SchemaModel,
    table: Seq<char>,
    columns: Set<Seq<char>>,
    if_exists: bool,
)
    requires
        s.well_formed(),
        !s.tables.contains_key(table),
    ensures
        apply_op(
            SchemaModel { tables: s.tables.insert(table, columns), ..s },
            SchemaOpView::DropTable { table, if_exists },
        ) == Some(s),
{
    let with = SchemaModel { tables: s.tables.insert(table, columns), ..s };
    let after = SchemaModel { tables: with.tables.remove(table), indexes: indexes_off(with.indexes, table) };
    assert(after.tables =~= s.tables);
    assert forall|name: Seq<char>| s.indexes.contains_key(name) implies s.indexes[name] != table by {
        assert(s.tables.contains_key(s.indexes[name]));
    }
    assert(after.indexes =~= s.indexes);
}

/// Dropping an index that a plan had just created gives back the schema
/// from before.
pub proof fn lemma_drop_created_index(s: SchemaModel, name: Seq<char>, table: Seq<char>, if_exists: bool)
    requires
        !s.indexes.contains_key(name),
    ensures
        apply_op(
            SchemaModel { indexes: s.indexes.insert(name, table), ..s },
            SchemaOpView::DropIndex { name, if_exists },
        ) == Some(s),
{
    let with = SchemaModel { indexes: s.indexes.insert(name, table), ..s };
    assert(with.indexes.remove(name) =~= s.indexes);
}

/// A step that only adds: it creates a table or an index where none exists
/// yet, adds a column unless the table has it, or changes only data.
pub open spec fn only_adds(op: SchemaOpView) -> bool {
    match op {
        SchemaOpView::CreateTable { if_not_exists, .. } => if_not_exists,
        SchemaOpView::CreateIndex { if_not_exists, .. } => if_not_exists,
        SchemaOpView::CreateIndexSql { .. } => true,
        SchemaOpView::AddColumn { .. } => true,
        SchemaOpView::ExecuteSql { .. } => true,
        _ => false,
    }
}

/// Every step of the plan only adds.
pub open spec fn plan_only_adds(ops: Seq<SchemaOpView>) -> bool {
    forall|i: int| 0 <= i < ops.len() ==> only_adds(#[trigger] ops[i])
}

/// `b` has every table, column and index that `a` has.
pub open spec fn extends(a: SchemaModel, b: SchemaModel) -> bool {
    &&& forall|t: Seq<char>|
        #[trigger] a.tables.contains_key(t) ==> b.tables.contains_key(t) && a.tables[t].subset_of(
            b.tables[t],
        )
    &&& forall|n: Seq<char>| #[trigger] a.indexes.contains_key(n) ==> b.indexes.contains_key(n)
}

proof fn lemma_extends_transitive(a: SchemaModel, b: SchemaModel, c: SchemaModel)
    requires
        extends(a, b),
        extends(b, c),
    ensures
        extends(a, c),
{
    assert forall|t: Seq<char>| #[trigger] a.tables.contains_key(t) implies c.tables.contains_key(t)
        && a.tables[t].subset_of(c.tables[t]) by {
        assert(b.tables.contains_key(t));
        assert forall|x: Seq<char>| a.tables[t].contains(x) implies c.tables[t].contains(x) by {
            assert(b.tables[t].contains(x));
        }
    }
    assert forall|n: Seq<char>| #[trigger] a.indexes.contains_key(n) implies c.indexes.contains_key(n) by {
        assert(b.indexes.contains_key(n));
    }
}

/// A step that only adds, once it went through, leaves every schema that has
/// what it made as it is.
proof fn lemma_step_again(s: SchemaModel, op: SchemaOpView, r: SchemaModel, t: SchemaModel)
    requires
        only_adds(op),
        apply_op(s, op) == Some(r),
        extends(r, t),
    ensures
        extends(s, r),
        apply_op(t, op) == Some(t),
{
    match op {
        SchemaOpView::CreateTable { table, if_not_exists, columns, foreign_keys } => {
            assert(r.tables.contains_key(table));
            assert forall|x: Seq<char>| #[trigger] s.tables.contains_key(x) implies r.tables.contains_key(x)
                && s.tables[x].subset_of(r.tables[x]) by {
                if x == table {
                    assert(r == s);
                }
            }
        },
        SchemaOpView::CreateIndex { name, table, column, if_not_exists } => {
            assert(r.tables.contains_key(table));
            assert(r.indexes.contains_key(name));
        },
        SchemaOpView::CreateIndexSql { name, table, sql } => {
            assert(r.tables.contains_key(table));
            assert(r.indexes.contains_key(name));
        },
        SchemaOpView::AddColumn { table, column } => {
            assert(r.tables.contains_key(table));
            assert(r.tables[table].contains(column.name));
            assert(t.tables[table].contains(column.name));
            assert(t.tables[table].insert(column.name) =~= t.tables[table]);
            assert(t.tables.insert(table, t.tables[table].insert(column.name)) =~= t.tables);
            assert forall|x: Seq<char>| #[trigger] s.tables.contains_key(x) implies r.tables.contains_key(x)
                && s.tables[x].subset_of(r.tables[x]) by {}
        },
        SchemaOpView::ExecuteSql { sql } => {},
        _ => {},
    }
}

/// A plan whose steps only add, once it went through, changes nothing when
/// run again, and what it ran on is part of what it left.
pub proof fn lemma_plan_again(s: SchemaModel, ops: Seq<SchemaOpView>, t: SchemaModel)
    requires
        plan_only_adds(ops),
        apply_ops(s, ops) == Some(t),
    ensures
        extends(s, t),
        apply_ops(t, ops) == Some(t),
    decreases ops.len(),
{
    if ops.len() == 0 {
        assert(extends(s, t));
    } else {
        let r = apply_op(s, ops[0])->0;
        assert(only_adds(ops[0]));
        assert(plan_only_adds(ops.drop_first())) by {
            assert forall|i: int| 0 <= i < ops.drop_first().len() implies only_adds(
                #[trigger] ops.drop_first()[i],
            ) by {
                assert(ops.drop_first()[i] == ops[i + 1]);
            }
        }
        lemma_plan_again(r, ops.drop_first(), t);
        lemma_step_again(s, ops[0], r, t);
        lemma_extends_transitive(s, r, t);
    }
}

// ---------------------------------------------------------------------------
// The registered migrations.

/// A migration that the migrator runs.
#[derive(Clone, Copy, Debug, PartialEq, Eq, Structural)]
pub enum RegisteredMigration {
    CreateUsersTable,
    CreateUserRelationsTable,
    CreateTicketsTable,
    CreateDiariesTable,
    CreateDiaryTagsTable,
    CreateWebPushSubscriptionsTable,
    CreateWishesTable,
}

impl RegisteredMigration {
    pub open spec fn name_text(self) -> Seq<char> {
        match self {
            RegisteredMigration::CreateUsersTable => "m20250507_000001_create_users_table"@,
            RegisteredMigration::CreateUserRelationsTable => "m20250507_000002_create_user_relations_table"@,
            RegisteredMigration::CreateTicketsTable => "m20250507_000003_create_tickets_table"@,
            RegisteredMigration::CreateDiariesTable => "m20250507_000004_create_diaries_table"@,
            RegisteredMigration::CreateDiaryTagsTable => "m20250507_000005_create_diary_tags_table"@,
            RegisteredMigration::CreateWebPushSubscriptionsTable => "m20260301_000001_create_web_push_subscriptions_table"@,
            RegisteredMigration::CreateWishesTable => "m20260330_000001_create_wishes_table"@,
        }
    }

    pub open spec fn up_plan(self) -> Seq<SchemaOpView> {
        match self {
            RegisteredMigration::CreateUsersTable => m20250507_000001_create_users_table::Migration::up_plan(),
            RegisteredMigration::CreateUserRelationsTable => m20250507_000002_create_user_relations_table::Migration::up_plan(),
            RegisteredMigration::CreateTicketsTable => m20250507_000003_create_tickets_table::Migration::up_plan(),
            RegisteredMigration::CreateDiariesTable => m20250507_000004_create_diaries_table::Migration::up_plan(),
            RegisteredMigration::CreateDiaryTagsTable => m20250507_000005_create_diary_tags_table::Migration::up_plan(),
            RegisteredMigration::CreateWebPushSubscriptionsTable => m20260301_000001_create_web_push_subscriptions_table::Migration::up_plan(),
            RegisteredMigration::CreateWishesTable => m20260330_000001_create_wishes_table::Migration::up_plan(),
        }
    }

    pub open spec fn down_plan(self) -> Seq<SchemaOpView> {
        match self {
            RegisteredMigration::CreateUsersTable => m20250507_000001_create_users_table::Migration::down_plan(),
            RegisteredMigration::CreateUserRelationsTable => m20250507_000002_create_user_relations_table::Migration::down_plan(),
            RegisteredMigration::CreateTicketsTable => m20250507_000003_create_tickets_table::Migration::down_plan(),
            RegisteredMigration::CreateDiariesTable => m20250507_000004_create_diaries_table::Migration::down_plan(),
            RegisteredMigration::CreateDiaryTagsTable => m20250507_000005_create_diary_tags_table::Migration::down_plan(),
            RegisteredMigration::CreateWebPushSubscriptionsTable => m20260301_000001_create_web_push_subscriptions_table::Migration::down_plan(),
            RegisteredMigration::CreateWishesTable => m20260330_000001_create_wishes_table::Migration::down_plan(),
        }
    }

    /// The migration's name, which the migration table records.
    pub fn name(&self) -> (res: &'static str)
        ensures
            res@ == self.name_text(),
    {
        match self {
            RegisteredMigration::CreateUsersTable => m20250507_000001_create_users_table::Migration.name(),
            RegisteredMigration::CreateUserRelationsTable => m20250507_000002_create_user_relations_table::Migration.name(),
            RegisteredMigration::CreateTicketsTable => m20250507_000003_create_tickets_table::Migration.name(),
            RegisteredMigration::CreateDiariesTable => m20250507_000004_create_diaries_table::Migration.name(),
            RegisteredMigration::CreateDiaryTagsTable => m20250507_000005_create_diary_tags_table::Migration.name(),
            RegisteredMigration::CreateWebPushSubscriptionsTable => m20260301_000001_create_web_push_subscriptions_table::Migration.name(),
            RegisteredMigration::CreateWishesTable => m20260330_000001_create_wishes_table::Migration.name(),
        }
    }

    /// The steps that apply the migration.
    pub fn up(&self) -> (res: Vec<SchemaOp>)
        ensures
            ops_view(res@) == self.up_plan(),
    {
        match self {
            RegisteredMigration::CreateUsersTable => m20250507_000001_create_users_table::Migration.up(),
            RegisteredMigration::CreateUserRelationsTable => m20250507_000002_create_user_relations_table::Migration.up(),
            RegisteredMigration::CreateTicketsTable => m20250507_000003_create_tickets_table::Migration.up(),
            RegisteredMigration::CreateDiariesTable => m20250507_000004_create_diaries_table::Migration.up(),
            RegisteredMigration::CreateDiaryTagsTable => m20250507_000005_create_diary_tags_table::Migration.up(),
            RegisteredMigration::CreateWebPushSubscriptionsTable => m20260301_000001_create_web_push_subscriptions_table::Migration.up(),
            RegisteredMigration::CreateWishesTable => m20260330_000001_create_wishes_table::Migration.up(),
        }
    }

    /// The steps that undo the migration.
    pub fn down(&self) -> (res: Vec<SchemaOp>)
        ensures
            ops_view(res@) == self.down_plan(),
    {
        match self {
            RegisteredMigration::CreateUsersTable => m20250507_000001_create_users_table::Migration.down(),
            RegisteredMigration::CreateUserRelationsTable => m20250507_000002_create_user_relations_table::Migration.down(),
            RegisteredMigration::CreateTicketsTable => m20250507_000003_create_tickets_table::Migration.down(),
            RegisteredMigration::CreateDiariesTable => m20250507_000004_create_diaries_table::Migration.down(),
            RegisteredMigration::CreateDiaryTagsTable => m20250507_000005_create_diary_tags_table::Migration.down(),
            RegisteredMigration::CreateWebPushSubscriptionsTable => m20260301_000001_create_web_push_subscriptions_table::Migration.down(),
            RegisteredMigration::CreateWishesTable => m20260330_000001_create_wishes_table::Migration.down(),
        }
    }
}

/// Runs the registered migrations.
pub struct Migrator;

pub open spec fn registered_migrations() -> Seq<RegisteredMigration> {
    seq![
        RegisteredMigration::CreateUsersTable,
        RegisteredMigration::CreateUserRelationsTable,
        RegisteredMigration::CreateTicketsTable,
        RegisteredMigration::CreateDiariesTable,
        RegisteredMigration::CreateDiaryTagsTable,
        RegisteredMigration::CreateWebPushSubscriptionsTable,
        RegisteredMigration::CreateWishesTable,
    ]
}

impl Migrator {
    /// The registered migrations, in the order in which they are applied.
    pub fn migrations() -> (res: Vec<RegisteredMigration>)
        ensures
            res@ == registered_migrations(),
    {
        let res = vec![
            RegisteredMigration::CreateUsersTable,
            RegisteredMigration::CreateUserRelationsTable,
            RegisteredMigration::CreateTicketsTable,
            RegisteredMigration::CreateDiariesTable,
            RegisteredMigration::CreateDiaryTagsTable,
            RegisteredMigration::CreateWebPushSubscriptionsTable,
            RegisteredMigration::CreateWishesTable,
        ];
        assert(res@ =~= registered_migrations());
        res
    }
}

/// The schema of a database with no table and no index.
pub open spec fn empty_schema() -> SchemaModel {
    SchemaModel { tables: Map::empty(), indexes: Map::empty() }
}

/// The schema after the `up` plans of `ms` in order, or `None` when the
/// database refuses a step.
pub open spec fn apply_migrations(s: SchemaModel, ms: Seq<RegisteredMigration>) -> Option<SchemaModel>
    decreases ms.len(),
{
    if ms.len() == 0 {
        Some(s)
    } else {
        match apply_ops(s, ms[0].up_plan()) {
            None => None,
            Some(next) => apply_migrations(next, ms.drop_first()),
        }
    }
}

/// The schema after the `down` plans of `ms` from the last to the first, or
/// `None` when the database refuses a step.
pub open spec fn revert_migrations(s: SchemaModel, ms: Seq<RegisteredMigration>) -> Option<SchemaModel>
    decreases ms.len(),
{
    if ms.len() == 0 {
        Some(s)
    } else {
        match apply_ops(s, ms.last().down_plan()) {
            None => None,
            Some(next) => revert_migrations(next, ms.drop_last()),
        }
    }
}

/// On a fresh database the registered migrations all apply, in their order;
/// undoing them from the last to the first leaves the database empty again.
pub proof fn law_registered_migrations_apply_and_revert()
    ensures
        apply_migrations(empty_schema(), registered_migrations()) matches Some(after) && revert_migrations(
            after,
            registered_migrations(),
        ) == Some(empty_schema()),
{
    reveal_strlit("users_user");
    reveal_strlit("user_relations_userrelation");
    reveal_strlit("tickets_ticket");
    reveal_strlit("diaries_diary");
    reveal_strlit("diaries_diarytag");
    reveal_strlit("diaries_diarytagrelation");
    reveal_strlit("web_push_subscription");
    reveal_strlit("wish");
    reveal_strlit("users_user_email_243f6e77_like");
    reveal_strlit("user_relations_userrelation2_user_1_id_b0a40a01");
    reveal_strlit("user_relations_userrelation2_user_2_id_7aacb430");
    reveal_strlit("tickets_ticket_giving_user_id_d60738e9");
    reveal_strlit("tickets_ticket_user_relation_2_id_e828e9ed");
    reveal_strlit("diaries_diary_user_relation_2_id_9559c671");
    reveal_strlit("diaries_diarytag_user_relation_2_id_2b103aee");
    reveal_strlit("diaries_diarytagrelation_diary_id_6967acd7");
    reveal_strlit("diaries_diarytagrelation_tag_master_id_9023d046");
    reveal_strlit("web_push_subscription_user_id_index");
    reveal_strlit("wish_ticket_id");
    reveal_strlit("wish_user_relation_id");

    let table_names = seq![
        "users_user"@,
        "user_relations_userrelation"@,
        "tickets_ticket"@,
        "diaries_diary"@,
        "diaries_diarytag"@,
        "diaries_diarytagrelation"@,
        "web_push_subscription"@,
        "wish"@,
    ];
    assert forall|i: int, j: int| 0 <= i < j < 8 implies table_names[i] != table_names[j] by {
        assert(table_names[i].len() != table_names[j].len());
    }
    let index_names = seq![
        "users_user_email_243f6e77_like"@,
        "user_relations_userrelation2_user_1_id_b0a40a01"@,
        "user_relations_userrelation2_user_2_id_7aacb430"@,
        "tickets_ticket_giving_user_id_d60738e9"@,
        "tickets_ticket_user_relation_2_id_e828e9ed"@,
        "diaries_diary_user_relation_2_id_9559c671"@,
        "diaries_diarytag_user_relation_2_id_2b103aee"@,
        "diaries_diarytagrelation_diary_id_6967acd7"@,
        "diaries_diarytagrelation_tag_master_id_9023d046"@,
        "web_push_subscription_user_id_index"@,
        "wish_ticket_id"@,
        "wish_user_relation_id"@,
    ];
    // Names of equal length differ at the position given.
    assert forall|i: int, j: int| 0 <= i < j < 12 implies index_names[i] != index_names[j] by {
        if index_names[i].len() == index_names[j].len() {
            if i == 1 && j == 2 {
                assert(index_names[i][34] != index_names[j][34]);
            } else {
                assert(index_names[i][0] != index_names[j][0]);
            }
        }
    }
    let s0 = empty_schema();
    m20250507_000001_create_users_table::law_down_undoes_up(s0);
    let s1 = m20250507_000001_create_users_table::Migration::applied(s0);

    m20250507_000002_create_user_relations_table::law_down_undoes_up(s1);
    let s2 = m20250507_000002_create_user_relations_table::Migration::applied(s1);

    m20250507_000003_create_tickets_table::law_down_undoes_up(s2);
    let s3 = m20250507_000003_create_tickets_table::Migration::applied(s2);

    m20250507_000004_create_diaries_table::law_down_undoes_up(s3);
    let s4 = m20250507_000004_create_diaries_table::Migration::applied(s3);

    m20250507_000005_create_diary_tags_table::law_down_undoes_up(s4);
    let s5 = m20250507_000005_create_diary_tags_table::Migration::applied(s4);

    m20260301_000001_create_web_push_subscriptions_table::law_down_undoes_up(s5);
    let s6 = m20260301_000001_create_web_push_subscriptions_table::Migration::applied(s5);

    let tickets = "tickets_ticket"@;
    let ticket_columns = m20250507_000003_create_tickets_table::ticket_columns();
    assert(s6.tables[tickets] == column_names(ticket_columns));
    assert(ticket_columns[4].name == "use_date"@);
    assert(ticket_columns[3].name == "use_description"@);
    assert(column_names(ticket_columns).contains("use_date"@));
    assert(column_names(ticket_columns).contains("use_description"@));
    m20260330_000001_create_wishes_table::law_down_undoes_up(s6);
    let s7 = m20260330_000001_create_wishes_table::Migration::applied(s6);

    let ms = registered_migrations();
    reveal_with_fuel(apply_migrations, 8);
    reveal_with_fuel(revert_migrations, 8);
    assert(ms.drop_first() =~= ms.subrange(1, 7));
    assert(ms.subrange(1, 7).drop_first() =~= ms.subrange(2, 7));
    assert(ms.subrange(2, 7).drop_first() =~= ms.subrange(3, 7));
    assert(ms.subrange(3, 7).drop_first() =~= ms.subrange(4, 7));
    assert(ms.subrange(4, 7).drop_first() =~= ms.subrange(5, 7));
    assert(ms.subrange(5, 7).drop_first() =~= ms.subrange(6, 7));
    assert(ms.subrange(6, 7).drop_first() =~= Seq::<RegisteredMigration>::empty());
    assert(apply_migrations(s6, ms.subrange(6, 7)) == Some(s7));
    assert(apply_migrations(s0, ms) == Some(s7));
    assert(ms.drop_last() =~= ms.subrange(0, 6));
    assert(ms.subrange(0, 6).drop_last() =~= ms.subrange(0, 5));
    assert(ms.subrange(0, 5).drop_last() =~= ms.subrange(0, 4));
    assert(ms.subrange(0, 4).drop_last() =~= ms.subrange(0, 3));
    assert(ms.subrange(0, 3).drop_last() =~= ms.subrange(0, 2));
    assert(ms.subrange(0, 2).drop_last() =~= ms.subrange(0, 1));
    assert(ms.subrange(0, 1).drop_last() =~= Seq::<RegisteredMigration>::empty());
    assert(revert_migrations(s1, ms.subrange(0, 1)) == Some(s0));
    assert(revert_migrations(s7, ms) == Some(s0));
}

} // verus!
