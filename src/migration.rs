//! The schema catalog: an ordered list of reversible revisions whose table
//! definitions are plain data, executed against the store by the caller.

use vstd::prelude::*;

pub mod m20250604_064814_create_table_daily_checkins;
pub mod m20250604_065127_create_table_daily_micro_tasks;

use m20250604_064814_create_table_daily_checkins as create_checkins;
use m20250604_065127_create_table_daily_micro_tasks as create_micro_tasks;

verus! {

/// Storage type of a column.
#[derive(Debug, Clone, Copy, PartialEq, Eq, Structural)]
pub enum ColumnType {
    /// Integer primary key assigned by the engine.
    AutoIncrementKey,
    String,
    Text,
    Integer,
    Date,
    TimestampWithTimeZone,
}

/// Action of the engine on the referencing rows when a referenced row is
/// deleted or its key changes.
#[derive(Debug, Clone, Copy, PartialEq, Eq, Structural)]
pub enum ForeignKeyAction {
    Cascade,
    Restrict,
    SetNull,
    NoAction,
}

#[derive(Debug, Clone)]
pub struct ColumnDef {
    pub name: String,
    pub column_type: ColumnType,
    pub nullable: bool,
    pub unique: bool,
    pub default_value: Option<i64>,
}

#[derive(Debug, Clone)]
pub struct ForeignKeyDef {
    pub name: String,
    pub from_table: String,
    pub from_column: String,
    pub to_table: String,
    pub to_column: String,
    pub on_delete: ForeignKeyAction,
    pub on_update: ForeignKeyAction,
}

/// An index over one column. Where `only_where_null` names a column, the
/// index covers only the rows in which that column is null: a unique index of
/// that kind keeps the column unique among those rows alone.
#[derive(Debug, Clone)]
pub struct IndexDef {
    pub name: String,
    pub column: String,
    pub unique: bool,
    pub only_where_null: Option<String>,
}

/// A table to create, with its indexes, only where no table of that name
/// exists yet.
#[derive(Debug, Clone)]
pub struct TableDef {
    pub name: String,
    pub columns: Vec<ColumnDef>,
    pub foreign_keys: Vec<ForeignKeyDef>,
    pub indexes: Vec<IndexDef>,
}

/// One direction of a revision.
#[derive(Debug, Clone)]
pub enum SchemaChange {
    CreateTable(TableDef),
    DropTable(String),
}

/// A revision of the schema: its durable name and its two directions.
#[derive(Debug, Clone)]
pub struct Revision {
    pub name: String,
    pub up: SchemaChange,
    pub down: SchemaChange,
}

/// Column of a table, as a mathematical value.
pub struct ColumnSpec {
    pub name: Seq<char>,
    pub column_type: ColumnType,
    pub nullable: bool,
    pub unique: bool,
    pub default_value: Option<i64>,
}

/// Foreign key, as a mathematical value.
pub struct ForeignKeySpec {
    pub name: Seq<char>,
    pub from_table: Seq<char>,
    pub from_column: Seq<char>,
    pub to_table: Seq<char>,
    pub to_column: Seq<char>,
    pub on_delete: ForeignKeyAction,
    pub on_update: ForeignKeyAction,
}

/// Index, as a mathematical value.
pub struct IndexSpec {
    pub name: Seq<char>,
    pub column: Seq<char>,
    pub unique: bool,
    pub only_where_null: Option<Seq<char>>,
}

/// Table, as a mathematical value.
pub struct TableSpec {
    pub name: Seq<char>,
    pub columns: Seq<ColumnSpec>,
    pub foreign_keys: Seq<ForeignKeySpec>,
    pub indexes: Seq<IndexSpec>,
}

pub enum ChangeSpec {
    CreateTable(TableSpec),
    DropTable(Seq<char>),
}

impl View for ColumnDef {
    type V = ColumnSpec;

    open spec fn view(&self) -> ColumnSpec {
        ColumnSpec {
            name: self.name@,
            column_type: self.column_type,
            nullable: self.nullable,
            unique: self.unique,
            default_value: self.default_value,
        }
    }
}

impl View for ForeignKeyDef {
    type V = ForeignKeySpec;

    open spec fn view(&self) -> ForeignKeySpec {
        ForeignKeySpec {
            name: self.name@,
            from_table: self.from_table@,
            from_column: self.from_column@,
            to_table: self.to_table@,
            to_column: self.to_column@,
            on_delete: self.on_delete,
            on_update: self.on_update,
        }
    }
}

impl View for IndexDef {
    type V = IndexSpec;

    open spec fn view(&self) -> IndexSpec {
        IndexSpec {
            name: self.name@,
            column: self.column@,
            unique: self.unique,
            only_where_null: match self.only_where_null {
                Some(c) => Some(c@),
                None => None,
            },
        }
    }
}

impl View for TableDef {
    type V = TableSpec;

    open spec fn view(&self) -> TableSpec {
        TableSpec {
            name: self.name@,
            columns: self.columns@.map_values(|c: ColumnDef| c@),
            foreign_keys: self.foreign_keys@.map_values(|k: ForeignKeyDef| k@),
            indexes: self.indexes@.map_values(|i: IndexDef| i@),
        }
    }
}

impl View for SchemaChange {
    type V = ChangeSpec;

    open spec fn view(&self) -> ChangeSpec {
        match self {
            SchemaChange::CreateTable(t) => ChangeSpec::CreateTable(t@),
            SchemaChange::DropTable(n) => ChangeSpec::DropTable(n@),
        }
    }
}

/// A column of the given type; `nullable` and `unique` as given, no default.
pub fn column(name: &str, column_type: ColumnType, nullable: bool, unique: bool) -> (r: ColumnDef)
    ensures
        r@ == (ColumnSpec { name: name@, column_type, nullable, unique, default_value: None }),
{
    ColumnDef { name: name.to_string(), column_type, nullable, unique, default_value: None }
}

/// The schema of a store: its tables by name.
pub type SchemaState = Map<Seq<char>, TableSpec>;

/// The schema after one change: a table is created only where its name is
/// free; dropping removes the table of that name.
pub open spec fn apply_change(s: SchemaState, c: ChangeSpec) -> SchemaState {
    match c {
        ChangeSpec::CreateTable(t) => if s.contains_key(t.name) {
            s
        } else {
            s.insert(t.name, t)
        },
        ChangeSpec::DropTable(n) => s.remove(n),
    }
}

/// The schema after applying `ups` in order.
pub open spec fn apply_all(s: SchemaState, ups: Seq<ChangeSpec>) -> SchemaState
    decreases ups.len(),
{
    if ups.len() == 0 {
        s
    } else {
        apply_all(apply_change(s, ups[0]), ups.drop_first())
    }
}

/// The names of the catalog's revisions, in order.
pub open spec fn revision_names() -> Seq<Seq<char>> {
    seq![create_checkins::migration_name(), create_micro_tasks::migration_name()]
}

/// The forward changes of the catalog, in order.
pub open spec fn catalog_ups() -> Seq<ChangeSpec> {
    seq![
        ChangeSpec::CreateTable(create_checkins::checkins_table()),
        ChangeSpec::CreateTable(create_micro_tasks::micro_tasks_table()),
    ]
}

/// The backward changes of the catalog, in the order they are undone: last
/// revision first.
pub open spec fn catalog_downs() -> Seq<ChangeSpec> {
    seq![
        ChangeSpec::DropTable(create_micro_tasks::table_name()),
        ChangeSpec::DropTable(create_checkins::table_name()),
    ]
}

/// The schema that the whole catalog yields: the check-in and micro-task tables.
pub open spec fn current_schema() -> SchemaState {
    map![
        create_checkins::table_name() => create_checkins::checkins_table(),
        create_micro_tasks::table_name() => create_micro_tasks::micro_tasks_table(),
    ]
}

/// Every foreign key of every table of `s` starts at a column of its own table
/// and ends at a unique, mandatory column of a table of `s`.
pub open spec fn references_resolve(s: SchemaState) -> bool {
    forall|t: Seq<char>, k: int|
        #![trigger s[t].foreign_keys[k]]
        s.contains_key(t) && 0 <= k < s[t].foreign_keys.len() ==> {
            let fk = s[t].foreign_keys[k];
            &&& fk.from_table == t
            &&& exists|i: int|
                0 <= i < s[t].columns.len() && (#[trigger] s[t].columns[i]).name == fk.from_column
            &&& s.contains_key(fk.to_table)
            &&& exists|j: int|
                0 <= j < s[fk.to_table].columns.len() && (#[trigger] s[fk.to_table].columns[j]).name
                    == fk.to_column && s[fk.to_table].columns[j].unique
                    && !s[fk.to_table].columns[j].nullable
        }
}

/// The catalog, applied in order to an empty store, yields exactly the current
/// schema, in which every reference resolves and the check-in date is unique
/// among live rows only; applying it again changes nothing; undoing it last
/// revision first leaves an empty store.
pub proof fn lemma_catalog_round_trip()
    ensures
        apply_all(Map::empty(), catalog_ups()) == current_schema(),
        references_resolve(current_schema()),
        current_schema()[create_checkins::table_name()].indexes == seq![
            create_checkins::live_date_index(),
        ],
        apply_all(current_schema(), catalog_ups()) == current_schema(),
        apply_all(current_schema(), catalog_downs()) == Map::<Seq<char>, TableSpec>::empty(),
{
    reveal_with_fuel(apply_all, 3);
    let n1 = create_checkins::table_name();
    let n2 = create_micro_tasks::table_name();
    reveal_strlit("daily_checkins");
    reveal_strlit("micro_tasks");
    assert(n1[0] != n2[0]);
    assert(apply_all(Map::empty(), catalog_ups()) =~= current_schema());
    let s = current_schema();
    assert forall|t: Seq<char>, k: int|
        #![trigger s[t].foreign_keys[k]]
        s.contains_key(t) && 0 <= k < s[t].foreign_keys.len() implies {
            let fk = s[t].foreign_keys[k];
            &&& fk.from_table == t
            &&& exists|i: int|
                0 <= i < s[t].columns.len() && (#[trigger] s[t].columns[i]).name == fk.from_column
            &&& s.contains_key(fk.to_table)
            &&& exists|j: int|
                0 <= j < s[fk.to_table].columns.len() && (#[trigger] s[fk.to_table].columns[j]).name
                    == fk.to_column && s[fk.to_table].columns[j].unique
                    && !s[fk.to_table].columns[j].nullable
        } by {
        if t == n1 {
            assert(s[t].foreign_keys.len() == 0);
        } else {
            assert(t == n2);
            assert(k == 0);
            reveal_strlit("micro_tasks");
            assert(s[t].columns[2].name == s[t].foreign_keys[0].from_column);
            let target = s[t].foreign_keys[0].to_table;
            assert(target == n1);
            assert(s[target].columns[1].name == s[t].foreign_keys[0].to_column);
        }
    }
    assert(apply_all(current_schema(), catalog_ups()) =~= current_schema());
    assert(apply_all(current_schema(), catalog_downs()) =~= Map::<Seq<char>, TableSpec>::empty());
}

/// The application of the catalog's revisions in order.
pub struct Migrator;

impl Migrator {
    /// The catalog's revisions, oldest first.
    pub fn migrations() -> (r: Vec<Revision>)
        ensures
            r@.len() == 2,
            r@.map_values(|v: Revision| v.name@) == revision_names(),
            r@.map_values(|v: Revision| v.up@) == catalog_ups(),
            r@.len() == catalog_downs().len(),
            forall|i: int| 0 <= i < r@.len() ==> #[trigger] r@[i].down@ == catalog_downs()[r@.len() - 1 - i],
    {
        let m1 = create_checkins::Migration;
        let m2 = create_micro_tasks::Migration;
        let mut r: Vec<Revision> = Vec::new();
        r.push(Revision { name: m1.name(), up: m1.up(), down: m1.down() });
        r.push(Revision { name: m2.name(), up: m2.up(), down: m2.down() });
        assert(r@.map_values(|v: Revision| v.name@) =~= revision_names());
        assert(r@.map_values(|v: Revision| v.up@) =~= catalog_ups());
        r
    }
}

} // verus!
