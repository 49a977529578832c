//! Revision that creates the check-in table: an engine key for internal use,
//! a unique external identity, a date that is unique among live rows (those
//! whose deletion time is null), and audit timestamps.

use vstd::prelude::*;
use crate::migration::{
    column, ChangeSpec, ColumnSpec, ColumnType, IndexDef, IndexSpec, SchemaChange, TableDef, TableSpec,
};

verus! {

/// Identifiers of the check-in table and its columns.
#[derive(Debug, Clone, Copy, PartialEq, Eq, Structural)]
pub enum DailyCheckins {
    Table,
    LocalId,
    Uuid,
    Date,
    MoodLevel,
    MoodText,
    PhysicalStateTags,
    PhysicalStateText,
    PotentialTodos,
    CreatedAt,
    UpdatedAt,
    DeletedAt,
}

impl DailyCheckins {
    pub open spec fn spec_name(self) -> Seq<char> {
        match self {
            DailyCheckins::Table => "daily_checkins"@,
            DailyCheckins::LocalId => "local_id"@,
            DailyCheckins::Uuid => "uuid"@,
            DailyCheckins::Date => "date"@,
            DailyCheckins::MoodLevel => "mood_level"@,
            DailyCheckins::MoodText => "mood_text"@,
            DailyCheckins::PhysicalStateTags => "physical_state_tags"@,
            DailyCheckins::PhysicalStateText => "physical_state_text"@,
            DailyCheckins::PotentialTodos => "potential_todos"@,
            DailyCheckins::CreatedAt => "created_at"@,
            DailyCheckins::UpdatedAt => "updated_at"@,
            DailyCheckins::DeletedAt => "deleted_at"@,
        }
    }

    /// The identifier as it stands in the store.
    pub fn name(&self) -> (r: &'static str)
        ensures
            r@ == self.spec_name(),
    {
        match self {
            DailyCheckins::Table => "daily_checkins",
            DailyCheckins::LocalId => "local_id",
            DailyCheckins::Uuid => "uuid",
            DailyCheckins::Date => "date",
            DailyCheckins::MoodLevel => "mood_level",
            DailyCheckins::MoodText => "mood_text",
            DailyCheckins::PhysicalStateTags => "physical_state_tags",
            DailyCheckins::PhysicalStateText => "physical_state_text",
            DailyCheckins::PotentialTodos => "potential_todos",
            DailyCheckins::CreatedAt => "created_at",
            DailyCheckins::UpdatedAt => "updated_at",
            DailyCheckins::DeletedAt => "deleted_at",
        }
    }
}

pub open spec fn migration_name() -> Seq<char> {
    "m20250604_064814_create_table_daily_checkins"@
}

pub open spec fn table_name() -> Seq<char> {
    DailyCheckins::Table.spec_name()
}

pub open spec fn col(
    c: DailyCheckins,
    column_type: ColumnType,
    nullable: bool,
    unique: bool,
) -> ColumnSpec {
    ColumnSpec { name: c.spec_name(), column_type, nullable, unique, default_value: None }
}

/// The check-in table of the current schema.
pub open spec fn checkins_table() -> TableSpec {
    TableSpec {
        name: table_name(),
        columns: seq![
            col(DailyCheckins::LocalId, ColumnType::AutoIncrementKey, false, false),
            col(DailyCheckins::Uuid, ColumnType::String, false, true),
            col(DailyCheckins::Date, ColumnType::Date, false, false),
            col(DailyCheckins::MoodLevel, ColumnType::Integer, false, false),
            col(DailyCheckins::MoodText, ColumnType::Text, true, false),
            col(DailyCheckins::PhysicalStateTags, ColumnType::Text, true, false),
            col(DailyCheckins::PhysicalStateText, ColumnType::Text, true, false),
            col(DailyCheckins::PotentialTodos, ColumnType::Text, true, false),
            col(DailyCheckins::CreatedAt, ColumnType::TimestampWithTimeZone, false, false),
            col(DailyCheckins::UpdatedAt, ColumnType::TimestampWithTimeZone, false, false),
            col(DailyCheckins::DeletedAt, ColumnType::TimestampWithTimeZone, true, false),
        ],
        foreign_keys: seq![],
        indexes: seq![live_date_index()],
    }
}

/// At most one live check-in per date: the date is unique among the rows
/// whose deletion time is null, so a soft-deleted row does not block its date.
pub open spec fn live_date_index() -> IndexSpec {
    IndexSpec {
        name: "idx_daily_checkins_live_date"@,
        column: DailyCheckins::Date.spec_name(),
        unique: true,
        only_where_null: Some(DailyCheckins::DeletedAt.spec_name()),
    }
}

/// The revision.
pub struct Migration;

impl Migration {
    /// The name under which the store records that the revision was applied.
    pub fn name(&self) -> (r: String)
        ensures
            r@ == migration_name(),
    {
        "m20250604_064814_create_table_daily_checkins".to_string()
    }

    /// Creates the check-in table.
    pub fn up(&self) -> (r: SchemaChange)
        ensures
            r@ == ChangeSpec::CreateTable(checkins_table()),
    {
        let mut columns: Vec<crate::migration::ColumnDef> = Vec::new();
        columns.push(column(DailyCheckins::LocalId.name(), ColumnType::AutoIncrementKey, false, false));
        columns.push(column(DailyCheckins::Uuid.name(), ColumnType::String, false, true));
        columns.push(column(DailyCheckins::Date.name(), ColumnType::Date, false, false));
        columns.push(column(DailyCheckins::MoodLevel.name(), ColumnType::Integer, false, false));
        columns.push(column(DailyCheckins::MoodText.name(), ColumnType::Text, true, false));
        columns.push(column(DailyCheckins::PhysicalStateTags.name(), ColumnType::Text, true, false));
        columns.push(column(DailyCheckins::PhysicalStateText.name(), ColumnType::Text, true, false));
        columns.push(column(DailyCheckins::PotentialTodos.name(), ColumnType::Text, true, false));
        columns.push(
            column(DailyCheckins::CreatedAt.name(), ColumnType::TimestampWithTimeZone, false, false),
        );
        columns.push(
            column(DailyCheckins::UpdatedAt.name(), ColumnType::TimestampWithTimeZone, false, false),
        );
        columns.push(
            column(DailyCheckins::DeletedAt.name(), ColumnType::TimestampWithTimeZone, true, false),
        );
        let mut indexes: Vec<IndexDef> = Vec::new();
        indexes.push(
            IndexDef {
                name: "idx_daily_checkins_live_date".to_string(),
                column: DailyCheckins::Date.name().to_string(),
                unique: true,
                only_where_null: Some(DailyCheckins::DeletedAt.name().to_string()),
            },
        );
        let t = TableDef {
            name: DailyCheckins::Table.name().to_string(),
            columns,
            foreign_keys: Vec::new(),
            indexes,
        };
        assert(t@.columns =~= checkins_table().columns);
        assert(t@.foreign_keys =~= checkins_table().foreign_keys);
        assert(t@.indexes =~= checkins_table().indexes);
        SchemaChange::CreateTable(t)
    }

    /// Drops the check-in table.
    pub fn down(&self) -> (r: SchemaChange)
        ensures
            r@ == ChangeSpec::DropTable(table_name()),
    {
        SchemaChange::DropTable(DailyCheckins::Table.name().to_string())
    }
}

} // verus!
