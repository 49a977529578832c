//! Revision that creates the micro-task table. A task refers to its check-in
//! by the check-in's external identity, not by its engine key, so that the
//! reference survives any renumbering of engine keys.

use vstd::prelude::*;
use crate::migration::m20250604_064814_create_table_daily_checkins::DailyCheckins;
use crate::migration::{
    column, ChangeSpec, ColumnDef, ColumnSpec, ColumnType, ForeignKeyAction, ForeignKeyDef,
    ForeignKeySpec, SchemaChange, TableDef, TableSpec,
};

verus! {

/// Identifiers of the micro-task table and its columns.
#[derive(Debug, Clone, Copy, PartialEq, Eq, Structural)]
pub enum MicroTasks {
    Table,
    LocalId,
    Uuid,
    DailyCheckinUuid,
    TaskDescription,
    TaskMemo,
    IsCompleted,
    CompletedAt,
    CreatedAt,
    UpdatedAt,
    DeletedAt,
    SortOrder,
}

impl MicroTasks {
    pub open spec fn spec_name(self) -> Seq<char> {
        match self {
            MicroTasks::Table => "micro_tasks"@,
            MicroTasks::LocalId => "local_id"@,
            MicroTasks::Uuid => "uuid"@,
            MicroTasks::DailyCheckinUuid => "daily_checkin_uuid"@,
            MicroTasks::TaskDescription => "task_description"@,
            MicroTasks::TaskMemo => "task_memo"@,
            MicroTasks::IsCompleted => "is_completed"@,
            MicroTasks::CompletedAt => "completed_at"@,
            MicroTasks::CreatedAt => "created_at"@,
            MicroTasks::UpdatedAt => "updated_at"@,
            MicroTasks::DeletedAt => "deleted_at"@,
            MicroTasks::SortOrder => "sort_order"@,
        }
    }

    /// The identifier as it stands in the store.
    pub fn name(&self) -> (r: &'static str)
        ensures
            r@ == self.spec_name(),
    {
        match self {
            MicroTasks::Table => "micro_tasks",
            MicroTasks::LocalId => "local_id",
            MicroTasks::Uuid => "uuid",
            MicroTasks::DailyCheckinUuid => "daily_checkin_uuid",
            MicroTasks::TaskDescription => "task_description",
            MicroTasks::TaskMemo => "task_memo",
            MicroTasks::IsCompleted => "is_completed",
            MicroTasks::CompletedAt => "completed_at",
            MicroTasks::CreatedAt => "created_at",
            MicroTasks::UpdatedAt => "updated_at",
            MicroTasks::DeletedAt => "deleted_at",
            MicroTasks::SortOrder => "sort_order",
        }
    }
}

pub open spec fn migration_name() -> Seq<char> {
    "m20250604_065127_create_table_daily_micro_tasks"@
}

pub open spec fn table_name() -> Seq<char> {
    MicroTasks::Table.spec_name()
}

pub open spec fn col(c: MicroTasks, column_type: ColumnType, nullable: bool, unique: bool) -> ColumnSpec {
    ColumnSpec { name: c.spec_name(), column_type, nullable, unique, default_value: None }
}

/// The reference of a task to its check-in's external identity; deleting or
/// re-keying the check-in carries over to its tasks.
pub open spec fn checkin_reference() -> ForeignKeySpec {
    ForeignKeySpec {
        name: "fk_micro_tasks_daily_checkin_uuid"@,
        from_table: table_name(),
        from_column: MicroTasks::DailyCheckinUuid.spec_name(),
        to_table: DailyCheckins::Table.spec_name(),
        to_column: DailyCheckins::Uuid.spec_name(),
        on_delete: ForeignKeyAction::Cascade,
        on_update: ForeignKeyAction::Cascade,
    }
}

/// The micro-task table of the current schema.
pub open spec fn micro_tasks_table() -> TableSpec {
    TableSpec {
        name: table_name(),
        columns: seq![
            col(MicroTasks::LocalId, ColumnType::AutoIncrementKey, false, false),
            col(MicroTasks::Uuid, ColumnType::String, false, true),
            col(MicroTasks::DailyCheckinUuid, ColumnType::String, false, false),
            col(MicroTasks::TaskDescription, ColumnType::Text, false, false),
            col(MicroTasks::TaskMemo, ColumnType::Text, true, false),
            ColumnSpec {
                name: MicroTasks::IsCompleted.spec_name(),
                column_type: ColumnType::Integer,
                nullable: false,
                unique: false,
                default_value: Some(0),
            },
            col(MicroTasks::CompletedAt, ColumnType::TimestampWithTimeZone, true, false),
            col(MicroTasks::CreatedAt, ColumnType::TimestampWithTimeZone, false, false),
            col(MicroTasks::UpdatedAt, ColumnType::TimestampWithTimeZone, false, false),
            col(MicroTasks::DeletedAt, ColumnType::TimestampWithTimeZone, true, false),
            col(MicroTasks::SortOrder, ColumnType::Integer, false, false),
        ],
        foreign_keys: seq![checkin_reference()],
        indexes: seq![],
    }
}

/// The revision.
pub struct Migration;

impl Migration {
    /// The name under which the store records that the revision was applied.
    pub fn name(&self) -> (r: String)
        ensures
            r@ == migration_name(),
    {
        "m20250604_065127_create_table_daily_micro_tasks".to_string()
    }

    /// Creates the micro-task table.
    pub fn up(&self) -> (r: SchemaChange)
        ensures
            r@ == ChangeSpec::CreateTable(micro_tasks_table()),
    {
        let mut columns: Vec<ColumnDef> = Vec::new();
        columns.push(column(MicroTasks::LocalId.name(), ColumnType::AutoIncrementKey, false, false));
        columns.push(column(MicroTasks::Uuid.name(), ColumnType::String, false, true));
        columns.push(column(MicroTasks::DailyCheckinUuid.name(), ColumnType::String, false, false));
        columns.push(column(MicroTasks::TaskDescription.name(), ColumnType::Text, false, false));
        columns.push(column(MicroTasks::TaskMemo.name(), ColumnType::Text, true, false));
        columns.push(
            ColumnDef {
                name: MicroTasks::IsCompleted.name().to_string(),
                column_type: ColumnType::Integer,
                nullable: false,
                unique: false,
                default_value: Some(0),
            },
        );
        columns.push(
            column(MicroTasks::CompletedAt.name(), ColumnType::TimestampWithTimeZone, true, false),
        );
        columns.push(
            column(MicroTasks::CreatedAt.name(), ColumnType::TimestampWithTimeZone, false, false),
        );
        columns.push(
            column(MicroTasks::UpdatedAt.name(), ColumnType::TimestampWithTimeZone, false, false),
        );
        columns.push(
            column(MicroTasks::DeletedAt.name(), ColumnType::TimestampWithTimeZone, true, false),
        );
        columns.push(column(MicroTasks::SortOrder.name(), ColumnType::Integer, false, false));
        let mut foreign_keys: Vec<ForeignKeyDef> = Vec::new();
        foreign_keys.push(
            ForeignKeyDef {
                name: "fk_micro_tasks_daily_checkin_uuid".to_string(),
                from_table: MicroTasks::Table.name().to_string(),
                from_column: MicroTasks::DailyCheckinUuid.name().to_string(),
                to_table: DailyCheckins::Table.name().to_string(),
                to_column: DailyCheckins::Uuid.name().to_string(),
                on_delete: ForeignKeyAction::Cascade,
                on_update: ForeignKeyAction::Cascade,
            },
        );
        let t = TableDef {
            name: MicroTasks::Table.name().to_string(),
            columns,
            foreign_keys,
            indexes: Vec::new(),
        };
        assert(t@.columns =~= micro_tasks_table().columns);
        assert(t@.foreign_keys =~= micro_tasks_table().foreign_keys);
        assert(t@.indexes =~= micro_tasks_table().indexes);
        SchemaChange::CreateTable(t)
    }

    /// Drops the micro-task table.
    pub fn down(&self) -> (r: SchemaChange)
        ensures
            r@ == ChangeSpec::DropTable(table_name()),
    {
        SchemaChange::DropTable(MicroTasks::Table.name().to_string())
    }
}

} // verus!
