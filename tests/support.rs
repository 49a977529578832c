use mind_track::date::CalendarDate;
use mind_track::codec::{decode_list, encode_list};
use mind_track::error::{AppError, UserMessageKind};
use mind_track::migration::m20250604_064814_create_table_daily_checkins::DailyCheckins;
use mind_track::migration::m20250604_065127_create_table_daily_micro_tasks::MicroTasks;
use mind_track::migration::{ColumnType, ForeignKeyAction, Migrator, SchemaChange};

#[test]
fn absent_list_encodes_to_empty_text() {
    assert_eq!(encode_list(&None), "");
    assert_eq!(decode_list(""), None);
}

#[test]
fn present_list_encodes_to_json() {
    let v = vec!["tired".to_string(), "sore".to_string()];
    let s = encode_list(&Some(v.clone()));
    assert_eq!(s, "[\"tired\",\"sore\"]");
    assert_eq!(decode_list(&s), Some(v));
    assert_eq!(decode_list("[]"), Some(vec![]));
    assert_eq!(decode_list("{\"a\":1}"), None);
}

#[test]
fn validation_error_default_message() {
    match AppError::validation("date", "bad", None) {
        AppError::Validation { user_message, field, message } => {
            assert_eq!(user_message, "入力内容が正しくありません。");
            assert_eq!(field, "date");
            assert_eq!(message, "bad");
        }
        _ => panic!("expected a validation error"),
    }
    match AppError::validation("date", "bad", Some("custom")) {
        AppError::Validation { user_message, .. } => assert_eq!(user_message, "custom"),
        _ => panic!("expected a validation error"),
    }
}

#[test]
fn not_found_names_the_resource_type() {
    match AppError::not_found("チェックイン", "abc", "missing", None) {
        AppError::NotFound { user_message, resource_type, resource_id, details } => {
            assert_eq!(user_message, "指定されたチェックインが見つかりませんでした。");
            assert_eq!(resource_type, "チェックイン");
            assert_eq!(resource_id, "abc");
            assert_eq!(details, "missing");
        }
        _ => panic!("expected a lookup miss"),
    }
}

#[test]
fn unexpected_default_message() {
    match AppError::unexpected("boom", None) {
        AppError::Unexpected { user_message, details } => {
            assert_eq!(user_message, "予期せぬエラーが発生しました。しばらくしてから再度お試しください。");
            assert_eq!(details, "boom");
        }
        _ => panic!("expected an unexpected error"),
    }
}

#[test]
fn envelope_keeps_only_boundary_fields() {
    let v = AppError::validation("moodLevel", "detail", Some("msg")).to_envelope();
    assert_eq!(v.kind, UserMessageKind::Validation);
    assert_eq!(v.message, "msg");
    assert_eq!(v.field, Some("moodLevel".to_string()));
    assert_eq!(v.resource_type, None);
    let n = AppError::not_found("task", "7", "gone", Some("m")).to_envelope();
    assert_eq!(n.kind, UserMessageKind::NotFound);
    assert_eq!(n.resource_type, Some("task".to_string()));
    assert_eq!(n.resource_id, Some("7".to_string()));
    assert_eq!(n.field, None);
    let d = AppError::database("disk I/O error").to_envelope();
    assert_eq!(d.kind, UserMessageKind::Database);
    assert_eq!(d.message, "データベース処理中にエラーが発生しました。");
    assert_eq!(d.field, None);
    let u = AppError::unexpected("x", None).to_envelope();
    assert_eq!(u.kind, UserMessageKind::Unexpected);
}

#[test]
fn catalog_has_two_ordered_revisions() {
    let revs = Migrator::migrations();
    assert_eq!(revs.len(), 2);
    assert_eq!(revs[0].name, "m20250604_064814_create_table_daily_checkins");
    assert_eq!(revs[1].name, "m20250604_065127_create_table_daily_micro_tasks");
    match &revs[0].up {
        SchemaChange::CreateTable(t) => {
            assert_eq!(t.name, "daily_checkins");
            assert_eq!(t.columns.len(), 11);
            assert_eq!(t.columns[1].name, "uuid");
            assert!(t.columns[1].unique && !t.columns[1].nullable);
            assert_eq!(t.columns[2].column_type, ColumnType::Date);
            assert!(!t.columns[2].unique);
            assert_eq!(t.indexes.len(), 1);
            assert_eq!(t.indexes[0].column, "date");
            assert!(t.indexes[0].unique);
            assert_eq!(t.indexes[0].only_where_null, Some("deleted_at".to_string()));
            assert!(t.columns[10].nullable);
        }
        _ => panic!("expected a table creation"),
    }
    match &revs[1].up {
        SchemaChange::CreateTable(t) => {
            assert_eq!(t.name, "micro_tasks");
            assert_eq!(t.columns.len(), 11);
            assert_eq!(t.columns[5].default_value, Some(0));
            assert_eq!(t.foreign_keys.len(), 1);
            let fk = &t.foreign_keys[0];
            assert_eq!(fk.to_table, "daily_checkins");
            assert_eq!(fk.to_column, "uuid");
            assert_eq!(fk.on_delete, ForeignKeyAction::Cascade);
        }
        _ => panic!("expected a table creation"),
    }
    match &revs[1].down {
        SchemaChange::DropTable(n) => assert_eq!(n, "micro_tasks"),
        _ => panic!("expected a table drop"),
    }
}

#[test]
fn identifiers_are_snake_case() {
    assert_eq!(DailyCheckins::PhysicalStateTags.name(), "physical_state_tags");
    assert_eq!(MicroTasks::DailyCheckinUuid.name(), "daily_checkin_uuid");
}

#[test]
fn calendar_validity_follows_leap_years() {
    let d = |year, month, day| CalendarDate { year, month, day };
    assert!(d(2024, 2, 29).is_valid());
    assert!(!d(2025, 2, 29).is_valid());
    assert!(!d(1900, 2, 29).is_valid());
    assert!(d(2000, 2, 29).is_valid());
    assert!(!d(2025, 4, 31).is_valid());
    assert!(!d(2025, 0, 1).is_valid());
    assert!(!d(300000, 1, 1).is_valid());
    assert!(d(2025, 1, 11).is_after(&d(2025, 1, 10)));
    assert!(d(2026, 1, 1).is_after(&d(2025, 12, 31)));
    assert!(!d(2025, 1, 10).is_after(&d(2025, 1, 10)));
}
