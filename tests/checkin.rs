use chrono::Datelike;
use mind_track::checkin::{
    begin_record, checkin_for_date, finish_record, insert_error, new_checkin_row, parse_date, rule_error,
    validate_payload, CheckinRow, CheckinRule, CreateDailyCheckinPayload, DailyCheckinResponse,
};
use mind_track::date::CalendarDate;
use mind_track::error::AppError;

fn today() -> CalendarDate {
    CalendarDate { year: 2025, month: 6, day: 15 }
}

fn payload(date: &str, mood_level: i32) -> CreateDailyCheckinPayload {
    CreateDailyCheckinPayload {
        date: date.to_string(),
        mood_level,
        mood_text: None,
        physical_state_tags: None,
        potential_todos: None,
    }
}

fn strings(n: usize, len: usize) -> Vec<String> {
    (0..n).map(|_| "x".repeat(len)).collect()
}

fn field_of(e: &AppError) -> String {
    match e {
        AppError::Validation { field, .. } => field.clone(),
        other => panic!("not a validation error: {:?}", other),
    }
}

fn with_text_timestamps(row: CheckinRow<i64>) -> CheckinRow<String> {
    CheckinRow {
        uuid: row.uuid,
        date: row.date,
        mood_level: row.mood_level,
        mood_text: row.mood_text,
        physical_state_tags: row.physical_state_tags,
        physical_state_text: row.physical_state_text,
        potential_todos: row.potential_todos,
        created_at: row.created_at.to_string(),
        updated_at: row.updated_at.to_string(),
        deleted_at: row.deleted_at.map(|t| t.to_string()),
    }
}

/// Records `p` into `table` the way the service does, with the date lookup
/// done over the in-memory rows.
fn record(table: &mut Vec<CheckinRow<i64>>, p: CreateDailyCheckinPayload) -> Result<DailyCheckinResponse, AppError> {
    let date = begin_record(&p)?;
    let exists = table.iter().any(|r| r.date == date && r.deleted_at.is_none());
    let row = finish_record(p, date, exists)?;
    table.push(row.clone());
    Ok(DailyCheckinResponse::from_row(with_text_timestamps(row)))
}

#[test]
fn second_record_for_same_date_is_duplicate() {
    let mut table = Vec::new();
    let first = record(&mut table, payload("2025-01-10", 3));
    assert!(first.is_ok());
    let mut again = payload("2025-01-10", 5);
    again.mood_text = Some("other".to_string());
    let e = record(&mut table, again).unwrap_err();
    assert_eq!(field_of(&e), "date");
    match e {
        AppError::Validation { message, user_message, .. } => {
            assert_eq!(message, "Daily checkin already exists for this date");
            assert_eq!(user_message, "この日のチェックインは既に記録済みです。");
        }
        _ => unreachable!(),
    }
    assert!(record(&mut table, payload("2025-01-11", 2)).is_ok());
    assert_eq!(table.len(), 2);
}

#[test]
fn soft_deleted_row_does_not_block_the_date() {
    let mut table = Vec::new();
    record(&mut table, payload("2025-01-10", 3)).unwrap();
    table[0].deleted_at = Some(1);
    assert!(record(&mut table, payload("2025-01-10", 4)).is_ok());
}

#[test]
fn mood_level_bounds() {
    for m in [0, 6, -1, i32::MAX] {
        let e = validate_payload(&payload("2025-01-10", m), today()).unwrap_err();
        assert_eq!(field_of(&e), "moodLevel");
    }
    for m in [1, 5] {
        assert!(validate_payload(&payload("2025-01-10", m), today()).is_ok());
    }
}

#[test]
fn physical_state_tag_bounds() {
    let mut p = payload("2025-01-10", 3);
    p.physical_state_tags = Some(strings(11, 1));
    assert_eq!(field_of(&validate_payload(&p, today()).unwrap_err()), "physicalStateTags");
    p.physical_state_tags = Some(strings(10, 20));
    assert!(validate_payload(&p, today()).is_ok());
    p.physical_state_tags = Some(strings(1, 21));
    assert_eq!(field_of(&validate_payload(&p, today()).unwrap_err()), "physicalStateTags");
}

#[test]
fn potential_todo_bounds() {
    let mut p = payload("2025-01-10", 3);
    p.potential_todos = Some(strings(4, 1));
    assert_eq!(field_of(&validate_payload(&p, today()).unwrap_err()), "potentialTodos");
    p.potential_todos = Some(strings(3, 100));
    assert!(validate_payload(&p, today()).is_ok());
    p.potential_todos = Some(strings(1, 101));
    assert_eq!(field_of(&validate_payload(&p, today()).unwrap_err()), "potentialTodos");
}

#[test]
fn mood_text_counts_characters() {
    let mut p = payload("2025-01-10", 3);
    p.mood_text = Some("あ".repeat(500));
    assert!(validate_payload(&p, today()).is_ok());
    p.mood_text = Some("a".repeat(501));
    assert_eq!(field_of(&validate_payload(&p, today()).unwrap_err()), "moodText");
}

#[test]
fn tags_count_characters_not_bytes() {
    let mut p = payload("2025-01-10", 3);
    p.physical_state_tags = Some(vec!["だるい".repeat(6)]);
    assert!(validate_payload(&p, today()).is_ok());
}

#[test]
fn future_dates_against_fixed_today() {
    assert!(validate_payload(&payload("2025-06-15", 3), today()).is_ok());
    let e = validate_payload(&payload("2025-06-16", 3), today()).unwrap_err();
    assert_eq!(field_of(&e), "date");
    assert_eq!(field_of(&validate_payload(&payload("2026-01-01", 3), today()).unwrap_err()), "date");
    assert!(validate_payload(&payload("2024-12-31", 3), today()).is_ok());
}

#[test]
fn tomorrow_fails_and_today_succeeds_in_utc() {
    let now = chrono::Utc::now().date_naive();
    let tomorrow = now.succ_opt().unwrap();
    let e = begin_record(&payload(&tomorrow.format("%Y-%m-%d").to_string(), 3)).unwrap_err();
    assert_eq!(field_of(&e), "date");
    let d = begin_record(&payload(&now.format("%Y-%m-%d").to_string(), 3)).unwrap();
    assert_eq!((d.year, d.month, d.day), (now.year(), now.month(), now.day()));
}

#[test]
fn first_broken_rule_is_reported() {
    let mut p = payload("not a date", 0);
    p.physical_state_tags = Some(strings(11, 1));
    assert_eq!(field_of(&validate_payload(&p, today()).unwrap_err()), "moodLevel");
    p.mood_level = 2;
    match validate_payload(&p, today()).unwrap_err() {
        AppError::Validation { field, message, user_message } => {
            assert_eq!(field, "date");
            assert_eq!(message, "Invalid date format");
            assert_eq!(user_message, "入力内容が正しくありません。");
        }
        _ => panic!("expected a validation error"),
    }
    p.date = "2025-06-16".to_string();
    match validate_payload(&p, today()).unwrap_err() {
        AppError::Validation { field, message, .. } => {
            assert_eq!(field, "date");
            assert_eq!(message, "Cannot record checkin for future dates");
        }
        _ => panic!("expected a validation error"),
    }
    p.date = "2025-06-14".to_string();
    p.mood_text = Some("a".repeat(501));
    assert_eq!(field_of(&validate_payload(&p, today()).unwrap_err()), "moodText");
    p.mood_text = None;
    p.potential_todos = Some(strings(4, 1));
    assert_eq!(field_of(&validate_payload(&p, today()).unwrap_err()), "physicalStateTags");
    p.physical_state_tags = None;
    assert_eq!(field_of(&validate_payload(&p, today()).unwrap_err()), "potentialTodos");
}

#[test]
fn invalid_calendar_dates_are_rejected() {
    assert!(parse_date("2025-02-29").is_err());
    assert!(parse_date("2024-02-29").is_ok());
    assert!(parse_date("2025-13-01").is_err());
    assert!(parse_date("").is_err());
    let d = parse_date("2025-01-10").unwrap();
    assert_eq!(d, CalendarDate { year: 2025, month: 1, day: 10 });
}

#[test]
fn round_trip_keeps_tags_and_leaves_mood_text_absent() {
    let mut table = Vec::new();
    let mut p = payload("2025-01-10", 3);
    p.physical_state_tags = Some(vec!["tired".to_string(), "sore".to_string()]);
    record(&mut table, p).unwrap();
    let date = parse_date("2025-01-10").unwrap();
    let found = table.iter().find(|r| r.date == date && r.deleted_at.is_none()).cloned();
    let resp = checkin_for_date(found.map(with_text_timestamps)).unwrap();
    assert_eq!(resp.physical_state_tags, Some(vec!["tired".to_string(), "sore".to_string()]));
    assert_eq!(resp.mood_text, None);
    assert_eq!(resp.potential_todos, None);
    assert_eq!(resp.date, "2025-01-10");
    assert_eq!(resp.mood_level, 3);
}

#[test]
fn lookup_without_live_row_is_absent() {
    assert!(parse_date("2025-03-01").is_ok());
    assert!(checkin_for_date(None).is_none());
    let mut table = Vec::new();
    record(&mut table, payload("2025-03-01", 3)).unwrap();
    let mut row = with_text_timestamps(table[0].clone());
    assert!(checkin_for_date(Some(row.clone())).is_some());
    row.deleted_at = Some("2025-03-02T00:00:00+00:00".to_string());
    assert!(checkin_for_date(Some(row)).is_none());
}

#[test]
fn failed_insert_errors() {
    let e = insert_error(true, "UNIQUE constraint failed: daily_checkins.date");
    match e {
        AppError::Validation { field, message, .. } => {
            assert_eq!(field, "date");
            assert_eq!(message, "Daily checkin already exists for this date");
        }
        _ => panic!("expected the duplicate failure"),
    }
    match insert_error(false, "disk full") {
        AppError::Database { user_message, details } => {
            assert_eq!(user_message, "データベース処理中にエラーが発生しました。");
            assert_eq!(details, "disk full");
        }
        _ => panic!("expected an engine failure"),
    }
}

#[test]
fn omitted_lists_read_back_absent() {
    let row = new_checkin_row(payload("2025-01-10", 4), parse_date("2025-01-10").unwrap(), false, "id".to_string(), 7i64)
        .unwrap();
    assert_eq!(row.physical_state_tags, "");
    assert_eq!(row.potential_todos, "");
    assert_eq!(row.mood_text, "");
    let resp = DailyCheckinResponse::from_row(with_text_timestamps(row));
    assert_eq!(resp.physical_state_tags, None);
    assert_eq!(resp.potential_todos, None);
    assert_eq!(resp.mood_text, None);
}

#[test]
fn empty_list_stays_an_empty_list() {
    let mut p = payload("2025-01-10", 4);
    p.potential_todos = Some(vec![]);
    let row = new_checkin_row(p, parse_date("2025-01-10").unwrap(), false, "id".to_string(), 7i64).unwrap();
    assert_eq!(row.potential_todos, "[]");
    let resp = DailyCheckinResponse::from_row(with_text_timestamps(row));
    assert_eq!(resp.potential_todos, Some(vec![]));
}

#[test]
fn new_row_is_live_with_equal_timestamps() {
    let mut p = payload("2025-01-10", 2);
    p.mood_text = Some("ok".to_string());
    p.physical_state_tags = Some(vec!["a\"b".to_string()]);
    let date = parse_date("2025-01-10").unwrap();
    let row = new_checkin_row(p, date, false, "abc".to_string(), 42i64).unwrap();
    assert_eq!(row.uuid, "abc");
    assert_eq!(row.date, date);
    assert_eq!(row.mood_level, 2);
    assert_eq!(row.mood_text, "ok");
    assert_eq!(row.physical_state_tags, "[\"a\\\"b\"]");
    assert_eq!(row.physical_state_text, "");
    assert_eq!(row.created_at, 42);
    assert_eq!(row.updated_at, 42);
    assert_eq!(row.deleted_at, None);
}

#[test]
fn finish_record_draws_fresh_identities() {
    let date = parse_date("2025-01-10").unwrap();
    let a = finish_record(payload("2025-01-10", 3), date, false).unwrap();
    let b = finish_record(payload("2025-01-10", 3), date, false).unwrap();
    assert_eq!(a.uuid.len(), 36);
    assert_ne!(a.uuid, b.uuid);
    assert_eq!(a.created_at, a.updated_at);
    assert!(a.deleted_at.is_none());
    let e = finish_record(payload("2025-01-10", 3), date, true).unwrap_err();
    assert_eq!(field_of(&e), "date");
}

#[test]
fn stored_garbage_reads_as_absent() {
    let row = CheckinRow {
        uuid: "u".to_string(),
        date: CalendarDate { year: 2025, month: 1, day: 10 },
        mood_level: 1,
        mood_text: "hello".to_string(),
        physical_state_tags: "not json".to_string(),
        physical_state_text: String::new(),
        potential_todos: "[1,2]".to_string(),
        created_at: "c".to_string(),
        updated_at: "u".to_string(),
        deleted_at: None,
    };
    let resp = DailyCheckinResponse::from_row(row);
    assert_eq!(resp.mood_text, Some("hello".to_string()));
    assert_eq!(resp.physical_state_tags, None);
    assert_eq!(resp.potential_todos, None);
    assert_eq!(resp.created_at, "c");
    assert_eq!(resp.updated_at, "u");
    assert_eq!(resp.uuid, "u");
}

#[test]
fn every_rule_reports_its_field() {
    let cases = [
        (CheckinRule::MoodLevelRange, "moodLevel"),
        (CheckinRule::MoodTextLength, "moodText"),
        (CheckinRule::TagCount, "physicalStateTags"),
        (CheckinRule::TagLength, "physicalStateTags"),
        (CheckinRule::TodoCount, "potentialTodos"),
        (CheckinRule::TodoLength, "potentialTodos"),
        (CheckinRule::DateFormat, "date"),
        (CheckinRule::FutureDate, "date"),
        (CheckinRule::DuplicateDate, "date"),
    ];
    for (rule, field) in cases {
        assert_eq!(field_of(&rule_error(rule)), field);
    }
}
