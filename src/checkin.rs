//! The check-in service: payload validation, the one-live-row-per-date rule,
//! the storage row of a new check-in, and the response built from a stored row.
//!
//! Storage itself is reached by the caller: it validates with
//! [`begin_record`], looks up whether a live row holds the date, builds the
//! row with [`finish_record`], inserts it, and maps the stored row back with
//! [`DailyCheckinResponse::from_row`].

use vstd::prelude::*;
use vstd::string::StrSliceExecFns;
use crate::codec::{decode_list, decoded_list, encode_list, encoded_list, opt_texts};
use crate::date::{
    date_text, date_text_of, iso_date_of, now_micros, parse_iso_date, today_utc, ymd, ymd_after, CalendarDate,
};
use crate::error::{default_validation_message, AppError};

verus! {

pub const MIN_MOOD_LEVEL: i32 = 1;
pub const MAX_MOOD_LEVEL: i32 = 5;
pub const MAX_MOOD_TEXT_CHARS: usize = 500;
pub const MAX_TAGS: usize = 10;
pub const MAX_TAG_CHARS: usize = 20;
pub const MAX_TODOS: usize = 3;
pub const MAX_TODO_CHARS: usize = 100;

/// What a caller sends to record a check-in. `date` is `YYYY-MM-DD`.
#[derive(Debug, Clone)]
pub struct CreateDailyCheckinPayload {
    pub date: String,
    pub mood_level: i32,
    pub mood_text: Option<String>,
    pub physical_state_tags: Option<Vec<String>>,
    pub potential_todos: Option<Vec<String>>,
}

/// What a caller gets back for a stored check-in.
#[derive(Debug, Clone)]
pub struct DailyCheckinResponse {
    pub uuid: String,
    pub date: String,
    pub mood_level: i32,
    pub mood_text: Option<String>,
    pub physical_state_tags: Option<Vec<String>>,
    pub potential_todos: Option<Vec<String>>,
    pub created_at: String,
    pub updated_at: String,
}

/// A row of the check-in table, with timestamps of type `T`. Absent text
/// fields are stored as empty strings; list fields hold their encoded text.
#[derive(Debug, Clone)]
pub struct CheckinRow<T> {
    pub uuid: String,
    pub date: CalendarDate,
    pub mood_level: i32,
    pub mood_text: String,
    pub physical_state_tags: String,
    pub physical_state_text: String,
    pub potential_todos: String,
    pub created_at: T,
    pub updated_at: T,
    pub deleted_at: Option<T>,
}

/// The rules that a new check-in must meet, in the order they are checked.
#[derive(Debug, Clone, Copy, PartialEq, Eq, Structural)]
pub enum CheckinRule {
    MoodLevelRange,
    DateFormat,
    FutureDate,
    MoodTextLength,
    TagCount,
    TagLength,
    TodoCount,
    TodoLength,
    DuplicateDate,
}

/// The payload field that a rule is about.
pub open spec fn rule_field(rule: CheckinRule) -> Seq<char> {
    match rule {
        CheckinRule::MoodLevelRange => "moodLevel"@,
        CheckinRule::MoodTextLength => "moodText"@,
        CheckinRule::TagCount | CheckinRule::TagLength => "physicalStateTags"@,
        CheckinRule::TodoCount | CheckinRule::TodoLength => "potentialTodos"@,
        CheckinRule::DateFormat | CheckinRule::FutureDate | CheckinRule::DuplicateDate => "date"@,
    }
}

/// The diagnostic message of a broken rule.
pub open spec fn rule_message(rule: CheckinRule) -> Seq<char> {
    match rule {
        CheckinRule::MoodLevelRange => "Mood level must be between 1 and 5"@,
        CheckinRule::MoodTextLength => "Mood text must be 500 characters or less"@,
        CheckinRule::TagCount => "Maximum 10 tags allowed"@,
        CheckinRule::TagLength => "Each tag must be 20 characters or less"@,
        CheckinRule::TodoCount => "Maximum 3 todos allowed"@,
        CheckinRule::TodoLength => "Each todo must be 100 characters or less"@,
        CheckinRule::DateFormat => "Invalid date format"@,
        CheckinRule::FutureDate => "Cannot record checkin for future dates"@,
        CheckinRule::DuplicateDate => "Daily checkin already exists for this date"@,
    }
}

/// The user-facing message of a broken rule.
pub open spec fn rule_user_message(rule: CheckinRule) -> Seq<char> {
    match rule {
        CheckinRule::MoodLevelRange => "気分レベルは1から5の間で選択してください。"@,
        CheckinRule::MoodTextLength => "気分メモは500文字以内で入力してください。"@,
        CheckinRule::TagCount => "体の状態タグは最大10個まで選択可能です。"@,
        CheckinRule::TagLength => "各タグは20文字以内で入力してください。"@,
        CheckinRule::TodoCount => "「やらなきゃ」は最大3つまで入力可能です。"@,
        CheckinRule::TodoLength => "各項目は100文字以内で入力してください。"@,
        CheckinRule::DateFormat => default_validation_message(),
        CheckinRule::FutureDate => "未来の日付は記録できません。"@,
        CheckinRule::DuplicateDate => "この日のチェックインは既に記録済みです。"@,
    }
}

/// `e` is the validation failure that reports `rule`.
pub open spec fn reports(e: AppError, rule: CheckinRule) -> bool {
    e.is_validation(rule_field(rule), rule_message(rule), rule_user_message(rule))
}

/// The validation failure that reports a broken rule.
pub fn rule_error(rule: CheckinRule) -> (r: AppError)
    ensures
        reports(r, rule),
{
    match rule {
        CheckinRule::MoodLevelRange => AppError::validation(
            "moodLevel",
            "Mood level must be between 1 and 5",
            Some("気分レベルは1から5の間で選択してください。"),
        ),
        CheckinRule::MoodTextLength => AppError::validation(
            "moodText",
            "Mood text must be 500 characters or less",
            Some("気分メモは500文字以内で入力してください。"),
        ),
        CheckinRule::TagCount => AppError::validation(
            "physicalStateTags",
            "Maximum 10 tags allowed",
            Some("体の状態タグは最大10個まで選択可能です。"),
        ),
        CheckinRule::TagLength => AppError::validation(
            "physicalStateTags",
            "Each tag must be 20 characters or less",
            Some("各タグは20文字以内で入力してください。"),
        ),
        CheckinRule::TodoCount => AppError::validation(
            "potentialTodos",
            "Maximum 3 todos allowed",
            Some("「やらなきゃ」は最大3つまで入力可能です。"),
        ),
        CheckinRule::TodoLength => AppError::validation(
            "potentialTodos",
            "Each todo must be 100 characters or less",
            Some("各項目は100文字以内で入力してください。"),
        ),
        CheckinRule::DateFormat => AppError::validation("date", "Invalid date format", None),
        CheckinRule::FutureDate => AppError::validation(
            "date",
            "Cannot record checkin for future dates",
            Some("未来の日付は記録できません。"),
        ),
        CheckinRule::DuplicateDate => AppError::validation(
            "date",
            "Daily checkin already exists for this date",
            Some("この日のチェックインは既に記録済みです。"),
        ),
    }
}

/// Some string of `items` has more than `max` characters.
pub open spec fn any_longer(items: Seq<String>, max: int) -> bool {
    exists|i: int| 0 <= i < items.len() && #[trigger] items[i]@.len() > max
}

/// An optional list breaks its count bound.
pub open spec fn too_many(o: Option<Vec<String>>, max: int) -> bool {
    o matches Some(v) && v@.len() > max
}

/// An optional list holds an item that breaks its length bound.
pub open spec fn item_too_long(o: Option<Vec<String>>, max: int) -> bool {
    o matches Some(v) && any_longer(v@, max)
}

/// The first rule, in the order of checking, that the payload breaks when
/// `today` is the current date; the duplicate rule is not looked at here.
pub open spec fn first_violation(p: CreateDailyCheckinPayload, today: CalendarDate) -> Option<
    CheckinRule,
> {
    if !(MIN_MOOD_LEVEL <= p.mood_level <= MAX_MOOD_LEVEL) {
        Some(CheckinRule::MoodLevelRange)
    } else if iso_date_of(p.date@) is None {
        Some(CheckinRule::DateFormat)
    } else if ymd_after(iso_date_of(p.date@)->0, ymd(today)) {
        Some(CheckinRule::FutureDate)
    } else if p.mood_text matches Some(t) && t@.len() > MAX_MOOD_TEXT_CHARS {
        Some(CheckinRule::MoodTextLength)
    } else if too_many(p.physical_state_tags, MAX_TAGS as int) {
        Some(CheckinRule::TagCount)
    } else if item_too_long(p.physical_state_tags, MAX_TAG_CHARS as int) {
        Some(CheckinRule::TagLength)
    } else if too_many(p.potential_todos, MAX_TODOS as int) {
        Some(CheckinRule::TodoCount)
    } else if item_too_long(p.potential_todos, MAX_TODO_CHARS as int) {
        Some(CheckinRule::TodoLength)
    } else {
        None
    }
}

/// `r` is what validating `p` against `today` gives: the first broken rule,
/// or the date that the payload names.
pub open spec fn validation_outcome(
    p: CreateDailyCheckinPayload,
    today: CalendarDate,
    r: Result<CalendarDate, AppError>,
) -> bool {
    match first_violation(p, today) {
        Some(rule) => r matches Err(e) && reports(e, rule),
        None => r matches Ok(d) && d.valid() && ymd(d) == iso_date_of(p.date@)->0,
    }
}

fn any_longer_than(items: &Vec<String>, max: usize) -> (r: bool)
    ensures
        r == any_longer(items@, max as int),
{
    let mut i: usize = 0;
    while i < items.len()
        invariant
            0 <= i <= items.len(),
            forall|k: int| 0 <= k < i ==> (#[trigger] items@[k])@.len() <= max,
        decreases items.len() - i,
    {
        if items[i].as_str().unicode_len() > max {
            return true;
        }
        i += 1;
    }
    false
}

/// Reads a `YYYY-MM-DD` date; text that is no such date is a validation
/// failure on `date`.
pub fn parse_date(date: &str) -> (r: Result<CalendarDate, AppError>)
    ensures
        r is Ok <==> iso_date_of(date@) is Some,
        r matches Ok(d) ==> d.valid() && ymd(d) == iso_date_of(date@)->0,
        r matches Err(e) ==> reports(e, CheckinRule::DateFormat),
{
    match parse_iso_date(date) {
        Some(d) => Ok(d),
        None => Err(rule_error(CheckinRule::DateFormat)),
    }
}

/// Checks the payload's rules in order against the current date `today` and
/// returns the date it names; the first broken rule is reported.
pub fn validate_payload(payload: &CreateDailyCheckinPayload, today: CalendarDate) -> (r: Result<
    CalendarDate,
    AppError,
>)
    ensures
        validation_outcome(*payload, today, r),
{
    if payload.mood_level < MIN_MOOD_LEVEL || payload.mood_level > MAX_MOOD_LEVEL {
        return Err(rule_error(CheckinRule::MoodLevelRange));
    }
    let date = parse_date(payload.date.as_str())?;
    if date.is_after(&today) {
        return Err(rule_error(CheckinRule::FutureDate));
    }
    if let Some(text) = &payload.mood_text {
        if text.as_str().unicode_len() > MAX_MOOD_TEXT_CHARS {
            return Err(rule_error(CheckinRule::MoodTextLength));
        }
    }
    if let Some(tags) = &payload.physical_state_tags {
        if tags.len() > MAX_TAGS {
            return Err(rule_error(CheckinRule::TagCount));
        }
        if any_longer_than(tags, MAX_TAG_CHARS) {
            return Err(rule_error(CheckinRule::TagLength));
        }
    }
    if let Some(todos) = &payload.potential_todos {
        if todos.len() > MAX_TODOS {
            return Err(rule_error(CheckinRule::TodoCount));
        }
        if any_longer_than(todos, MAX_TODO_CHARS) {
            return Err(rule_error(CheckinRule::TodoLength));
        }
    }
    Ok(date)
}

/// Stored text of an optional text field: the empty string stands for absent.
pub open spec fn stored_text(o: Option<String>) -> Seq<char> {
    match o {
        Some(t) => t@,
        None => Seq::empty(),
    }
}

/// `row` is the live row that records `p` on `date`, under the external
/// identity `uuid`, created at `now`.
pub open spec fn is_new_row<T>(
    row: CheckinRow<T>,
    p: CreateDailyCheckinPayload,
    date: CalendarDate,
    uuid: Seq<char>,
    now: T,
) -> bool {
    &&& row.uuid@ == uuid
    &&& row.date == date
    &&& row.mood_level == p.mood_level
    &&& row.mood_text@ == stored_text(p.mood_text)
    &&& row.physical_state_tags@ == encoded_list(opt_texts(p.physical_state_tags))
    &&& row.physical_state_text@ == Seq::<char>::empty()
    &&& row.potential_todos@ == encoded_list(opt_texts(p.potential_todos))
    &&& row.created_at == now
    &&& row.updated_at == now
    &&& row.deleted_at is None
}

/// Builds the row that records a validated payload on `date`, unless a live
/// row already holds that date. The new row is live: it has no deletion time.
pub fn new_checkin_row<T: Copy>(
    payload: CreateDailyCheckinPayload,
    date: CalendarDate,
    live_row_exists: bool,
    external_id: String,
    now: T,
) -> (r: Result<CheckinRow<T>, AppError>)
    ensures
        r is Err <==> live_row_exists,
        r matches Err(e) ==> reports(e, CheckinRule::DuplicateDate),
        r matches Ok(row) ==> is_new_row(row, payload, date, external_id@, now),
{
    if live_row_exists {
        return Err(rule_error(CheckinRule::DuplicateDate));
    }
    let physical_state_tags = encode_list(&payload.physical_state_tags);
    let potential_todos = encode_list(&payload.potential_todos);
    let mood_text = match payload.mood_text {
        Some(t) => t,
        None => String::new(),
    };
    Ok(CheckinRow {
        uuid: external_id,
        date,
        mood_level: payload.mood_level,
        mood_text,
        physical_state_tags,
        physical_state_text: String::new(),
        potential_todos,
        created_at: now,
        updated_at: now,
        deleted_at: None,
    })
}

/// Relies on uuid's `Uuid::new_v4` and its `Display`, the hyphenated form of
/// 36 characters: a fresh random external identity.
#[verifier::external_body]
fn new_external_id() -> (r: String)
    ensures
        r@.len() == 36,
{
    uuid::Uuid::new_v4().to_string()
}

/// First step of recording a check-in: validates the payload against the
/// current UTC date, whatever that date is, and returns the date it names.
pub fn begin_record(payload: &CreateDailyCheckinPayload) -> (r: Result<CalendarDate, AppError>)
    ensures
        exists|today: CalendarDate| today.valid() && #[trigger] validation_outcome(*payload, today, r),
{
    let today = today_utc();
    validate_payload(payload, today)
}

/// Second step of recording a check-in, once the caller has looked up whether
/// a live row holds `date`: the row to insert, under a fresh external identity
/// and with the current time (microseconds since the epoch) as its creation
/// and update time.
pub fn finish_record(payload: CreateDailyCheckinPayload, date: CalendarDate, live_row_exists: bool) -> (r:
    Result<CheckinRow<i64>, AppError>)
    ensures
        r is Err <==> live_row_exists,
        r matches Err(e) ==> reports(e, CheckinRule::DuplicateDate),
        r matches Ok(row) ==> row.uuid@.len() == 36 && is_new_row(
            row,
            payload,
            date,
            row.uuid@,
            row.created_at,
        ),
{
    let external_id = new_external_id();
    let now = now_micros();
    new_checkin_row(payload, date, live_row_exists, external_id, now)
}

/// Stored text field as the caller sees it: the empty string is absent.
pub open spec fn shown_text(s: Seq<char>) -> Option<Seq<char>> {
    if s.len() == 0 {
        None
    } else {
        Some(s)
    }
}

/// `r` is the response for the stored row `row`: empty text fields and
/// undecodable or empty list fields are absent.
pub open spec fn is_response_of(r: DailyCheckinResponse, row: CheckinRow<String>) -> bool {
    &&& r.uuid@ == row.uuid@
    &&& r.date@ == date_text_of(row.date.year as int, row.date.month as int, row.date.day as int)
    &&& r.mood_level == row.mood_level
    &&& crate::error::opt_text(r.mood_text) == shown_text(row.mood_text@)
    &&& opt_texts(r.physical_state_tags) == decoded_list(row.physical_state_tags@)
    &&& opt_texts(r.potential_todos) == decoded_list(row.potential_todos@)
    &&& r.created_at@ == row.created_at@
    &&& r.updated_at@ == row.updated_at@
}

impl DailyCheckinResponse {
    /// The response for a stored row whose timestamps are already text.
    pub fn from_row(row: CheckinRow<String>) -> (r: DailyCheckinResponse)
        requires
            row.date.valid(),
        ensures
            is_response_of(r, row),
    {
        let date = date_text(row.date);
        let physical_state_tags = decode_list(row.physical_state_tags.as_str());
        let potential_todos = decode_list(row.potential_todos.as_str());
        let mood_text = if row.mood_text.as_str().is_empty() {
            None
        } else {
            Some(row.mood_text)
        };
        DailyCheckinResponse {
            uuid: row.uuid,
            date,
            mood_level: row.mood_level,
            mood_text,
            physical_state_tags,
            potential_todos,
            created_at: row.created_at,
            updated_at: row.updated_at,
        }
    }
}

/// Last step of a lookup by date, once the caller has fetched the row for the
/// date, if any: no row, or a soft-deleted one, is an absent result, not an
/// error.
pub fn checkin_for_date(found: Option<CheckinRow<String>>) -> (r: Option<DailyCheckinResponse>)
    requires
        found matches Some(row) ==> row.date.valid(),
    ensures
        r is None <==> (found is None || found->0.deleted_at is Some),
        r matches Some(resp) ==> is_response_of(resp, found->0),
{
    match found {
        Some(row) => if row.deleted_at.is_some() {
            None
        } else {
            Some(DailyCheckinResponse::from_row(row))
        },
        None => None,
    }
}

/// The error for a failed insert of a new check-in: a violation of the
/// store's uniqueness of live dates is the same duplicate failure that the
/// lookup reports; any other failure is an engine failure with its details.
pub fn insert_error(unique_violation: bool, details: &str) -> (r: AppError)
    ensures
        unique_violation ==> reports(r, CheckinRule::DuplicateDate),
        !unique_violation ==> (r matches AppError::Database { user_message: u, details: d } && u@
            == crate::error::database_message() && d@ == details@),
{
    if unique_violation {
        rule_error(CheckinRule::DuplicateDate)
    } else {
        AppError::database(details)
    }
}

/// Some live row of `rows` holds `date`.
pub open spec fn live_on<T>(rows: Seq<CheckinRow<T>>, date: CalendarDate) -> bool {
    exists|i: int| 0 <= i < rows.len() && #[trigger] rows[i].date == date && rows[i].deleted_at is None
}

/// No two live rows of `rows` hold the same date.
pub open spec fn one_live_per_date<T>(rows: Seq<CheckinRow<T>>) -> bool {
    forall|i: int, j: int|
        0 <= i < rows.len() && 0 <= j < rows.len() && i != j && rows[i].deleted_at is None
            && rows[j].deleted_at is None ==> #[trigger] rows[i].date != #[trigger] rows[j].date
}

/// The rule that stops recording `p` when `today` is the current date and
/// `live_exists` tells whether a live row holds its date; none where it is
/// recorded.
pub open spec fn record_rejection(
    p: CreateDailyCheckinPayload,
    today: CalendarDate,
    live_exists: bool,
) -> Option<CheckinRule> {
    match first_violation(p, today) {
        Some(rule) => Some(rule),
        None => if live_exists {
            Some(CheckinRule::DuplicateDate)
        } else {
            None
        },
    }
}

/// The date that a payload names, where it names one.
pub open spec fn named_date(p: CreateDailyCheckinPayload, d: CalendarDate) -> bool {
    iso_date_of(p.date@) == Some(ymd(d))
}

/// Recording succeeds once per date: where a table keeps at most one live row
/// per date and `p` is recorded as `row`, the table with `row` still does; any
/// later payload that names the same date and breaks no other rule is refused
/// as a duplicate, reported on `date`; and payloads naming other dates fare
/// as they did before.
pub proof fn lemma_one_checkin_per_date<T>(
    rows: Seq<CheckinRow<T>>,
    p: CreateDailyCheckinPayload,
    today: CalendarDate,
    date: CalendarDate,
    row: CheckinRow<T>,
    uuid: Seq<char>,
    now: T,
)
    requires
        one_live_per_date(rows),
        named_date(p, date),
        record_rejection(p, today, live_on(rows, date)) is None,
        is_new_row(row, p, date, uuid, now),
    ensures
        one_live_per_date(rows.push(row)),
        live_on(rows.push(row), date),
        forall|q: CreateDailyCheckinPayload|
            #![trigger record_rejection(q, today, live_on(rows.push(row), date))]
            named_date(q, date) && first_violation(q, today) is None ==> record_rejection(
                q,
                today,
                live_on(rows.push(row), date),
            ) == Some(CheckinRule::DuplicateDate),
        rule_field(CheckinRule::DuplicateDate) == "date"@,
        forall|other: CalendarDate|
            other != date ==> #[trigger] live_on(rows.push(row), other) == live_on(rows, other),
{
    let rows2 = rows.push(row);
    assert(rows2[rows.len() as int] == row);
    assert(live_on(rows2, date));
    assert forall|other: CalendarDate| other != date implies #[trigger] live_on(rows2, other)
        == live_on(rows, other) by {
        if live_on(rows2, other) {
            let i = choose|i: int|
                0 <= i < rows2.len() && #[trigger] rows2[i].date == other && rows2[i].deleted_at is None;
            assert(i < rows.len());
            assert(rows[i] == rows2[i]);
        }
        if live_on(rows, other) {
            let i = choose|i: int|
                0 <= i < rows.len() && #[trigger] rows[i].date == other && rows[i].deleted_at is None;
            assert(rows[i] == rows2[i]);
        }
    }
    assert forall|i: int, j: int|
        0 <= i < rows2.len() && 0 <= j < rows2.len() && i != j && rows2[i].deleted_at is None
            && rows2[j].deleted_at is None implies #[trigger] rows2[i].date
        != #[trigger] rows2[j].date by {
        if i < rows.len() && j < rows.len() {
            assert(rows[i] == rows2[i] && rows[j] == rows2[j]);
        } else if i < rows.len() {
            assert(rows[i] == rows2[i]);
            if rows2[i].date == date {
                assert(live_on(rows, date));
            }
        } else {
            assert(rows[j] == rows2[j]);
            if rows2[j].date == date {
                assert(live_on(rows, date));
            }
        }
    }
}

/// Mood levels at the ends of the range are accepted and those just outside
/// are refused, reported on `moodLevel`: for a payload with only a date that
/// is not after today, levels 1 and 5 break no rule, and levels 0 and 6 break
/// the mood rule first.
pub proof fn lemma_mood_level_bounds(p: CreateDailyCheckinPayload, today: CalendarDate)
    requires
        iso_date_of(p.date@) is Some,
        !ymd_after(iso_date_of(p.date@)->0, ymd(today)),
        p.mood_text is None,
        p.physical_state_tags is None,
        p.potential_todos is None,
    ensures
        p.mood_level == 1 || p.mood_level == 5 ==> first_violation(p, today) is None,
        p.mood_level == 0 || p.mood_level == 6 ==> first_violation(p, today) == Some(
            CheckinRule::MoodLevelRange,
        ),
        rule_field(CheckinRule::MoodLevelRange) == "moodLevel"@,
{
}

/// Omitted lists read back absent through the whole path: where a row was
/// recorded from `p`, stored with its text fields unchanged, and read back as
/// `r`, each list that `p` omitted is absent in `r`, never an empty list, and
/// so is an omitted mood text.
pub proof fn lemma_omitted_lists_absent_on_read<T>(
    row: CheckinRow<T>,
    p: CreateDailyCheckinPayload,
    date: CalendarDate,
    uuid: Seq<char>,
    now: T,
    stored: CheckinRow<String>,
    r: DailyCheckinResponse,
)
    requires
        is_new_row(row, p, date, uuid, now),
        stored.mood_text@ == row.mood_text@,
        stored.physical_state_tags@ == row.physical_state_tags@,
        stored.potential_todos@ == row.potential_todos@,
        is_response_of(r, stored),
    ensures
        p.mood_text is None ==> r.mood_text is None,
        p.physical_state_tags is None ==> r.physical_state_tags is None,
        p.potential_todos is None ==> r.potential_todos is None,
{
}

} // verus!
