//! Micro-tasks: small follow-up items attached to a check-in by the
//! check-in's external identity. Same pattern as the check-in service: the
//! caller looks up whether the referenced check-in is live, and this module
//! validates the payload and builds the row to insert.

use vstd::prelude::*;
use vstd::string::StrSliceExecFns;
use crate::error::AppError;

verus! {

pub const MAX_TASK_DESCRIPTION_CHARS: usize = 200;
pub const MAX_TASK_MEMO_CHARS: usize = 1000;

/// What a caller sends to create a micro-task.
#[derive(Debug, Clone)]
pub struct CreateMicroTaskPayload {
    pub checkin_uuid: String,
    pub task_description: String,
    pub task_memo: Option<String>,
}

/// A row of the micro-task table, with timestamps of type `T`. An absent memo
/// is stored as the empty string.
#[derive(Debug, Clone)]
pub struct MicroTaskRow<T> {
    pub uuid: String,
    pub checkin_uuid: String,
    pub task_description: String,
    pub task_memo: String,
    pub is_completed: bool,
    pub completed_at: Option<T>,
    pub created_at: T,
    pub updated_at: T,
    pub deleted_at: Option<T>,
    pub sort_order: i32,
}

/// The rules that a new micro-task must meet, in the order they are checked.
#[derive(Debug, Clone, Copy, PartialEq, Eq, Structural)]
pub enum MicroTaskRule {
    DescriptionRequired,
    DescriptionLength,
    MemoLength,
}

pub open spec fn task_rule_field(rule: MicroTaskRule) -> Seq<char> {
    match rule {
        MicroTaskRule::DescriptionRequired | MicroTaskRule::DescriptionLength => "taskDescription"@,
        MicroTaskRule::MemoLength => "taskMemo"@,
    }
}

pub open spec fn task_rule_message(rule: MicroTaskRule) -> Seq<char> {
    match rule {
        MicroTaskRule::DescriptionRequired => "Task description is required"@,
        MicroTaskRule::DescriptionLength => "Task description must be 200 characters or less"@,
        MicroTaskRule::MemoLength => "Task memo must be 1000 characters or less"@,
    }
}

pub open spec fn task_rule_user_message(rule: MicroTaskRule) -> Seq<char> {
    match rule {
        MicroTaskRule::DescriptionRequired => "タスクの内容を入力してください。"@,
        MicroTaskRule::DescriptionLength => "タスクの内容は200文字以内で入力してください。"@,
        MicroTaskRule::MemoLength => "タスクのメモは1000文字以内で入力してください。"@,
    }
}

/// The validation failure that reports a broken micro-task rule.
pub fn task_rule_error(rule: MicroTaskRule) -> (r: AppError)
    ensures
        r.is_validation(task_rule_field(rule), task_rule_message(rule), task_rule_user_message(rule)),
{
    match rule {
        MicroTaskRule::DescriptionRequired => AppError::validation(
            "taskDescription",
            "Task description is required",
            Some("タスクの内容を入力してください。"),
        ),
        MicroTaskRule::DescriptionLength => AppError::validation(
            "taskDescription",
            "Task description must be 200 characters or less",
            Some("タスクの内容は200文字以内で入力してください。"),
        ),
        MicroTaskRule::MemoLength => AppError::validation(
            "taskMemo",
            "Task memo must be 1000 characters or less",
            Some("タスクのメモは1000文字以内で入力してください。"),
        ),
    }
}

/// The first micro-task rule that the payload breaks.
pub open spec fn first_task_violation(p: CreateMicroTaskPayload) -> Option<MicroTaskRule> {
    if p.task_description@.len() == 0 {
        Some(MicroTaskRule::DescriptionRequired)
    } else if p.task_description@.len() > MAX_TASK_DESCRIPTION_CHARS {
        Some(MicroTaskRule::DescriptionLength)
    } else if p.task_memo matches Some(m) && m@.len() > MAX_TASK_MEMO_CHARS {
        Some(MicroTaskRule::MemoLength)
    } else {
        None
    }
}

/// `e` is the lookup miss for the check-in with external identity `uuid`.
pub open spec fn is_missing_checkin(e: AppError, uuid: Seq<char>) -> bool {
    e matches AppError::NotFound { resource_type: t, resource_id: i, .. } && t@ == "daily_checkin"@
        && i@ == uuid
}

/// `row` is the live, open task that records `p`, under the external identity
/// `uuid`, created at `now`, with the default sort order.
pub open spec fn is_new_task<T>(row: MicroTaskRow<T>, p: CreateMicroTaskPayload, uuid: Seq<char>, now: T) -> bool {
    &&& row.uuid@ == uuid
    &&& row.checkin_uuid@ == p.checkin_uuid@
    &&& row.task_description@ == p.task_description@
    &&& row.task_memo@ == match p.task_memo {
        Some(m) => m@,
        None => Seq::<char>::empty(),
    }
    &&& !row.is_completed
    &&& row.completed_at is None
    &&& row.created_at == now
    &&& row.updated_at == now
    &&& row.deleted_at is None
    &&& row.sort_order == 0
}

/// Builds the row of a new micro-task, once the caller has looked up whether
/// the referenced check-in is live. Broken rules come first, in order; then a
/// check-in that is missing or soft-deleted is a lookup miss.
pub fn new_micro_task_row<T: Copy>(
    payload: CreateMicroTaskPayload,
    checkin_is_live: bool,
    external_id: String,
    now: T,
) -> (r: Result<MicroTaskRow<T>, AppError>)
    ensures
        r is Ok <==> first_task_violation(payload) is None && checkin_is_live,
        first_task_violation(payload) matches Some(rule) ==> (r matches Err(e) && e.is_validation(
            task_rule_field(rule),
            task_rule_message(rule),
            task_rule_user_message(rule),
        )),
        first_task_violation(payload) is None && !checkin_is_live ==> (r matches Err(e)
            && is_missing_checkin(e, payload.checkin_uuid@)),
        r matches Ok(row) ==> is_new_task(row, payload, external_id@, now),
{
    let description_chars = payload.task_description.as_str().unicode_len();
    if description_chars == 0 {
        return Err(task_rule_error(MicroTaskRule::DescriptionRequired));
    }
    if description_chars > MAX_TASK_DESCRIPTION_CHARS {
        return Err(task_rule_error(MicroTaskRule::DescriptionLength));
    }
    if let Some(memo) = &payload.task_memo {
        if memo.as_str().unicode_len() > MAX_TASK_MEMO_CHARS {
            return Err(task_rule_error(MicroTaskRule::MemoLength));
        }
    }
    if !checkin_is_live {
        return Err(
            AppError::not_found(
                "daily_checkin",
                payload.checkin_uuid.as_str(),
                "referenced check-in is missing or deleted",
                None,
            ),
        );
    }
    let task_memo = match payload.task_memo {
        Some(m) => m,
        None => String::new(),
    };
    Ok(MicroTaskRow {
        uuid: external_id,
        checkin_uuid: payload.checkin_uuid,
        task_description: payload.task_description,
        task_memo,
        is_completed: false,
        completed_at: None,
        created_at: now,
        updated_at: now,
        deleted_at: None,
        sort_order: 0,
    })
}

} // verus!
