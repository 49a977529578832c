//! Error taxonomy shared by every service operation.

use vstd::prelude::*;

verus! {

broadcast use vstd::string::group_string_axioms;

/// Category of a failure, as shown to the user and used by the shell to branch.
#[derive(Debug, Clone, Copy, PartialEq, Eq, Structural)]
pub enum UserMessageKind {
    Database,
    Validation,
    Io,
    NotFound,
    Network,
    Authentication,
    Permission,
    ExternalService,
    IdGeneration,
    TimeUtils,
    Unexpected,
}

/// Failure of a service operation. `user_message` is the localized text that
/// crosses the boundary; the other fields are local diagnostics.
#[derive(Debug, Clone)]
pub enum AppError {
    Database { user_message: String, details: String },
    Validation { user_message: String, field: String, message: String },
    Io { user_message: String, details: String },
    NotFound { user_message: String, resource_type: String, resource_id: String, details: String },
    IdGeneration { user_message: String, details: String },
    TimeUtils { user_message: String, details: String },
    ExternalService { user_message: String, service_name: String, details: String },
    Unexpected { user_message: String, details: String },
}

/// What crosses the boundary for an error: its category, the user-facing
/// message, and the identifying fields of validation and lookup failures.
/// Diagnostic details never appear here.
#[derive(Debug, Clone)]
pub struct ErrorEnvelope {
    pub kind: UserMessageKind,
    pub message: String,
    pub field: Option<String>,
    pub resource_type: Option<String>,
    pub resource_id: Option<String>,
}

pub open spec fn default_validation_message() -> Seq<char> {
    "入力内容が正しくありません。"@
}

pub open spec fn default_unexpected_message() -> Seq<char> {
    "予期せぬエラーが発生しました。しばらくしてから再度お試しください。"@
}

pub open spec fn database_message() -> Seq<char> {
    "データベース処理中にエラーが発生しました。"@
}

pub open spec fn processing_message() -> Seq<char> {
    "データの処理中に問題が発生しました。"@
}

/// Default user message of a lookup miss: it names the kind of resource.
pub open spec fn not_found_message(resource_type: Seq<char>) -> Seq<char> {
    "指定された"@ + resource_type + "が見つかりませんでした。"@
}

pub open spec fn text_or(o: Option<&str>, d: Seq<char>) -> Seq<char> {
    match o {
        Some(s) => s@,
        None => d,
    }
}

pub open spec fn opt_text(o: Option<String>) -> Option<Seq<char>> {
    match o {
        Some(s) => Some(s@),
        None => None,
    }
}

impl AppError {
    /// The category of this error.
    pub open spec fn kind_of(self) -> UserMessageKind {
        match self {
            AppError::Database { .. } => UserMessageKind::Database,
            AppError::Validation { .. } => UserMessageKind::Validation,
            AppError::Io { .. } => UserMessageKind::Io,
            AppError::NotFound { .. } => UserMessageKind::NotFound,
            AppError::IdGeneration { .. } => UserMessageKind::IdGeneration,
            AppError::TimeUtils { .. } => UserMessageKind::TimeUtils,
            AppError::ExternalService { .. } => UserMessageKind::ExternalService,
            AppError::Unexpected { .. } => UserMessageKind::Unexpected,
        }
    }

    /// The user-facing message of this error.
    pub open spec fn user_message_of(self) -> Seq<char> {
        match self {
            AppError::Database { user_message, .. } => user_message@,
            AppError::Validation { user_message, .. } => user_message@,
            AppError::Io { user_message, .. } => user_message@,
            AppError::NotFound { user_message, .. } => user_message@,
            AppError::IdGeneration { user_message, .. } => user_message@,
            AppError::TimeUtils { user_message, .. } => user_message@,
            AppError::ExternalService { user_message, .. } => user_message@,
            AppError::Unexpected { user_message, .. } => user_message@,
        }
    }

    /// This is a validation failure on `field`, whatever its messages.
    pub open spec fn is_validation_on(self, field: Seq<char>) -> bool {
        self matches AppError::Validation { field: f, .. } && f@ == field
    }

    /// This is exactly the validation failure with the given field and messages.
    pub open spec fn is_validation(
        self,
        field: Seq<char>,
        message: Seq<char>,
        user_message: Seq<char>,
    ) -> bool {
        &&& self.is_validation_on(field)
        &&& self matches AppError::Validation { message: m, user_message: u, .. }
        &&& m@ == message
        &&& u@ == user_message
    }

    /// Validation failure on `field`; without a user message the generic one is used.
    pub fn validation(field: &str, message: &str, user_message: Option<&str>) -> (r: AppError)
        ensures
            r.is_validation(field@, message@, text_or(user_message, default_validation_message())),
    {
        let user_message = match user_message {
            Some(u) => u.to_string(),
            None => "入力内容が正しくありません。".to_string(),
        };
        AppError::Validation { user_message, field: field.to_string(), message: message.to_string() }
    }

    /// Lookup miss of the resource `resource_id` of kind `resource_type`; without
    /// a user message, one that names the kind of resource is used.
    pub fn not_found(
        resource_type: &str,
        resource_id: &str,
        details: &str,
        user_message: Option<&str>,
    ) -> (r: AppError)
        ensures
            r matches AppError::NotFound { user_message: u, resource_type: t, resource_id: i, details: d }
                && u@ == text_or(user_message, not_found_message(resource_type@))
                && t@ == resource_type@ && i@ == resource_id@ && d@ == details@,
    {
        let user_message = match user_message {
            Some(u) => u.to_string(),
            None => {
                let mut m = "指定された".to_string();
                m.append(resource_type);
                m.append("が見つかりませんでした。");
                m
            },
        };
        AppError::NotFound {
            user_message,
            resource_type: resource_type.to_string(),
            resource_id: resource_id.to_string(),
            details: details.to_string(),
        }
    }

    /// Failure that fits no other category.
    pub fn unexpected(details: &str, user_message: Option<&str>) -> (r: AppError)
        ensures
            r matches AppError::Unexpected { user_message: u, details: d } && u@ == text_or(
                user_message,
                default_unexpected_message(),
            ) && d@ == details@,
    {
        let user_message = match user_message {
            Some(u) => u.to_string(),
            None => "予期せぬエラーが発生しました。しばらくしてから再度お試しください。".to_string(),
        };
        AppError::Unexpected { user_message, details: details.to_string() }
    }

    /// Engine failure, with the engine's own description kept as details.
    pub fn database(details: &str) -> (r: AppError)
        ensures
            r matches AppError::Database { user_message: u, details: d } && u@ == database_message()
                && d@ == details@,
    {
        AppError::Database {
            user_message: "データベース処理中にエラーが発生しました。".to_string(),
            details: details.to_string(),
        }
    }

    /// The part of this error that crosses the boundary: its category, its
    /// user message, the field of a validation failure, and the resource of a
    /// lookup miss.
    pub fn to_envelope(&self) -> (r: ErrorEnvelope)
        ensures
            r.kind == self.kind_of(),
            r.message@ == self.user_message_of(),
            opt_text(r.field) == match self {
                AppError::Validation { field, .. } => Some(field@),
                _ => None,
            },
            opt_text(r.resource_type) == match self {
                AppError::NotFound { resource_type, .. } => Some(resource_type@),
                _ => None,
            },
            opt_text(r.resource_id) == match self {
                AppError::NotFound { resource_id, .. } => Some(resource_id@),
                _ => None,
            },
    {
        let (kind, message) = match self {
            AppError::Database { user_message, .. } => (UserMessageKind::Database, user_message),
            AppError::Validation { user_message, .. } => (UserMessageKind::Validation, user_message),
            AppError::Io { user_message, .. } => (UserMessageKind::Io, user_message),
            AppError::NotFound { user_message, .. } => (UserMessageKind::NotFound, user_message),
            AppError::IdGeneration { user_message, .. } => (
                UserMessageKind::IdGeneration,
                user_message,
            ),
            AppError::TimeUtils { user_message, .. } => (UserMessageKind::TimeUtils, user_message),
            AppError::ExternalService { user_message, .. } => (
                UserMessageKind::ExternalService,
                user_message,
            ),
            AppError::Unexpected { user_message, .. } => (UserMessageKind::Unexpected, user_message),
        };
        let field = match self {
            AppError::Validation { field, .. } => Some(field.clone()),
            _ => None,
        };
        let (resource_type, resource_id) = match self {
            AppError::NotFound { resource_type, resource_id, .. } => (
                Some(resource_type.clone()),
                Some(resource_id.clone()),
            ),
            _ => (None, None),
        };
        ErrorEnvelope { kind, message: message.clone(), field, resource_type, resource_id }
    }
}

} // verus!
