use vstd::prelude::*;

verus! {

pub const INTERNAL_SERVER_ERROR_STATUS: u16 = 500;

pub const NOT_FOUND_STATUS: u16 = 404;

pub const UNAUTHORIZED_ERROR_STATUS: u16 = 401;

pub const AUTH_ERROR_BODY: &'static str = "Valid client certificate required";

pub const SQL_ERROR_PREFIX: &'static str = "SQL Error: ";

pub const R2D2_ERROR_PREFIX: &'static str = "R2D2 Error: ";

pub const EXTENSION_REJECTION_PREFIX: &'static str = "Extension Rejection: ";

pub const IO_ERROR_PREFIX: &'static str = "IO Error: ";

pub const LOGGED_ERROR_PREFIX: &'static str = "GenericLoggedError: Status ";

pub const LOGGED_ERROR_SEPARATOR: &'static str = " | ";

pub const SILENT_ERROR_PREFIX: &'static str = "GenericSilentError: Status ";

/// An error of a request handler, with the text of its cause where the
/// answer or the log needs it.
pub enum AppErrorKind {
    /// An error that carries its own answer and a message to log.
    GenericLogged { message: String },
    /// An error that carries its own answer and is not logged.
    GenericSilent,
    /// A database error, with its description.
    SqlError { detail: String },
    /// A connection pool error, with its description.
    R2D2Error { detail: String },
    /// The client is not authenticated.
    Auth,
    /// A missing request extension, which carries its own answer.
    Extension { detail: String },
    /// A file system error, with its description.
    IO { detail: String },
    /// The requested file or record does not exist.
    FileNotFound,
}

/// The answer to send for an error.
#[derive(PartialEq, Eq, Structural, Debug, Clone, Copy)]
pub enum ResponsePlan {
    /// The answer that the error carries.
    Carried,
    /// An answer with this status, and the plan's body if it has one.
    Status(u16),
}

/// The answer to an error, its body when the answer is made here, and the
/// message, if any, to log for it.
pub struct ErrorPlan {
    pub response: ResponsePlan,
    pub body: Option<&'static str>,
    pub log_message: Option<String>,
}

pub open spec fn body_text(plan: ErrorPlan) -> Option<Seq<char>> {
    match plan.body {
        Some(b) => Some(b@),
        None => None,
    }
}

/// The body of the answer to an error: only the authentication refusal has one.
pub open spec fn body_spec(kind: AppErrorKind) -> Option<Seq<char>> {
    match kind {
        AppErrorKind::Auth => Some(AUTH_ERROR_BODY@),
        _ => None,
    }
}

pub open spec fn log_text(plan: ErrorPlan) -> Option<Seq<char>> {
    match plan.log_message {
        Some(m) => Some(m@),
        None => None,
    }
}

/// The answer that an error gets.
pub open spec fn response_spec(kind: AppErrorKind) -> ResponsePlan {
    match kind {
        AppErrorKind::GenericLogged { .. } => ResponsePlan::Carried,
        AppErrorKind::GenericSilent => ResponsePlan::Carried,
        AppErrorKind::SqlError { .. } => ResponsePlan::Status(INTERNAL_SERVER_ERROR_STATUS),
        AppErrorKind::R2D2Error { .. } => ResponsePlan::Status(INTERNAL_SERVER_ERROR_STATUS),
        AppErrorKind::Auth => ResponsePlan::Status(UNAUTHORIZED_ERROR_STATUS),
        AppErrorKind::Extension { .. } => ResponsePlan::Carried,
        AppErrorKind::IO { .. } => ResponsePlan::Status(INTERNAL_SERVER_ERROR_STATUS),
        AppErrorKind::FileNotFound => ResponsePlan::Status(NOT_FOUND_STATUS),
    }
}

/// The message logged for an error, if any.
pub open spec fn log_spec(kind: AppErrorKind) -> Option<Seq<char>> {
    match kind {
        AppErrorKind::GenericLogged { message } => Some(message@),
        AppErrorKind::GenericSilent => None,
        AppErrorKind::SqlError { detail } => Some(SQL_ERROR_PREFIX@ + detail@),
        AppErrorKind::R2D2Error { detail } => Some(R2D2_ERROR_PREFIX@ + detail@),
        AppErrorKind::Auth => None,
        AppErrorKind::Extension { detail } => Some(EXTENSION_REJECTION_PREFIX@ + detail@),
        AppErrorKind::IO { detail } => Some(IO_ERROR_PREFIX@ + detail@),
        AppErrorKind::FileNotFound => None,
    }
}

fn prefixed(prefix: &str, detail: &String) -> (res: String)
    ensures
        res@ == prefix@ + detail@,
{
    let mut res = String::from_str(prefix);
    res.append(detail.as_str());
    res
}

/// How an error is answered, and what is logged for it.
pub fn error_response_plan(kind: AppErrorKind) -> (res: ErrorPlan)
    ensures
        res.response == response_spec(kind),
        body_text(res) == body_spec(kind),
        log_text(res) == log_spec(kind),
{
    match kind {
        AppErrorKind::GenericLogged { message } => ErrorPlan {
            response: ResponsePlan::Carried,
            body: None,
            log_message: Some(message),
        },
        AppErrorKind::GenericSilent => ErrorPlan { response: ResponsePlan::Carried, body: None, log_message: None },
        AppErrorKind::SqlError { detail } => ErrorPlan {
            response: ResponsePlan::Status(INTERNAL_SERVER_ERROR_STATUS),
            body: None,
            log_message: Some(prefixed(SQL_ERROR_PREFIX, &detail)),
        },
        AppErrorKind::R2D2Error { detail } => ErrorPlan {
            response: ResponsePlan::Status(INTERNAL_SERVER_ERROR_STATUS),
            body: None,
            log_message: Some(prefixed(R2D2_ERROR_PREFIX, &detail)),
        },
        AppErrorKind::Auth => ErrorPlan {
            response: ResponsePlan::Status(UNAUTHORIZED_ERROR_STATUS),
            body: Some(AUTH_ERROR_BODY),
            log_message: None,
        },
        AppErrorKind::Extension { detail } => ErrorPlan {
            response: ResponsePlan::Carried,
            body: None,
            log_message: Some(prefixed(EXTENSION_REJECTION_PREFIX, &detail)),
        },
        AppErrorKind::IO { detail } => ErrorPlan {
            response: ResponsePlan::Status(INTERNAL_SERVER_ERROR_STATUS),
            body: None,
            log_message: Some(prefixed(IO_ERROR_PREFIX, &detail)),
        },
        AppErrorKind::FileNotFound => ErrorPlan {
            response: ResponsePlan::Status(NOT_FOUND_STATUS),
            body: None,
            log_message: None,
        },
    }
}

/// The text of a logged error, given the text of its answer's status.
pub fn logged_error_text(status: &str, message: &str) -> (res: String)
    ensures
        res@ == LOGGED_ERROR_PREFIX@ + status@ + LOGGED_ERROR_SEPARATOR@ + message@,
{
    let mut res = String::from_str(LOGGED_ERROR_PREFIX);
    res.append(status);
    res.append(LOGGED_ERROR_SEPARATOR);
    res.append(message);
    res
}

/// The text of a silent error, given the text of its answer's status.
pub fn silent_error_text(status: &str) -> (res: String)
    ensures
        res@ == SILENT_ERROR_PREFIX@ + status@,
{
    let mut res = String::from_str(SILENT_ERROR_PREFIX);
    res.append(status);
    res
}

/// Errors that carry an answer keep it; only the errors that the client can
/// do nothing about are answered with a server error, and those are always
/// logged.
pub proof fn lemma_server_errors_are_logged(kind: AppErrorKind)
    ensures
        response_spec(kind) == ResponsePlan::Status(INTERNAL_SERVER_ERROR_STATUS) ==> log_spec(
            kind,
        ) is Some,
        response_spec(kind) == ResponsePlan::Status(UNAUTHORIZED_ERROR_STATUS) ==> log_spec(
            kind,
        ) is None && body_spec(kind) == Some(AUTH_ERROR_BODY@),
{
}

} // verus!
