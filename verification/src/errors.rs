//! Errors of the optimizer.
use crate::text::owned;
use vstd::prelude::*;
use vstd::string::StringExecFns;

verus! {

broadcast use vstd::string::group_string_axioms;

/// `std::io::Error`, carried by `AppError::Io`.
#[verifier::external_type_specification]
#[verifier::external_body]
pub struct ExIoError(std::io::Error);

/// `serde_json::Error`, carried by `AppError::Json`.
#[verifier::external_type_specification]
#[verifier::external_body]
pub struct ExJsonError(serde_json::Error);

/// Everything that can go wrong.
#[derive(Debug)]
pub enum AppError {
    NotElevated,
    ExecutableNotFound(String),
    WindowsApi(String),
    ServiceError { service: String, message: String },
    ProcessError { process: String, message: String },
    RegistryError(String),
    Io(std::io::Error),
    Json(serde_json::Error),
    ProfileNotFound(String),
    SessionError(String),
    SecurityGuard(String),
}

pub type AppResult<T> = Result<T, AppError>;

/// The text of a guard refusal: `"<kind> '<name>' is protected"`.
pub open spec fn protected_text(kind: Seq<char>, name: Seq<char>) -> Seq<char> {
    kind + " '"@ + name + "' is protected"@
}

impl AppError {
    /// Whether the error is a refusal of the security guard.
    pub fn is_security_guard(&self) -> (b: bool)
        ensures
            b == (*self is SecurityGuard),
    {
        match self {
            AppError::SecurityGuard(_) => true,
            _ => false,
        }
    }

    /// The refusal to stop the protected service `name`.
    pub fn protected_service(name: &str) -> (e: AppError)
        ensures
            e matches AppError::SecurityGuard(m) && m@ == protected_text("Service"@, name@),
    {
        let m = owned("Service").concat(" '").concat(name).concat("' is protected");
        AppError::SecurityGuard(m)
    }

    /// The refusal to terminate the protected process `name`.
    pub fn protected_process(name: &str) -> (e: AppError)
        ensures
            e matches AppError::SecurityGuard(m) && m@ == protected_text("Process"@, name@),
    {
        let m = owned("Process").concat(" '").concat(name).concat("' is protected");
        AppError::SecurityGuard(m)
    }
}

/// Refuses a session without administrator rights (`elevated` is what the
/// process token says).
pub fn check_elevation(elevated: bool) -> (r: AppResult<()>)
    ensures
        elevated <==> r is Ok,
        !elevated ==> r matches Err(AppError::NotElevated),
{
    if !elevated {
        Err(AppError::NotElevated)
    } else {
        Ok(())
    }
}

} // verus!
