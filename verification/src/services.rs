//! Guarding the stop of Windows services.
use crate::errors::{AppError, AppResult, protected_text};
use crate::guards::{is_protected_service, listed, protected_services};
use vstd::prelude::*;

verus! {

/// Refuses to stop a protected service; any other may be stopped.
pub fn check_service_stop(service_name: &str) -> (r: AppResult<()>)
    ensures
        r is Err <==> listed(protected_services(), service_name@),
        r matches Err(e) ==> e matches AppError::SecurityGuard(m) && m@ == protected_text(
            "Service"@,
            service_name@,
        ),
{
    if is_protected_service(service_name) {
        Err(AppError::protected_service(service_name))
    } else {
        Ok(())
    }
}

} // verus!
