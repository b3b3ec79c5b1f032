//! UEFI status codes as plain numbers.
use vstd::prelude::*;

verus! {

/// A UEFI status code.
#[derive(Clone, Copy, Debug, PartialEq, Eq, Structural)]
pub struct Status {
    /// The number that the firmware knows the status by.
    pub code: usize,
}

/// The code of the error with the given number: the highest bit of the word set, and the
/// number in the bits below it.
pub open spec fn error_code(number: int) -> int {
    usize::MAX / 2 + 1 + number
}

/// The operation completed successfully.
pub open spec fn success_status() -> Status {
    Status { code: 0 }
}

/// The image failed to load.
pub open spec fn load_error_status() -> Status {
    Status { code: error_code(1) as usize }
}

/// A parameter was incorrect.
pub open spec fn invalid_parameter_status() -> Status {
    Status { code: error_code(2) as usize }
}

/// A resource has run out.
pub open spec fn out_of_resources_status() -> Status {
    Status { code: error_code(9) as usize }
}

/// The item was not found.
pub open spec fn not_found_status() -> Status {
    Status { code: error_code(14) as usize }
}

/// Access was denied.
pub open spec fn access_denied_status() -> Status {
    Status { code: error_code(15) as usize }
}

impl Status {
    /// Whether the status reports success.
    pub open spec fn succeeds(self) -> bool {
        self.code == 0
    }
}

/// Calls `uefi_raw::Status::is_success`, which is true of the code zero alone: warnings and
/// errors are not successes.
#[verifier::external_body]
pub(crate) fn is_success(status: Status) -> (success: bool)
    ensures
        success == status.succeeds(),
{
    uefi_raw::Status(status.code).is_success()
}

/// The constant `uefi_raw::Status::SUCCESS`, whose code is zero.
#[verifier::external_body]
pub(crate) fn success() -> (status: Status)
    ensures
        status == success_status(),
{
    Status { code: uefi_raw::Status::SUCCESS.0 }
}

/// The constant `uefi_raw::Status::LOAD_ERROR`: the error bit and the number one.
#[verifier::external_body]
pub(crate) fn load_error() -> (status: Status)
    ensures
        status == load_error_status(),
{
    Status { code: uefi_raw::Status::LOAD_ERROR.0 }
}

/// The constant `uefi_raw::Status::INVALID_PARAMETER`: the error bit and the number two.
#[verifier::external_body]
pub(crate) fn invalid_parameter() -> (status: Status)
    ensures
        status == invalid_parameter_status(),
{
    Status { code: uefi_raw::Status::INVALID_PARAMETER.0 }
}

/// The constant `uefi_raw::Status::NOT_FOUND`: the error bit and the number fourteen.
#[verifier::external_body]
pub(crate) fn not_found() -> (status: Status)
    ensures
        status == not_found_status(),
{
    Status { code: uefi_raw::Status::NOT_FOUND.0 }
}

/// The constant `uefi_raw::Status::ACCESS_DENIED`: the error bit and the number fifteen.
#[verifier::external_body]
pub(crate) fn access_denied() -> (status: Status)
    ensures
        status == access_denied_status(),
{
    Status { code: uefi_raw::Status::ACCESS_DENIED.0 }
}

/// The statuses that the hook can give of itself are told apart by their codes, and of them
/// only the success status succeeds.
pub proof fn law_statuses_distinct()
    ensures
        success_status().succeeds(),
        !load_error_status().succeeds(),
        !invalid_parameter_status().succeeds(),
        !out_of_resources_status().succeeds(),
        !not_found_status().succeeds(),
        !access_denied_status().succeeds(),
        load_error_status() != invalid_parameter_status(),
        load_error_status() != not_found_status(),
        invalid_parameter_status() != not_found_status(),
        invalid_parameter_status() != out_of_resources_status(),
        forall|status: Status| #[trigger] status.succeeds() <==> status == success_status(),
{
}

/// A status succeeds exactly where its code is zero: no warning does, and no error.
pub proof fn law_success_is_zero(status: Status)
    ensures
        status.succeeds() <==> status.code == 0,
        status == success_status() <==> status.code == 0,
{
}

/// The codes of the errors, which are numbered from the highest bit of the word on.
pub proof fn law_error_codes()
    ensures
        load_error_status().code == usize::MAX / 2 + 1 + 1,
        invalid_parameter_status().code == usize::MAX / 2 + 1 + 2,
        out_of_resources_status().code == usize::MAX / 2 + 1 + 9,
        not_found_status().code == usize::MAX / 2 + 1 + 14,
        access_denied_status().code == usize::MAX / 2 + 1 + 15,
{
}

} // verus!
