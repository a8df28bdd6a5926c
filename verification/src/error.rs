use vstd::prelude::*;

verus! {

/// The category of a failure reported to the script side.
#[derive(Clone, Copy, Debug, PartialEq, Eq, Structural)]
pub enum ErrorStatus {
    /// The call failed for a reason other than its arguments.
    GenericFailure,
    /// An argument of the call was not acceptable.
    InvalidArg,
}

/// A failure with its category and the message shown to the caller.
#[derive(Clone, Debug)]
pub struct NativeError {
    pub status: ErrorStatus,
    pub message: String,
}

impl NativeError {
    /// Builds an error of the given category.
    pub fn new(status: ErrorStatus, message: String) -> (e: NativeError)
        ensures
            e.status == status,
            e.message@ == message@,
    {
        NativeError { status, message }
    }
}


/// The error for a failed operation: `Failed to <action>: <detail>`.
pub fn failed_to(action: &str, detail: &str) -> (e: NativeError)
    ensures
        e.status == ErrorStatus::GenericFailure,
        e.message@ == "Failed to "@ + action@ + ": "@ + detail@,
{
    let mut m = String::from_str("Failed to ");
    m.append(action);
    m.append(": ");
    m.append(detail);
    NativeError { status: ErrorStatus::GenericFailure, message: m }
}

/// The error for a failure whose text is shown as it is.
pub fn generic_failure(detail: &str) -> (e: NativeError)
    ensures
        e.status == ErrorStatus::GenericFailure,
        e.message@ == detail@,
{
    NativeError { status: ErrorStatus::GenericFailure, message: String::from_str(detail) }
}

} // verus!
