use vstd::prelude::*;
use vstd::string::StringExecFns;

verus! {

/// The failure taxonomy of a lookup run: transport failure, malformed
/// registry data, unknown identifier, cancelled interactive selection, and
/// file-write failure. Every one of them ends the run; none is retried.
#[derive(Debug)]
pub enum AppError {
    /// The HTTP transport failed, or a response body was not valid JSON.
    RequestFailed(String),
    /// The registry document does not hold the expected list of licenses.
    MalformedLicenseData,
    /// No license in the registry carries the requested identifier.
    LicenseNotFound(String),
    /// The interactive selection ended without a choice.
    SelectionCancelled,
    /// The license text could not be written to the requested file.
    FileWriteError(String),
}

/// The message that each error variant carries to the terminal.
pub open spec fn spec_message(e: AppError) -> Seq<char> {
    match e {
        AppError::RequestFailed(m) => "HTTP request failed: "@ + m@,
        AppError::MalformedLicenseData => "License data is missing or malformed"@,
        AppError::LicenseNotFound(id) => "License not found for SPDX identifier: "@ + id@,
        AppError::SelectionCancelled => "No license selected."@,
        AppError::FileWriteError(m) => "Failed to write to file: "@ + m@,
    }
}

/// Law: errors of different kinds carry different messages, whatever their
/// payloads, so a terminal report always tells the failure kinds apart.
pub proof fn lemma_messages_distinct(e1: AppError, e2: AppError)
    requires
        !(e1 is RequestFailed && e2 is RequestFailed),
        !(e1 is MalformedLicenseData && e2 is MalformedLicenseData),
        !(e1 is LicenseNotFound && e2 is LicenseNotFound),
        !(e1 is SelectionCancelled && e2 is SelectionCancelled),
        !(e1 is FileWriteError && e2 is FileWriteError),
    ensures
        spec_message(e1) != spec_message(e2),
{
    reveal_strlit("HTTP request failed: ");
    reveal_strlit("License data is missing or malformed");
    reveal_strlit("License not found for SPDX identifier: ");
    reveal_strlit("No license selected.");
    reveal_strlit("Failed to write to file: ");
    // the two messages that both start with "License" differ at index 8
    // ("data" against "not found"); every other pair differs at index 0
    assert(spec_message(AppError::MalformedLicenseData)[8] == 'd');
    if e1 is LicenseNotFound {
        assert(spec_message(e1)[0] == 'L' && spec_message(e1)[8] == 'n');
    }
    if e2 is LicenseNotFound {
        assert(spec_message(e2)[0] == 'L' && spec_message(e2)[8] == 'n');
    }
    if e1 is RequestFailed {
        assert(spec_message(e1)[0] == 'H');
    }
    if e2 is RequestFailed {
        assert(spec_message(e2)[0] == 'H');
    }
    if e1 is FileWriteError {
        assert(spec_message(e1)[0] == 'F');
    }
    if e2 is FileWriteError {
        assert(spec_message(e2)[0] == 'F');
    }
}

impl AppError {
    /// The human-readable message of this error.
    pub fn message(&self) -> (r: String)
        ensures
            r@ == spec_message(*self),
    {
        match self {
            AppError::RequestFailed(m) => String::from_str("HTTP request failed: ").concat(
                m.as_str(),
            ),
            AppError::MalformedLicenseData => String::from_str(
                "License data is missing or malformed",
            ),
            AppError::LicenseNotFound(id) => String::from_str(
                "License not found for SPDX identifier: ",
            ).concat(id.as_str()),
            AppError::SelectionCancelled => String::from_str("No license selected."),
            AppError::FileWriteError(m) => String::from_str("Failed to write to file: ").concat(
                m.as_str(),
            ),
        }
    }
}

} // verus!
