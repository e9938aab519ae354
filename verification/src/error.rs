//! What can go wrong between this scheduler and the kernel.

use vstd::prelude::*;

verus! {

/// Every failure the scheduler reports.
#[derive(Debug, PartialEq, Eq)]
pub enum TaskmasterError {
    /// A required environment variable is absent; names the variable.
    MissingEnv(&'static str),
    /// `TASKMASTER_SERVICE_ID` is not a UUID.
    InvalidServiceId,
    /// `ENROLLMENT_CHALLENGE` is not the unpadded base64url text of a challenge.
    InvalidEnrollmentChallenge,
    /// The extra certificate authority could not be read; holds the reason.
    CaCertificateUnreadable(String),
    /// The workload token could not be read; holds the reason.
    EnrollmentTokenUnreadable(String),
    /// The signed transport refused a call or could not carry it; holds the reason.
    Client(String),
    /// The kernel reported success in a body that is not the agreed shape;
    /// holds the decoder's message.
    MalformedResponse(String),
    /// The kernel answered with a status the operation does not define.
    UnexpectedStatus(u16),
}

} // verus!
