use vstd::prelude::*;

verus! {

/// The ways a call of this client can fail.
#[derive(Clone, Copy, Debug, PartialEq, Eq, Structural)]
pub enum ApiError {
    /// The credentials text is not JSON, or lacks a string `dev_id` or `token`.
    CredentialRead,
    /// The request could not be carried out, or the server answered with a failure.
    Transport,
    /// The response body does not have the expected shape.
    MalformedResponse,
    /// The system clock reads a time that the fourteen-digit form cannot hold.
    ClockOutOfRange,
}

} // verus!
