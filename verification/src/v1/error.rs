use vstd::prelude::*;

verus! {

/// An error returned by the API, or met on the way to it.
#[derive(Clone, Debug)]
pub struct ApiError {
    pub message: String,
}

/// Why a client could not be built.
#[derive(Clone, Copy, Debug, PartialEq, Eq, Structural)]
pub enum ClientError {
    /// Neither an API key nor the `MISTRAL_API_KEY` environment variable was given.
    MissingApiKey,
}

} // verus!
