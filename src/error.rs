use vstd::prelude::*;

verus! {

/// Every way a client operation can fail.
#[derive(Debug, PartialEq, Eq)]
pub enum ClientError {
    /// The transport could not be constructed.
    InitError,
    /// The request could not be carried, or the reply broke the status-code contract.
    HttpError,
    /// A page lacked the element that carries a token.
    UnexpectedResponse,
    /// The platform rejected the credentials.
    InvalidLogin,
    /// The operation needs an authenticated session.
    InvalidState,
    /// The named local file cannot be part of an upload.
    FileError(String),
}

} // verus!
