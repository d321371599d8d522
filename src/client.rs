use vstd::prelude::*;

verus! {

/// Why a file could not be handed to the server.
#[derive(Debug, Clone, PartialEq, Eq)]
pub enum TransferError {
    /// The local file is missing or cannot be read.
    NotFound,
    /// The connection failed: refused, timed out or reset.
    Network,
    /// The server answered with a status outside 200..=299.
    ServerRejected { status: u16, body: String },
}

/// A status in the success class, 200 to 299.
pub open spec fn success_status(status: u16) -> bool {
    200 <= status && status <= 299
}

/// Whether the server's status means that the upload was accepted.
pub fn is_success_status(status: u16) -> (r: bool)
    ensures
        r == success_status(status),
{
    200 <= status && status <= 299
}

/// The outcome of an upload from the server's answer: accepted on a status in
/// 200..=299, else rejected with the status and the body of the answer.
pub fn upload_outcome(status: u16, body: String) -> (r: Result<(), TransferError>)
    ensures
        match r {
            Ok(()) => success_status(status),
            Err(TransferError::ServerRejected { status: s, body: b }) => {
                !success_status(status) && s == status && b@ == body@
            },
            Err(_) => false,
        },
{
    if is_success_status(status) {
        Ok(())
    } else {
        Err(TransferError::ServerRejected { status, body })
    }
}

} // verus!
