//! The task queue service's reply envelope and how it resolves to a
//! payload or an error.

use vstd::prelude::*;

use crate::util::QueueError;

verus! {

/// Every reply of the queue service: a flag, the payload when the flag is
/// set, and a message explaining a refusal.
#[derive(Debug)]
pub struct TasqResponse<T> {
    pub ok: bool,
    pub payload: T,
    pub message: String,
}

impl<T> TasqResponse<T> {
    /// An accepted reply is its payload; a refused one is its message.
    pub fn into_result(self) -> (r: Result<T, QueueError>)
        ensures
            self.ok ==> (r matches Ok(p) && p == self.payload),
            !self.ok ==> (r matches Err(e) && e.message == self.message),
    {
        if self.ok {
            Ok(self.payload)
        } else {
            Err(QueueError { message: self.message })
        }
    }
}

} // verus!
