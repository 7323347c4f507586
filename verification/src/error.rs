//! Anything that can go wrong while opening a window or setting up the GPU.
use vstd::prelude::*;
use vstd::string::StringExecFns;

verus! {

/// An error, carried as its message.
#[derive(Clone, Debug, PartialEq, Eq)]
pub struct Error(pub String);

/// The error for a failure `detail` while doing `context`: the message `"{context}: {detail}"`.
pub fn err(context: &str, detail: &str) -> (e: Error)
    ensures
        e.0@ == context@ + ": "@ + detail@,
{
    let mut message = String::from_str(context);
    message.append(": ");
    message.append(detail);
    Error(message)
}

impl Error {
    /// The message, as the error is displayed.
    pub fn message(&self) -> (m: String)
        ensures
            m@ == self.0@,
    {
        self.0.clone()
    }
}

} // verus!
