use vstd::prelude::*;

verus! {

/// A failure of the plumbing around the two actors.
#[derive(Debug)]
pub enum Error {
    /// A transport or terminal operation failed; the text describes it.
    IO(String),
    /// A message could not be handed to the other actor because its channel
    /// is closed; the text describes the message.
    Send(String),
}

impl Error {
    /// A one-line description: the kind of failure, then its detail.
    pub fn message(&self) -> (r: String)
        ensures
            r@ == match self {
                Error::IO(d) => "IO error: "@ + d@,
                Error::Send(d) => "Send error: "@ + d@,
            },
    {
        let (mut r, detail) = match self {
            Error::IO(d) => (String::from_str("IO error: "), d),
            Error::Send(d) => (String::from_str("Send error: "), d),
        };
        r.append(detail.as_str());
        r
    }
}

} // verus!
