use vstd::prelude::*;

verus! {

/// How a capture or enumeration request can fail.
#[derive(Debug, Clone, PartialEq, Eq)]
pub enum Error {
    /// A combination of request flags that cannot be satisfied; carries a
    /// message telling the caller which flags to change.
    Message(String),
    /// An output-writing failure, reported by the caller-side save step.
    Io(String),
    /// An operating-system call failed; carries the platform error code.
    Win32(i32),
}

/// Mathematical model of an `Error` value.
pub enum ErrorV {
    Message(Seq<char>),
    Io(Seq<char>),
    Win32(i32),
}

impl View for Error {
    type V = ErrorV;

    open spec fn view(&self) -> ErrorV {
        match self {
            Error::Message(m) => ErrorV::Message(m@),
            Error::Io(m) => ErrorV::Io(m@),
            Error::Win32(c) => ErrorV::Win32(*c),
        }
    }
}

impl Error {
    /// Build a usage-message error from a message text.
    pub fn message(text: &str) -> (r: Error)
        ensures
            r@ == ErrorV::Message(text@),
    {
        Error::Message(text.to_owned())
    }
}

} // verus!
