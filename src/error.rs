use vstd::prelude::*;

verus! {

/// X protocol error code of an access violation (`BadAccess`).
pub const BAD_ACCESS: u8 = 10;

/// What can go wrong between the manager and the display server.
#[derive(Clone, Copy, Debug, PartialEq, Eq)]
pub enum Error {
    /// The display server cannot be reached.
    ConnectionFailed,
    /// Another window manager already redirects the root window.
    AlreadyManaged,
    /// A window vanished between its discovery and a later operation.
    NoSuchWindow,
    /// The server refused to return a window's attributes.
    AttributeQueryFailed,
}

impl Error {
    /// Fatal errors end the process; the others are absorbed by the event loop.
    pub open spec fn spec_is_fatal(self) -> bool {
        self is ConnectionFailed || self is AlreadyManaged
    }

    pub fn is_fatal(&self) -> (r: bool)
        ensures
            r == self.spec_is_fatal(),
    {
        match self {
            Error::ConnectionFailed | Error::AlreadyManaged => true,
            _ => false,
        }
    }

    /// A human-readable description, printed before a fatal exit.
    pub fn message(&self) -> (r: &'static str)
        ensures
            self is ConnectionFailed ==> r@ == "Cannot open Display"@,
            self is AlreadyManaged ==> r@ == "Another WM is running"@,
            self is NoSuchWindow ==> r@ == "No such window"@,
            self is AttributeQueryFailed ==> r@ == "XGetWindowAttributes failed"@,
    {
        match self {
            Error::ConnectionFailed => "Cannot open Display",
            Error::AlreadyManaged => "Another WM is running",
            Error::NoSuchWindow => "No such window",
            Error::AttributeQueryFailed => "XGetWindowAttributes failed",
        }
    }
}

/// The outcome of opening a session, from what the connection attempt and the
/// synchronous probe that follows it reported.
pub open spec fn spec_session_outcome(connected: bool, probe_error: Option<u8>) -> Result<(), Error> {
    if !connected {
        Err(Error::ConnectionFailed)
    } else if probe_error == Some(BAD_ACCESS) {
        Err(Error::AlreadyManaged)
    } else {
        Ok(())
    }
}

/// Decides whether a freshly opened session may be used.
///
/// `connected` tells whether the server could be reached at all; `probe_error` is the
/// error, if any, that the server raised for the redirect selection on the root window
/// during the synchronous round trip that follows it.
pub fn session_outcome(connected: bool, probe_error: Option<u8>) -> (r: Result<(), Error>)
    ensures
        r == spec_session_outcome(connected, probe_error),
{
    if !connected {
        return Err(Error::ConnectionFailed);
    }
    match probe_error {
        Some(code) if code == BAD_ACCESS => Err(Error::AlreadyManaged),
        _ => Ok(()),
    }
}

} // verus!
