use vstd::prelude::*;

verus! {

/// Why an establishment ended without a connected socket. The integer of a
/// variant is the code that the operating system gave for the failure.
#[derive(Clone, Copy, Debug, PartialEq, Eq, Structural)]
pub enum Error {
    /// No candidate was left to try.
    HostNotFound,
    /// The name or the service could not be resolved.
    Resolution(i32),
    /// A socket could not be opened.
    Construction(i32),
    /// A candidate refused the connection or could not be reached.
    Connect(i32),
}

/// The error of an establishment that had no candidate to try.
pub fn host_not_found() -> (e: Error)
    ensures
        e == Error::HostNotFound,
{
    Error::HostNotFound
}

} // verus!
