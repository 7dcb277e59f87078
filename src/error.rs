use vstd::prelude::*;

verus! {

/// What an operation of this library can fail with.
#[derive(Debug, PartialEq, Eq)]
pub enum Error {
    /// No item of the installed menu has the identifier asked for.
    ItemNotFound(String),
    /// The icon is of a kind that the platform does not take.
    UnsupportedIcon,
    /// The native layer refused the call, for the reason given.
    Runtime(String),
    /// A capability that the configuration does not declare was asked for.
    ApiNotAllowlisted(String),
}

} // verus!
