//! Construction-time failures of the backend.
//!
//! Both variants are fatal and abort startup: the caller must reconstruct
//! and retry at the application level, there is no retry policy here.
//! Runtime staleness (an expired timer whose surface is gone) is not an
//! error: it comes back in a tick's `stale` list, to be logged and
//! skipped.

use vstd::prelude::*;

verus! {

/// Why the backend could not be brought up.
#[derive(PartialEq, Eq, Clone, Debug)]
pub enum Error {
    /// The display or event source cannot be reached.
    Connection,
    /// A required protocol global is absent or version-incompatible; names
    /// the missing interface.
    Bind { interface: String },
    /// A global object could not be bound: its interface name and the
    /// version that was asked for.
    Global { name: String, version: u32 },
}

impl Error {
    /// A bind failure for the named interface.
    pub fn bind(interface: String) -> (r: Error)
        ensures
            r == (Error::Bind { interface }),
    {
        Error::Bind { interface }
    }

    /// A global-binding failure for the named interface at `version`.
    pub fn global(name: String, version: u32) -> (r: Error)
        ensures
            r == (Error::Global { name, version }),
    {
        Error::Global { name, version }
    }

    /// The name of the interface involved, where one is.
    pub fn interface(&self) -> (r: Option<&String>)
        ensures
            match self {
                Error::Connection => r is None,
                Error::Bind { interface } => r == Some(interface),
                Error::Global { name, .. } => r == Some(name),
            },
    {
        match self {
            Error::Connection => None,
            Error::Bind { interface } => Some(interface),
            Error::Global { name, .. } => Some(name),
        }
    }
}

} // verus!
