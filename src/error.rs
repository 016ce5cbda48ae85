//! Errors of the path operations.

use vstd::prelude::*;

verus! {

/// What an operating system call reported.
#[derive(Clone, Copy, Debug, PartialEq, Eq, Structural)]
pub enum IoKind {
    NotFound,
    PermissionDenied,
    InvalidData,
    Other,
}

/// A failed path operation.
#[derive(Debug)]
pub enum Error {
    /// The operating system refused the operation on `path`.
    Io { kind: IoKind, path: String },
    /// The content held nothing where an item was expected.
    MissingEntity { name: String },
    /// The content of `path` is not a valid record.
    Parse { path: String, message: String },
    /// The work was dropped before it delivered a result.
    Abandoned,
}

impl Error {
    /// An I/O failure on `path`.
    pub fn io(kind: IoKind, path: &str) -> (r: Error)
        ensures
            r matches Error::Io { kind: k, path: p } && k == kind && p@ == path@,
    {
        Error::Io { kind, path: path.to_owned() }
    }

    /// Nothing where `name` was expected.
    pub fn missing_entity(name: &str) -> (r: Error)
        ensures
            r matches Error::MissingEntity { name: n } && n@ == name@,
    {
        Error::MissingEntity { name: name.to_owned() }
    }

    /// The I/O kind, for an I/O failure.
    pub fn io_kind(&self) -> (r: Option<IoKind>)
        ensures
            r == (match self {
                Error::Io { kind, .. } => Some(*kind),
                _ => None,
            }),
    {
        match self {
            Error::Io { kind, .. } => Some(*kind),
            _ => None,
        }
    }

    /// Whether this is an I/O failure of kind not-found.
    pub fn is_not_found(&self) -> (r: bool)
        ensures
            r == (self matches Error::Io { kind: IoKind::NotFound, .. }),
    {
        match self {
            Error::Io { kind: IoKind::NotFound, .. } => true,
            _ => false,
        }
    }

    /// The path that the failure concerns, where it has one.
    pub fn path(&self) -> (r: Option<String>)
        ensures
            match self {
                Error::Io { path, .. } => r matches Some(p) && p@ == path@,
                Error::Parse { path, .. } => r matches Some(p) && p@ == path@,
                _ => r is None,
            },
    {
        match self {
            Error::Io { path, .. } => Some(path.clone()),
            Error::Parse { path, .. } => Some(path.clone()),
            _ => None,
        }
    }
}

} // verus!
