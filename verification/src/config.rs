//! Pure configuration values consumed when a connection is opened or a
//! file handle is requested.

use vstd::prelude::*;

verus! {

/// The port to use when connecting to the storage service.
///
/// The different ports provide different guarantees for how data is
/// stored, so the right port depends on what the client needs. Each port
/// maps to a fixed service-selection tag carried by the connect request.
#[derive(Clone, Copy, Debug, PartialEq, Eq, Hash, Structural)]
pub enum Port {
    /// Storage with tamper and rollback protection, available once the
    /// non-secure OS has booted. The default choice for most clients.
    TamperDetect,
    /// Same protection as `TamperDetect`, but preserved during a normal
    /// device wipe.
    TamperDetectPersist,
    /// Same protection as `TamperDetect`, accessible before the
    /// non-secure OS has booted.
    TamperDetectEarlyAccess,
    /// Tamper-proof storage: non-secure code can block reads and writes,
    /// but cannot modify on-disk data.
    TamperProof,
}

impl Port {
    /// The service-selection tag this port variant stands for.
    pub open spec fn spec_tag(self) -> u32 {
        match self {
            Port::TamperDetect => 0,
            Port::TamperDetectPersist => 1,
            Port::TamperDetectEarlyAccess => 2,
            Port::TamperProof => 3,
        }
    }

    /// Maps the port to its fixed service-selection tag.
    #[verifier::when_used_as_spec(spec_tag)]
    pub fn tag(self) -> (t: u32)
        ensures
            t == self.spec_tag(),
    {
        match self {
            Port::TamperDetect => 0,
            Port::TamperDetectPersist => 1,
            Port::TamperDetectEarlyAccess => 2,
            Port::TamperProof => 3,
        }
    }
}

/// Configuration for how opening a file should be handled.
///
/// Opening a handle has to answer three questions: may a missing file be
/// created, is an existing file an error, and should an existing file be
/// truncated on open. Only the consistent combinations are representable;
/// each variant maps to a fixed bitmask on the wire (see
/// [`crate::wire::open_flags`]).
///
/// The default mode is `Open`.
#[derive(Clone, Copy, Debug, PartialEq, Eq, Structural)]
pub enum OpenMode {
    /// Open an existing file; error if no file exists.
    Open,
    /// Open an existing file, or create an empty one if none exists.
    Create,
    /// Create a new empty file; error if the file already exists.
    CreateExclusive,
    /// Truncate an existing file and open it empty; error if no file
    /// exists.
    TruncateExisting,
    /// Truncate an existing file and open it empty, or create an empty
    /// one if none exists.
    TruncateOrCreate,
}

impl Default for OpenMode {
    fn default() -> (mode: Self)
        ensures
            mode == OpenMode::Open,
    {
        OpenMode::Open
    }
}

} // verus!
