//! Low-level request encoding: open-mode bitmasks, the finalize flag,
//! and conversion of names to their null-terminated wire form.

use crate::config::OpenMode;
use crate::error::TryNewError;
use vstd::prelude::*;
use vstd::string::StringSliceAdditionalSpecFns;

verus! {

/// Open flag: create the file if it does not exist.
pub const STORAGE_FILE_OPEN_CREATE: u32 = 1;

/// Open flag: fail if the file already exists. Only meaningful together
/// with [`STORAGE_FILE_OPEN_CREATE`].
pub const STORAGE_FILE_OPEN_CREATE_EXCLUSIVE: u32 = 2;

/// Open flag: truncate an existing file on open.
pub const STORAGE_FILE_OPEN_TRUNCATE: u32 = 4;

/// Rename flag: create the destination if it does not exist.
pub const STORAGE_FILE_MOVE_CREATE: u32 = 1;

/// Operation flag: finalize this request together with every previously
/// staged request on the connection, as one atomic unit.
pub const STORAGE_OP_COMPLETE: u32 = 1;

/// The flag bitmask each open mode stands for. The masks of the two
/// flag-combining modes are written as sums; the summed flags are
/// distinct powers of two, so the sum equals the bitwise combination.
pub open spec fn spec_open_flags(mode: OpenMode) -> u32 {
    match mode {
        OpenMode::Open => 0,
        OpenMode::Create => STORAGE_FILE_OPEN_CREATE,
        OpenMode::CreateExclusive => (STORAGE_FILE_OPEN_CREATE
            + STORAGE_FILE_OPEN_CREATE_EXCLUSIVE) as u32,
        OpenMode::TruncateExisting => STORAGE_FILE_OPEN_TRUNCATE,
        OpenMode::TruncateOrCreate => (STORAGE_FILE_OPEN_CREATE
            + STORAGE_FILE_OPEN_TRUNCATE) as u32,
    }
}

/// Builds the open-request flag bitmask for a mode.
#[verifier::when_used_as_spec(spec_open_flags)]
pub fn open_flags(mode: OpenMode) -> (flags: u32)
    ensures
        flags == spec_open_flags(mode),
{
    match mode {
        OpenMode::Open => 0,
        OpenMode::Create => STORAGE_FILE_OPEN_CREATE,
        OpenMode::CreateExclusive => STORAGE_FILE_OPEN_CREATE
            + STORAGE_FILE_OPEN_CREATE_EXCLUSIVE,
        OpenMode::TruncateExisting => STORAGE_FILE_OPEN_TRUNCATE,
        OpenMode::TruncateOrCreate => STORAGE_FILE_OPEN_CREATE + STORAGE_FILE_OPEN_TRUNCATE,
    }
}

/// The open mode a flag bitmask stands for, if it is one of the five
/// representable combinations.
pub open spec fn spec_flags_mode(flags: u32) -> Option<OpenMode> {
    if flags == 0 {
        Some(OpenMode::Open)
    } else if flags == STORAGE_FILE_OPEN_CREATE {
        Some(OpenMode::Create)
    } else if flags == (STORAGE_FILE_OPEN_CREATE + STORAGE_FILE_OPEN_CREATE_EXCLUSIVE) as u32 {
        Some(OpenMode::CreateExclusive)
    } else if flags == STORAGE_FILE_OPEN_TRUNCATE {
        Some(OpenMode::TruncateExisting)
    } else if flags == (STORAGE_FILE_OPEN_CREATE + STORAGE_FILE_OPEN_TRUNCATE) as u32 {
        Some(OpenMode::TruncateOrCreate)
    } else {
        None
    }
}

/// Decodes an open-request flag bitmask back into its mode. Exactly the
/// five masks produced by [`open_flags`] decode; anything else is an
/// invalid request.
#[verifier::when_used_as_spec(spec_flags_mode)]
pub fn flags_mode(flags: u32) -> (mode: Option<OpenMode>)
    ensures
        mode == spec_flags_mode(flags),
        forall|m: OpenMode| flags == spec_open_flags(m) ==> mode == Some(m),
{
    if flags == 0 {
        Some(OpenMode::Open)
    } else if flags == STORAGE_FILE_OPEN_CREATE {
        Some(OpenMode::Create)
    } else if flags == STORAGE_FILE_OPEN_CREATE + STORAGE_FILE_OPEN_CREATE_EXCLUSIVE {
        Some(OpenMode::CreateExclusive)
    } else if flags == STORAGE_FILE_OPEN_TRUNCATE {
        Some(OpenMode::TruncateExisting)
    } else if flags == STORAGE_FILE_OPEN_CREATE + STORAGE_FILE_OPEN_TRUNCATE {
        Some(OpenMode::TruncateOrCreate)
    } else {
        None
    }
}

/// The operation flags a finalize choice stands for.
pub open spec fn spec_ops_flags(complete: bool) -> u32 {
    if complete {
        STORAGE_OP_COMPLETE
    } else {
        0
    }
}

/// Builds the operation flags for a request: finalize now, or leave the
/// request staged.
#[verifier::when_used_as_spec(spec_ops_flags)]
pub fn ops_flags(complete: bool) -> (flags: u32)
    ensures
        flags == spec_ops_flags(complete),
{
    if complete {
        STORAGE_OP_COMPLETE
    } else {
        0
    }
}

/// Whether an operation-flag word asks for a finalize: exactly the
/// word [`ops_flags`] builds for a finalizing request.
pub open spec fn spec_op_complete(flags: u32) -> bool {
    flags == STORAGE_OP_COMPLETE
}

/// Decodes the operation-flag word of a request back into its finalize
/// choice.
#[verifier::when_used_as_spec(spec_op_complete)]
pub fn op_complete(flags: u32) -> (complete: bool)
    ensures
        complete == spec_op_complete(flags),
        forall|b: bool| flags == spec_ops_flags(b) ==> complete == b,
{
    flags == STORAGE_OP_COMPLETE
}

/// Whether a byte sequence contains an embedded terminator, which makes
/// it unrepresentable as a null-terminated wire name.
pub open spec fn has_embedded_nul(bytes: Seq<u8>) -> bool {
    exists|i: int| 0 <= i < bytes.len() && bytes[i] == 0
}

/// The key a name occupies in the service's namespace: the name's bytes
/// in their null-terminated wire form.
pub open spec fn name_key(name: &str) -> Seq<u8> {
    name.spec_bytes().push(0)
}

/// Converts a name to its null-terminated wire form.
///
/// Succeeds exactly when the name contains no embedded terminator byte;
/// on failure it reports the offset of the first one, and nothing has
/// been sent to the service.
pub fn wire_name(name: &str) -> (r: Result<Vec<u8>, TryNewError>)
    ensures
        r is Ok <==> !has_embedded_nul(name.spec_bytes()),
        r matches Ok(v) ==> v@ == name_key(name),
        r matches Err(e) ==> {
            &&& e.pos < name.spec_bytes().len()
            &&& name.spec_bytes()[e.pos as int] == 0
            &&& forall|j: int| 0 <= j < e.pos ==> name.spec_bytes()[j] != 0
        },
{
    let bytes: &[u8] = name.as_bytes();
    let len = bytes.len();
    let mut out: Vec<u8> = Vec::new();
    let mut i: usize = 0;
    while i < len
        invariant
            i <= len,
            len == bytes@.len(),
            bytes@ == name.spec_bytes(),
            out@ == bytes@.take(i as int),
            forall|j: int| 0 <= j < i ==> bytes@[j] != 0,
        decreases len - i,
    {
        let b = bytes[i];
        if b == 0 {
            return Err(TryNewError { pos: i });
        }
        out.push(b);
        proof {
            assert(bytes@.take(i + 1) =~= bytes@.take(i as int).push(bytes@[i as int]));
        }
        i = i + 1;
    }
    proof {
        assert(out@ =~= bytes@);
    }
    out.push(0);
    Ok(out)
}

} // verus!
