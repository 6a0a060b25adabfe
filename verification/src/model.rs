//! The mathematical model of the service's namespace: a map from wire
//! names to file contents, and the effect each operation has on it.
//!
//! Every contract in the crate states its result over these functions,
//! and the laws at the bottom relate them: what a write leaves behind
//! for a read, and what a rename moves.

use crate::config::OpenMode;
use crate::error::ErrorCode;
use vstd::prelude::*;

verus! {

/// The visible state of the namespace: each wire name maps to the full
/// contents of the file it names.
pub type FsMap = Map<Seq<u8>, Seq<u8>>;

/// The largest byte count a read or write response can carry: sizes on
/// the wire are signed, with negative values reserved for errors.
pub open spec fn size_limit() -> int {
    isize::MAX as int
}

/// Every file's size can be reported on the wire.
pub open spec fn fs_bounded(fs: FsMap) -> bool {
    forall|k: Seq<u8>| #[trigger] fs.contains_key(k) ==> fs[k].len() <= size_limit()
}

/// Whether an open request with this mode succeeds against this
/// namespace state.
pub open spec fn open_allowed(mode: OpenMode, fs: FsMap, k: Seq<u8>) -> bool {
    match mode {
        OpenMode::Open => fs.contains_key(k),
        OpenMode::Create => true,
        OpenMode::CreateExclusive => !fs.contains_key(k),
        OpenMode::TruncateExisting => fs.contains_key(k),
        OpenMode::TruncateOrCreate => true,
    }
}

/// The error a denied open request reports: `NotFound` when an existing
/// file was required, `AlreadyExists` when its absence was.
pub open spec fn open_denied(mode: OpenMode, fs: FsMap, k: Seq<u8>) -> ErrorCode {
    match mode {
        OpenMode::Open => ErrorCode::NotFound,
        OpenMode::TruncateExisting => ErrorCode::NotFound,
        OpenMode::CreateExclusive => ErrorCode::AlreadyExists,
        OpenMode::Create => arbitrary(),
        OpenMode::TruncateOrCreate => arbitrary(),
    }
}

/// The namespace after a successful open: unchanged for a plain open,
/// with the file created empty or truncated to empty as the mode says.
pub open spec fn open_effect(mode: OpenMode, fs: FsMap, k: Seq<u8>) -> FsMap {
    match mode {
        OpenMode::Open => fs,
        OpenMode::Create => if fs.contains_key(k) {
            fs
        } else {
            fs.insert(k, Seq::empty())
        },
        OpenMode::CreateExclusive => fs.insert(k, Seq::empty()),
        OpenMode::TruncateExisting => fs.insert(k, Seq::empty()),
        OpenMode::TruncateOrCreate => fs.insert(k, Seq::empty()),
    }
}

/// The namespace after a full overwrite of the file at `k`.
pub open spec fn write_effect(fs: FsMap, k: Seq<u8>, data: Seq<u8>) -> FsMap {
    fs.insert(k, data)
}

/// File contents after a resize: truncated to `n` bytes, or zero-padded
/// up to `n` bytes.
pub open spec fn resize_contents(data: Seq<u8>, n: nat) -> Seq<u8> {
    if n <= data.len() {
        data.take(n as int)
    } else {
        data + Seq::new((n - data.len()) as nat, |i: int| 0u8)
    }
}

/// The namespace after resizing the file at `k`.
pub open spec fn resize_effect(fs: FsMap, k: Seq<u8>, n: nat) -> FsMap {
    fs.insert(k, resize_contents(fs[k], n))
}

/// The namespace after renaming `from` to `to`: `from` is gone, and `to`
/// holds what `from` held, replacing any previous contents.
pub open spec fn rename_effect(fs: FsMap, from: Seq<u8>, to: Seq<u8>) -> FsMap {
    fs.remove(from).insert(to, fs[from])
}

/// The namespace after deleting the file at `k`.
pub open spec fn remove_effect(fs: FsMap, k: Seq<u8>) -> FsMap {
    fs.remove(k)
}

/// Round trip: after writing contents `data` to name `k`, the namespace
/// holds exactly `data` at `k`, which is what a read returns.
pub proof fn lemma_round_trip(fs: FsMap, k: Seq<u8>, data: Seq<u8>)
    ensures
        write_effect(fs, k, data).contains_key(k),
        write_effect(fs, k, data)[k] == data,
{
}

/// A create leaves an empty file behind: after any successful open in a
/// creating or truncating mode of an absent name, the name reads as
/// empty.
pub proof fn lemma_create_reads_empty(mode: OpenMode, fs: FsMap, k: Seq<u8>)
    requires
        !fs.contains_key(k),
        open_allowed(mode, fs, k),
        mode != OpenMode::Open,
    ensures
        open_effect(mode, fs, k).contains_key(k),
        open_effect(mode, fs, k)[k] == Seq::<u8>::empty(),
{
}

/// Transaction atomicity: staging a create of `x` and a write of `y`
/// produces a namespace that holds the new file empty and the new
/// contents at `y`, and touches nothing else. A commit installs
/// exactly that namespace, so both staged operations become visible
/// together; a discard keeps the durable namespace `durable`, in which
/// neither is visible.
pub proof fn lemma_transaction_atomicity(durable: FsMap, x: Seq<u8>, y: Seq<u8>, data: Seq<u8>)
    requires
        !durable.contains_key(x),
        durable.contains_key(y),
        x != y,
    ensures
        ({
            let staged = write_effect(
                open_effect(OpenMode::Open, open_effect(OpenMode::CreateExclusive, durable, x), y),
                y,
                data,
            );
            &&& staged.contains_key(x) && staged[x] == Seq::<u8>::empty()
            &&& staged.contains_key(y) && staged[y] == data
            &&& forall|n: Seq<u8>| n != x && n != y ==> (
            #[trigger] staged.contains_key(n) <==> durable.contains_key(n))
            &&& forall|n: Seq<u8>| n != x && n != y && durable.contains_key(n) ==> (
            #[trigger] staged[n] == durable[n])
        }),
{
}

/// Rename moves content: when `from` exists and the two names differ,
/// the destination afterwards holds the source's former contents and
/// the source is absent.
pub proof fn lemma_rename_moves(fs: FsMap, from: Seq<u8>, to: Seq<u8>)
    requires
        fs.contains_key(from),
        from != to,
    ensures
        rename_effect(fs, from, to).contains_key(to),
        rename_effect(fs, from, to)[to] == fs[from],
        !rename_effect(fs, from, to).contains_key(from),
        forall|n: Seq<u8>| n != from && n != to ==> (
        #[trigger] rename_effect(fs, from, to).contains_key(n) <==> fs.contains_key(n)),
{
}

} // verus!
