//! An open connection to the storage service, and the file operations
//! that finalize immediately.
//!
//! Every mutating method on [`Session`] sends its request with the
//! finalize flag set, so each call is its own atomic unit and the
//! durable state always equals the visible one. Staging several
//! operations into one atomic unit goes through
//! [`Session::begin_transaction`].
//!
//! A file may have at most one live handle. Operations that address a
//! file by name — opening it, overwriting it, renaming it, deleting it
//! — are refused as busy while a live handle names it, so a handle
//! holder cannot have the file changed underneath it by name. Closing
//! the handle releases the name again.

use crate::config::OpenMode;
use crate::config::Port;
use crate::error::Error;
use crate::error::ErrorCode;
use crate::model::open_allowed;
use crate::model::open_denied;
use crate::model::open_effect;
use crate::model::remove_effect;
use crate::model::rename_effect;
use crate::model::resize_effect;
use crate::model::size_limit;
use crate::model::write_effect;
use crate::model::FsMap;
use crate::store::Store;
use crate::wire::has_embedded_nul;
use crate::wire::name_key;
use crate::wire::open_flags;
use crate::wire::ops_flags;
use crate::wire::wire_name;
use crate::wire::STORAGE_FILE_MOVE_CREATE;
use vstd::prelude::*;
use vstd::slice::slice_subrange;
use vstd::string::StringSliceAdditionalSpecFns;

verus! {

/// Handle to an open file.
///
/// A handle is issued by a successful open and names one file for as
/// long as it is live. File contents are read and written through the
/// session or transaction the handle came from; while the handle is
/// live, no operation can address its file by name.
#[derive(Debug)]
pub struct SecureFile {
    pub(crate) raw: usize,
}

impl SecureFile {
    /// The handle's wire value, which indexes the handles the
    /// connection has issued.
    pub open(crate) spec fn id(&self) -> int {
        self.raw as int
    }

    /// Releases the handle at the service, so the file it named can be
    /// addressed by name again.
    ///
    /// The release goes over the connection, so the session the handle
    /// came from performs it.
    pub fn close(self, session: &mut Session)
        requires
            old(session).wf(),
            old(session).valid_handle(&self),
        ensures
            final(session).wf(),
            final(session).fs() == old(session).fs(),
            final(session).port() == old(session).port(),
            final(session).handles() == old(session).handles(),
            final(session).live() == old(session).live().update(self.id(), false),
            !final(session).in_use(old(session).handle_name(self.id())),
            forall|k: Seq<u8>| k != old(session).handle_name(self.id())
                ==> final(session).in_use(k) == old(session).in_use(k),
    {
        session.close_file_impl(self.raw);
    }
}

/// An active connection to the storage service.
///
/// All file operations go through a `Session` (or through the
/// [`crate::transaction::Transaction`] that takes it over). Each
/// mutating operation finalizes immediately, so its effect is durable
/// once the call returns successfully.
#[derive(Debug)]
pub struct Session {
    pub(crate) port: Port,
    pub(crate) store: Store,
}

impl Session {
    /// The namespace this connection sees: each wire name maps to the
    /// file's full contents.
    pub open(crate) spec fn fs(&self) -> FsMap {
        self.store.staged_view()
    }

    /// The port this connection was opened on.
    pub open(crate) spec fn port(&self) -> Port {
        self.port
    }

    /// The names of the handles this connection has issued, by handle
    /// value.
    pub open(crate) spec fn handles(&self) -> Seq<Seq<u8>> {
        self.store.handles_view()
    }

    /// Which issued handles are still live, by handle value.
    pub open(crate) spec fn live(&self) -> Seq<bool> {
        self.store.live_view()
    }

    /// How many handles this connection has issued.
    pub open spec fn handle_count(&self) -> int {
        self.handles().len() as int
    }

    /// The wire name a handle refers to.
    pub open spec fn handle_name(&self, h: int) -> Seq<u8> {
        self.handles()[h]
    }

    /// Whether a handle is still live.
    pub open spec fn handle_live(&self, h: int) -> bool {
        self.live()[h]
    }

    /// Whether some live handle refers to `k`, which blocks operations
    /// addressing `k` by name.
    pub open(crate) spec fn in_use(&self, k: Seq<u8>) -> bool {
        self.store.in_use(k)
    }

    /// Whether a handle was issued by this connection and is still
    /// live.
    pub open spec fn valid_handle(&self, f: &SecureFile) -> bool {
        0 <= f.id() < self.handle_count() && self.handle_live(f.id())
    }

    /// The connection is consistent: the namespace is well formed and
    /// nothing is staged, since every direct operation finalizes.
    pub open(crate) spec fn wf(&self) -> bool {
        &&& self.store.wf()
        &&& self.store.synced()
    }

    /// The namespace tables are well formed, whether or not anything
    /// is staged. This is all the handle-based operations need, so a
    /// transaction can use them on its staged state.
    pub open(crate) spec fn store_wf(&self) -> bool {
        self.store.wf()
    }

    /// Opens a new connection to the storage service on the given
    /// port. A fresh connection sees an empty namespace and has issued
    /// no handles.
    pub fn new(port: Port) -> (r: Result<Session, Error>)
        ensures
            r matches Ok(s) ==> {
                &&& s.wf()
                &&& s.port() == port
                &&& s.fs() == FsMap::empty()
                &&& s.handle_count() == 0
                &&& forall|k: Seq<u8>| !s.in_use(k)
            },
            r is Ok,
    {
        let _tag = port.tag();
        let s = Session { port, store: Store::new() };
        proof {
            assert forall|k: Seq<u8>| !s.in_use(k) by {
                if s.in_use(k) {
                    let h = choose|h: int|
                        0 <= h < s.handles().len() && s.live()[h] && s.handles()[h] == k;
                }
            }
        }
        Ok(s)
    }

    /// Closes the connection.
    ///
    /// Dropping the session closes it as well; this method only makes
    /// the close visible at a chosen point.
    pub fn close(self) {
    }

    /// Releases a handle issued by this connection.
    pub(crate) fn close_file_impl(&mut self, raw: usize)
        requires
            old(self).store.wf(),
            raw < old(self).store.handle_count(),
            old(self).store.handle_live(raw as int),
        ensures
            final(self).store.wf(),
            final(self).port == old(self).port,
            final(self).store.staged_view() == old(self).store.staged_view(),
            final(self).store.durable_view() == old(self).store.durable_view(),
            final(self).store.handles_view() == old(self).store.handles_view(),
            final(self).store.live_view() == old(self).store.live_view().update(raw as int, false),
            !final(self).store.in_use(old(self).store.handle_name(raw as int)),
            forall|k: Seq<u8>| k != old(self).store.handle_name(raw as int)
                ==> final(self).store.in_use(k) == old(self).store.in_use(k),
    {
        self.store.close_handle(raw);
    }

    /// Attempts to open a file at `name` with the options specified by
    /// `mode`, finalizing immediately: a file the mode creates or
    /// truncates is durable once the call returns.
    ///
    /// Fails as busy while a live handle names the file, with
    /// `NotFound` when the mode requires an existing file and there is
    /// none, with `AlreadyExists` when the mode forbids one and it
    /// exists, and locally when `name` cannot be encoded.
    pub fn open_file(&mut self, name: &str, mode: OpenMode) -> (r: Result<SecureFile, Error>)
        requires
            old(self).wf(),
        ensures
            final(self).wf(),
            final(self).port() == old(self).port(),
            r is Ok <==> !has_embedded_nul(name.spec_bytes()) && !old(self).in_use(name_key(name))
                && open_allowed(mode, old(self).fs(), name_key(name)),
            match r {
                Ok(f) => {
                    &&& final(self).fs() == open_effect(mode, old(self).fs(), name_key(name))
                    &&& f.id() == old(self).handle_count()
                    &&& final(self).handles() == old(self).handles().push(name_key(name))
                    &&& final(self).live() == old(self).live().push(true)
                    &&& final(self).handle_name(f.id()) == name_key(name)
                    &&& final(self).valid_handle(&f)
                    &&& final(self).in_use(name_key(name))
                    &&& forall|k: Seq<u8>| k != name_key(name) ==> final(self).in_use(k)
                        == old(self).in_use(k)
                },
                Err(e) => {
                    &&& *final(self) == *old(self)
                    &&& if has_embedded_nul(name.spec_bytes()) {
                        e matches Error::TryNew(t) && name.spec_bytes()[t.pos as int] == 0
                    } else if old(self).in_use(name_key(name)) {
                        e == Error::Code(ErrorCode::Busy)
                    } else {
                        e == Error::Code(open_denied(mode, old(self).fs(), name_key(name)))
                    }
                },
            },
    {
        let r = self.open_file_impl(name, mode, true);
        proof {
            old(self).store.lemma_views_len();
            self.store.lemma_views_len();
        }
        r
    }

    /// The shared body of the session's and the transaction's open:
    /// the finalize flag is chosen by the caller and hidden from the
    /// public surface, so client code cannot finalize a transaction's
    /// staged state through an open.
    pub(crate) fn open_file_impl(&mut self, name: &str, mode: OpenMode, complete: bool) -> (r:
        Result<SecureFile, Error>)
        requires
            old(self).store.wf(),
        ensures
            final(self).store.wf(),
            final(self).port == old(self).port,
            r is Ok <==> !has_embedded_nul(name.spec_bytes()) && !old(self).store.in_use(
                name_key(name),
            ) && open_allowed(mode, old(self).store.staged_view(), name_key(name)),
            match r {
                Ok(f) => {
                    &&& final(self).store.staged_view() == open_effect(
                        mode,
                        old(self).store.staged_view(),
                        name_key(name),
                    )
                    &&& final(self).store.durable_view() == if complete {
                        final(self).store.staged_view()
                    } else {
                        old(self).store.durable_view()
                    }
                    &&& f.id() == old(self).store.handle_count()
                    &&& final(self).store.handles_view() == old(self).store.handles_view().push(
                        name_key(name),
                    )
                    &&& final(self).store.live_view() == old(self).store.live_view().push(true)
                    &&& final(self).store.in_use(name_key(name))
                    &&& forall|k: Seq<u8>| k != name_key(name) ==> final(self).store.in_use(k)
                        == old(self).store.in_use(k)
                },
                Err(e) => {
                    &&& *final(self) == *old(self)
                    &&& if has_embedded_nul(name.spec_bytes()) {
                        e matches Error::TryNew(t) && name.spec_bytes()[t.pos as int] == 0
                    } else if old(self).store.in_use(name_key(name)) {
                        e == Error::Code(ErrorCode::Busy)
                    } else {
                        e == Error::Code(open_denied(mode, old(self).store.staged_view(), name_key(name)))
                    }
                },
            },
    {
        let wire = match wire_name(name) {
            Ok(w) => w,
            Err(t) => { return Err(Error::TryNew(t)) },
        };
        let flags = open_flags(mode);
        let (rc, h) = self.store.open(wire.as_slice(), flags, ops_flags(complete));
        match Error::try_from_code(rc) {
            Ok(()) => Ok(SecureFile { raw: h }),
            Err(e) => Err(e),
        }
    }

    /// Reads the contents of the file at `path` into `buf`, returning
    /// the prefix of `buf` holding them. The rest of `buf` is
    /// untouched, and on failure all of it is: a buffer smaller than
    /// the file means an error, never a partial read. The read opens
    /// and releases its own handle, so it fails as busy while a live
    /// handle names the file.
    pub fn read<'buf>(&mut self, path: &str, buf: &'buf mut [u8]) -> (r: Result<
        &'buf [u8],
        Error,
    >)
        requires
            old(self).wf(),
        ensures
            final(self).wf(),
            final(self).port() == old(self).port(),
            final(self).fs() == old(self).fs(),
            final(self).handle_count() >= old(self).handle_count(),
            forall|h: int| 0 <= h < old(self).handle_count()
                ==> final(self).handle_name(h) == old(self).handle_name(h)
                && final(self).handle_live(h) == old(self).handle_live(h),
            forall|k: Seq<u8>| final(self).in_use(k) == old(self).in_use(k),
            r is Ok <==> !has_embedded_nul(path.spec_bytes()) && !old(self).in_use(name_key(path))
                && old(self).fs().contains_key(name_key(path)) && old(self).fs()[name_key(
                path,
            )].len() <= old(buf)@.len(),
            match r {
                Ok(out) => {
                    let data = old(self).fs()[name_key(path)];
                    &&& out@ == data
                    &&& final(buf)@ == data + old(buf)@.skip(data.len() as int)
                },
                Err(e) => {
                    &&& final(buf)@ == old(buf)@
                    &&& if has_embedded_nul(path.spec_bytes()) {
                        e matches Error::TryNew(t) && path.spec_bytes()[t.pos as int] == 0
                    } else if old(self).in_use(name_key(path)) {
                        e == Error::Code(ErrorCode::Busy)
                    } else if !old(self).fs().contains_key(name_key(path)) {
                        e == Error::Code(ErrorCode::NotFound)
                    } else {
                        e == Error::Code(ErrorCode::NotEnoughBuffer)
                    }
                },
            },
    {
        let file = match self.open_file_impl(path, OpenMode::Open, false) {
            Ok(f) => f,
            Err(e) => { return Err(e) },
        };
        let ghost mid = *self;
        proof {
            old(self).store.lemma_views_len();
            self.store.lemma_views_len();
            assert(self.handle_live(file.id()));
        }
        let result = self.read_all(&file, buf);
        self.close_file_impl(file.raw);
        proof {
            assert forall|k: Seq<u8>| self.in_use(k) == old(self).in_use(k) by {
                if k == name_key(path) {
                    assert(!old(self).in_use(k));
                    assert(!self.in_use(k));
                } else {
                    assert(mid.in_use(k) == old(self).in_use(k));
                    assert(self.in_use(k) == mid.in_use(k));
                }
            }
        }
        result
    }

    /// Writes `buf` as the full contents of the file at `path`,
    /// creating the file if it does not exist, as one atomic unit: the
    /// create, the truncate and the write finalize together. The write
    /// opens and releases its own handle, so it fails as busy while a
    /// live handle names the file.
    pub fn write(&mut self, path: &str, buf: &[u8]) -> (r: Result<(), Error>)
        requires
            old(self).wf(),
            buf@.len() <= size_limit(),
        ensures
            final(self).wf(),
            final(self).port() == old(self).port(),
            final(self).handle_count() >= old(self).handle_count(),
            forall|h: int| 0 <= h < old(self).handle_count()
                ==> final(self).handle_name(h) == old(self).handle_name(h)
                && final(self).handle_live(h) == old(self).handle_live(h),
            forall|k: Seq<u8>| final(self).in_use(k) == old(self).in_use(k),
            r is Ok <==> !has_embedded_nul(path.spec_bytes()) && !old(self).in_use(
                name_key(path),
            ),
            match r {
                Ok(_) => final(self).fs() == write_effect(old(self).fs(), name_key(path), buf@),
                Err(e) => {
                    &&& final(self).fs() == old(self).fs()
                    &&& if has_embedded_nul(path.spec_bytes()) {
                        e matches Error::TryNew(t) && path.spec_bytes()[t.pos as int] == 0
                    } else {
                        e == Error::Code(ErrorCode::Busy)
                    }
                },
            },
    {
        let mut file = match self.open_file_impl(path, OpenMode::Create, false) {
            Ok(f) => f,
            Err(e) => { return Err(e) },
        };
        let ghost mid = *self;
        proof {
            old(self).store.lemma_views_len();
            self.store.lemma_views_len();
            assert(self.handle_live(file.id()));
        }
        let result = self.write_impl(&mut file, buf, true);
        self.close_file_impl(file.raw);
        proof {
            assert(final(self).fs() =~= write_effect(old(self).fs(), name_key(path), buf@));
            assert forall|k: Seq<u8>| self.in_use(k) == old(self).in_use(k) by {
                if k == name_key(path) {
                    assert(!old(self).in_use(k));
                    assert(!self.in_use(k));
                } else {
                    assert(mid.in_use(k) == old(self).in_use(k));
                    assert(self.in_use(k) == mid.in_use(k));
                }
            }
        }
        result
    }

    /// Reads the full contents of the already-open `file` into `buf`,
    /// returning the prefix of `buf` holding them. The rest of `buf`
    /// is untouched, and on failure all of it is.
    pub fn read_all<'buf>(&mut self, file: &SecureFile, buf: &'buf mut [u8]) -> (r: Result<
        &'buf [u8],
        Error,
    >)
        requires
            old(self).store_wf(),
            old(self).valid_handle(file),
        ensures
            *final(self) == *old(self),
            ({
                let k = old(self).handle_name(file.id());
                let fs = old(self).fs();
                &&& (r is Ok <==> fs.contains_key(k) && fs[k].len() <= old(buf)@.len())
                &&& match r {
                    Ok(out) => {
                        &&& out@ == fs[k]
                        &&& final(buf)@ == fs[k] + old(buf)@.skip(fs[k].len() as int)
                    },
                    Err(e) => {
                        &&& final(buf)@ == old(buf)@
                        &&& if !fs.contains_key(k) {
                            e == Error::Code(ErrorCode::NotFound)
                        } else {
                            e == Error::Code(ErrorCode::NotEnoughBuffer)
                        }
                    },
                }
            }),
    {
        let (rc, found) = self.store.read(file.raw, buf.len());
        let n = match Error::try_from_size(rc) {
            Ok(n) => n,
            Err(e) => { return Err(e) },
        };
        let data: &Vec<u8> = match found {
            Some(d) => d,
            None => { return Err(Error::Code(ErrorCode::Generic)) },
        };
        let mut i: usize = 0;
        while i < n
            invariant
                i <= n,
                n == data@.len(),
                buf@.len() == old(buf)@.len(),
                n <= buf@.len(),
                forall|j: int| 0 <= j < i ==> buf@[j] == data@[j],
                forall|j: int| i <= j < buf@.len() ==> buf@[j] == old(buf)@[j],
            decreases n - i,
        {
            buf[i] = data[i];
            i = i + 1;
        }
        proof {
            assert(buf@ =~= data@ + old(buf)@.skip(data@.len() as int));
        }
        let done: &'buf [u8] = buf;
        let out = slice_subrange(done, 0, n);
        proof {
            assert(out@ =~= data@);
        }
        Ok(out)
    }

    /// Overwrites the already-open `file` with `buf` as one atomic
    /// unit: the truncate and the write finalize together, so the
    /// file's durable contents are exactly `buf` once the call
    /// returns.
    pub fn write_all(&mut self, file: &mut SecureFile, buf: &[u8]) -> (r: Result<(), Error>)
        requires
            old(self).wf(),
            old(self).valid_handle(old(file)),
            buf@.len() <= size_limit(),
        ensures
            final(self).wf(),
            final(self).port() == old(self).port(),
            *final(file) == *old(file),
            final(self).handles() == old(self).handles(),
            final(self).live() == old(self).live(),
            ({
                let k = old(self).handle_name(old(file).id());
                &&& (r is Ok <==> old(self).fs().contains_key(k))
                &&& match r {
                    Ok(_) => final(self).fs() == write_effect(old(self).fs(), k, buf@),
                    Err(e) => {
                        &&& *final(self) == *old(self)
                        &&& e == Error::Code(ErrorCode::NotFound)
                    },
                }
            }),
    {
        self.write_impl(file, buf, true)
    }

    /// The shared body of the session's and the transaction's write:
    /// the truncate is always staged, and the write carries the
    /// caller's finalize flag, so both take effect together. The
    /// service must report the full byte count written; the contract
    /// proves it always does.
    pub(crate) fn write_impl(&mut self, file: &mut SecureFile, buf: &[u8], complete: bool) -> (r:
        Result<(), Error>)
        requires
            old(self).store.wf(),
            old(self).valid_handle(old(file)),
            buf@.len() <= size_limit(),
        ensures
            final(self).store.wf(),
            final(self).port == old(self).port,
            *final(file) == *old(file),
            final(self).store.handles_view() == old(self).store.handles_view(),
            final(self).store.live_view() == old(self).store.live_view(),
            ({
                let k = old(self).handle_name(old(file).id());
                let fs = old(self).store.staged_view();
                &&& (r is Ok <==> fs.contains_key(k))
                &&& match r {
                    Ok(_) => {
                        &&& final(self).store.staged_view() == write_effect(fs, k, buf@)
                        &&& final(self).store.durable_view() == if complete {
                            final(self).store.staged_view()
                        } else {
                            old(self).store.durable_view()
                        }
                    },
                    Err(e) => {
                        &&& *final(self) == *old(self)
                        &&& e == Error::Code(ErrorCode::NotFound)
                    },
                }
            }),
    {
        let rc = self.store.set_size(file.raw, 0, ops_flags(false));
        match Error::try_from_code(rc) {
            Ok(()) => (),
            Err(e) => { return Err(e) },
        }
        let rc = self.store.write(file.raw, buf, ops_flags(complete));
        let written = match Error::try_from_size(rc) {
            Ok(n) => n,
            Err(e) => { return Err(e) },
        };
        assert(written == buf@.len());
        proof {
            let k = old(self).handle_name(old(file).id());
            assert(self.store.staged_view() =~= write_effect(
                old(self).store.staged_view(),
                k,
                buf@,
            ));
        }
        Ok(())
    }

    /// Returns the size of the file in bytes.
    pub fn get_size(&mut self, file: &SecureFile) -> (r: Result<usize, Error>)
        requires
            old(self).store_wf(),
            old(self).valid_handle(file),
        ensures
            *final(self) == *old(self),
            ({
                let k = old(self).handle_name(file.id());
                &&& (r is Ok <==> old(self).fs().contains_key(k))
                &&& match r {
                    Ok(n) => n == old(self).fs()[k].len(),
                    Err(e) => e == Error::Code(ErrorCode::NotFound),
                }
            }),
    {
        let (rc, n) = self.store.get_size(file.raw);
        match Error::try_from_code(rc) {
            Ok(()) => Ok(n),
            Err(e) => Err(e),
        }
    }

    /// Truncates or zero-extends the file to `size` bytes, finalizing
    /// immediately.
    pub fn set_size(&mut self, file: &mut SecureFile, size: usize) -> (r: Result<(), Error>)
        requires
            old(self).wf(),
            old(self).valid_handle(old(file)),
            size <= size_limit(),
        ensures
            final(self).wf(),
            final(self).port() == old(self).port(),
            *final(file) == *old(file),
            final(self).handles() == old(self).handles(),
            final(self).live() == old(self).live(),
            ({
                let k = old(self).handle_name(old(file).id());
                &&& (r is Ok <==> old(self).fs().contains_key(k))
                &&& match r {
                    Ok(_) => final(self).fs() == resize_effect(old(self).fs(), k, size as nat),
                    Err(e) => {
                        &&& *final(self) == *old(self)
                        &&& e == Error::Code(ErrorCode::NotFound)
                    },
                }
            }),
    {
        self.set_size_impl(file, size, true)
    }

    /// The shared body of the session's and the transaction's
    /// set-size, carrying the caller's finalize flag.
    pub(crate) fn set_size_impl(&mut self, file: &mut SecureFile, size: usize, complete: bool) -> (r:
        Result<(), Error>)
        requires
            old(self).store.wf(),
            old(self).valid_handle(old(file)),
            size <= size_limit(),
        ensures
            final(self).store.wf(),
            final(self).port == old(self).port,
            *final(file) == *old(file),
            final(self).store.handles_view() == old(self).store.handles_view(),
            final(self).store.live_view() == old(self).store.live_view(),
            ({
                let k = old(self).handle_name(old(file).id());
                let fs = old(self).store.staged_view();
                &&& (r is Ok <==> fs.contains_key(k))
                &&& match r {
                    Ok(_) => {
                        &&& final(self).store.staged_view() == resize_effect(fs, k, size as nat)
                        &&& final(self).store.durable_view() == if complete {
                            final(self).store.staged_view()
                        } else {
                            old(self).store.durable_view()
                        }
                    },
                    Err(e) => {
                        &&& *final(self) == *old(self)
                        &&& e == Error::Code(ErrorCode::NotFound)
                    },
                }
            }),
    {
        let rc = self.store.set_size(file.raw, size, ops_flags(complete));
        match Error::try_from_code(rc) {
            Ok(()) => Ok(()),
            Err(e) => Err(e),
        }
    }

    /// Renames `from` to `to`, replacing `to`'s contents if it exists
    /// and creating it if not, finalizing immediately. Fails as busy
    /// while a live handle names the source or the destination.
    pub fn rename(&mut self, from: &str, to: &str) -> (r: Result<(), Error>)
        requires
            old(self).wf(),
        ensures
            final(self).wf(),
            final(self).port() == old(self).port(),
            final(self).handles() == old(self).handles(),
            final(self).live() == old(self).live(),
            r is Ok <==> !has_embedded_nul(from.spec_bytes()) && !has_embedded_nul(
                to.spec_bytes(),
            ) && old(self).fs().contains_key(name_key(from)) && !old(self).in_use(name_key(from))
                && !old(self).in_use(name_key(to)),
            match r {
                Ok(_) => final(self).fs() == rename_effect(
                    old(self).fs(),
                    name_key(from),
                    name_key(to),
                ),
                Err(e) => {
                    &&& *final(self) == *old(self)
                    &&& if has_embedded_nul(from.spec_bytes()) {
                        e matches Error::TryNew(t) && from.spec_bytes()[t.pos as int] == 0
                    } else if has_embedded_nul(to.spec_bytes()) {
                        e matches Error::TryNew(t) && to.spec_bytes()[t.pos as int] == 0
                    } else if !old(self).fs().contains_key(name_key(from)) {
                        e == Error::Code(ErrorCode::NotFound)
                    } else {
                        e == Error::Code(ErrorCode::Busy)
                    }
                },
            },
    {
        self.rename_impl(from, to, true)
    }

    /// The shared body of the session's and the transaction's rename,
    /// carrying the caller's finalize flag.
    pub(crate) fn rename_impl(&mut self, from: &str, to: &str, complete: bool) -> (r: Result<
        (),
        Error,
    >)
        requires
            old(self).store.wf(),
        ensures
            final(self).store.wf(),
            final(self).port == old(self).port,
            final(self).store.handles_view() == old(self).store.handles_view(),
            final(self).store.live_view() == old(self).store.live_view(),
            ({
                let fs = old(self).store.staged_view();
                &&& (r is Ok <==> !has_embedded_nul(from.spec_bytes()) && !has_embedded_nul(
                    to.spec_bytes(),
                ) && fs.contains_key(name_key(from)) && !old(self).store.in_use(name_key(from))
                    && !old(self).store.in_use(name_key(to)))
                &&& match r {
                    Ok(_) => {
                        &&& final(self).store.staged_view() == rename_effect(
                            fs,
                            name_key(from),
                            name_key(to),
                        )
                        &&& final(self).store.durable_view() == if complete {
                            final(self).store.staged_view()
                        } else {
                            old(self).store.durable_view()
                        }
                    },
                    Err(e) => {
                        &&& *final(self) == *old(self)
                        &&& if has_embedded_nul(from.spec_bytes()) {
                            e matches Error::TryNew(t) && from.spec_bytes()[t.pos as int] == 0
                        } else if has_embedded_nul(to.spec_bytes()) {
                            e matches Error::TryNew(t) && to.spec_bytes()[t.pos as int] == 0
                        } else if !fs.contains_key(name_key(from)) {
                            e == Error::Code(ErrorCode::NotFound)
                        } else {
                            e == Error::Code(ErrorCode::Busy)
                        }
                    },
                }
            }),
    {
        let from_wire = match wire_name(from) {
            Ok(w) => w,
            Err(t) => { return Err(Error::TryNew(t)) },
        };
        let to_wire = match wire_name(to) {
            Ok(w) => w,
            Err(t) => { return Err(Error::TryNew(t)) },
        };
        let rc = self.store.rename(
            from_wire.as_slice(),
            to_wire.as_slice(),
            STORAGE_FILE_MOVE_CREATE,
            ops_flags(complete),
        );
        match Error::try_from_code(rc) {
            Ok(()) => Ok(()),
            Err(e) => Err(e),
        }
    }

    /// Removes the file at `name`, finalizing immediately. Fails as
    /// busy while a live handle names the file.
    pub fn remove(&mut self, name: &str) -> (r: Result<(), Error>)
        requires
            old(self).wf(),
        ensures
            final(self).wf(),
            final(self).port() == old(self).port(),
            final(self).handles() == old(self).handles(),
            final(self).live() == old(self).live(),
            r is Ok <==> !has_embedded_nul(name.spec_bytes()) && old(self).fs().contains_key(
                name_key(name),
            ) && !old(self).in_use(name_key(name)),
            match r {
                Ok(_) => final(self).fs() == remove_effect(old(self).fs(), name_key(name)),
                Err(e) => {
                    &&& *final(self) == *old(self)
                    &&& if has_embedded_nul(name.spec_bytes()) {
                        e matches Error::TryNew(t) && name.spec_bytes()[t.pos as int] == 0
                    } else if !old(self).fs().contains_key(name_key(name)) {
                        e == Error::Code(ErrorCode::NotFound)
                    } else {
                        e == Error::Code(ErrorCode::Busy)
                    }
                },
            },
    {
        self.remove_impl(name, true)
    }

    /// The shared body of the session's and the transaction's remove,
    /// carrying the caller's finalize flag.
    pub(crate) fn remove_impl(&mut self, name: &str, complete: bool) -> (r: Result<(), Error>)
        requires
            old(self).store.wf(),
        ensures
            final(self).store.wf(),
            final(self).port == old(self).port,
            final(self).store.handles_view() == old(self).store.handles_view(),
            final(self).store.live_view() == old(self).store.live_view(),
            ({
                let fs = old(self).store.staged_view();
                &&& (r is Ok <==> !has_embedded_nul(name.spec_bytes()) && fs.contains_key(
                    name_key(name),
                ) && !old(self).store.in_use(name_key(name)))
                &&& match r {
                    Ok(_) => {
                        &&& final(self).store.staged_view() == remove_effect(fs, name_key(name))
                        &&& final(self).store.durable_view() == if complete {
                            final(self).store.staged_view()
                        } else {
                            old(self).store.durable_view()
                        }
                    },
                    Err(e) => {
                        &&& *final(self) == *old(self)
                        &&& if has_embedded_nul(name.spec_bytes()) {
                            e matches Error::TryNew(t) && name.spec_bytes()[t.pos as int] == 0
                        } else if !fs.contains_key(name_key(name)) {
                            e == Error::Code(ErrorCode::NotFound)
                        } else {
                            e == Error::Code(ErrorCode::Busy)
                        }
                    },
                }
            }),
    {
        let wire = match wire_name(name) {
            Ok(w) => w,
            Err(t) => { return Err(Error::TryNew(t)) },
        };
        let rc = self.store.remove(wire.as_slice(), ops_flags(complete));
        match Error::try_from_code(rc) {
            Ok(()) => Ok(()),
            Err(e) => Err(e),
        }
    }
}

} // verus!
