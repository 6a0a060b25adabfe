//! Grouping several file operations into one atomic unit.
//!
//! A [`Transaction`] is begun from a [`Session`] and takes the session
//! over by value: while the transaction is open the session cannot be
//! named, so no direct (auto-finalizing) operation can even be written.
//! That ownership transfer, not a runtime flag, is what guarantees
//! every operation goes through the open transaction. The session comes
//! back from exactly the two ways a transaction can end: [`commit`]
//! applies everything staged as one atomic unit, [`discard`] drops it
//! all.
//!
//! [`commit`]: Transaction::commit
//! [`discard`]: Transaction::discard

use crate::config::OpenMode;
use crate::config::Port;
use crate::error::Error;
use crate::error::ErrorCode;
use crate::model::open_allowed;
use crate::model::open_denied;
use crate::model::open_effect;
use crate::model::remove_effect;
use crate::model::rename_effect;
use crate::model::resize_effect;
use crate::model::size_limit;
use crate::model::write_effect;
use crate::model::FsMap;
use crate::session::SecureFile;
use crate::session::Session;
use crate::wire::has_embedded_nul;
use crate::wire::name_key;
use vstd::prelude::*;
use vstd::string::StringSliceAdditionalSpecFns;

verus! {

/// An open transaction: the same file operations as the session it
/// took over, but staged, plus the commit and discard that resolve
/// them.
///
/// Staged operations are visible to further operations on the same
/// transaction, but the durable namespace — what a discard falls back
/// to — does not change until a commit.
#[derive(Debug)]
pub struct Transaction {
    pub(crate) session: Session,
}

impl Session {
    /// Begins a transaction, taking the session over until the
    /// transaction is committed or discarded. No request is sent yet.
    pub fn begin_transaction(self) -> (t: Transaction)
        requires
            self.wf(),
        ensures
            t.wf(),
            t.fs() == self.fs(),
            t.durable() == self.fs(),
            t.port() == self.port(),
            t.handles() == self.handles(),
            t.live() == self.live(),
    {
        Transaction { session: self }
    }
}

impl Transaction {
    /// The namespace as this transaction sees it: the durable state
    /// with every staged operation applied.
    pub open(crate) spec fn fs(&self) -> FsMap {
        self.session.store.staged_view()
    }

    /// The durable namespace: what the files revert to if this
    /// transaction is discarded.
    pub open(crate) spec fn durable(&self) -> FsMap {
        self.session.store.durable_view()
    }

    /// The port of the underlying connection.
    pub open(crate) spec fn port(&self) -> Port {
        self.session.port()
    }

    /// The names of the handles the connection has issued, by handle
    /// value.
    pub open(crate) spec fn handles(&self) -> Seq<Seq<u8>> {
        self.session.handles()
    }

    /// Which issued handles are still live, by handle value.
    pub open(crate) spec fn live(&self) -> Seq<bool> {
        self.session.live()
    }

    /// How many handles the connection has issued.
    pub open spec fn handle_count(&self) -> int {
        self.handles().len() as int
    }

    /// The wire name a handle refers to.
    pub open spec fn handle_name(&self, h: int) -> Seq<u8> {
        self.handles()[h]
    }

    /// Whether a handle is still live.
    pub open spec fn handle_live(&self, h: int) -> bool {
        self.live()[h]
    }

    /// Whether some live handle refers to `k`, which blocks operations
    /// addressing `k` by name.
    pub open(crate) spec fn in_use(&self, k: Seq<u8>) -> bool {
        self.session.in_use(k)
    }

    /// Whether a handle was issued by this connection and is still
    /// live.
    pub open spec fn valid_handle(&self, f: &SecureFile) -> bool {
        0 <= f.id() < self.handle_count() && self.handle_live(f.id())
    }

    /// The namespace tables are well formed.
    pub open(crate) spec fn wf(&self) -> bool {
        self.session.store_wf()
    }

    /// Attempts to open a file at `name` with the options specified by
    /// `mode`, staging any create or truncate effect instead of
    /// finalizing it. Fails as busy while a live handle names the
    /// file.
    pub fn open_file(&mut self, name: &str, mode: OpenMode) -> (r: Result<SecureFile, Error>)
        requires
            old(self).wf(),
        ensures
            final(self).wf(),
            final(self).port() == old(self).port(),
            final(self).durable() == old(self).durable(),
            r is Ok <==> !has_embedded_nul(name.spec_bytes()) && !old(self).in_use(name_key(name))
                && open_allowed(mode, old(self).fs(), name_key(name)),
            match r {
                Ok(f) => {
                    &&& final(self).fs() == open_effect(mode, old(self).fs(), name_key(name))
                    &&& f.id() == old(self).handle_count()
                    &&& final(self).handles() == old(self).handles().push(name_key(name))
                    &&& final(self).live() == old(self).live().push(true)
                    &&& final(self).handle_name(f.id()) == name_key(name)
                    &&& final(self).valid_handle(&f)
                    &&& final(self).in_use(name_key(name))
                    &&& forall|k: Seq<u8>| k != name_key(name) ==> final(self).in_use(k)
                        == old(self).in_use(k)
                },
                Err(e) => {
                    &&& *final(self) == *old(self)
                    &&& if has_embedded_nul(name.spec_bytes()) {
                        e matches Error::TryNew(t) && name.spec_bytes()[t.pos as int] == 0
                    } else if old(self).in_use(name_key(name)) {
                        e == Error::Code(ErrorCode::Busy)
                    } else {
                        e == Error::Code(open_denied(mode, old(self).fs(), name_key(name)))
                    }
                },
            },
    {
        let r = self.session.open_file_impl(name, mode, false);
        proof {
            old(self).session.store.lemma_views_len();
            self.session.store.lemma_views_len();
        }
        r
    }

    /// Releases a handle issued by this connection, so the file it
    /// named can be addressed by name again.
    pub fn close_file(&mut self, file: SecureFile)
        requires
            old(self).wf(),
            old(self).valid_handle(&file),
        ensures
            final(self).wf(),
            final(self).fs() == old(self).fs(),
            final(self).durable() == old(self).durable(),
            final(self).port() == old(self).port(),
            final(self).handles() == old(self).handles(),
            final(self).live() == old(self).live().update(file.id(), false),
            !final(self).in_use(old(self).handle_name(file.id())),
            forall|k: Seq<u8>| k != old(self).handle_name(file.id()) ==> final(self).in_use(k)
                == old(self).in_use(k),
    {
        self.session.close_file_impl(file.raw);
    }

    /// Reads the contents of the file at `path` into `buf`, returning
    /// the prefix of `buf` holding them. The transaction's own staged
    /// contents are what is read; a buffer smaller than the file means
    /// an error, never a partial read. The read opens and releases its
    /// own handle, so it fails as busy while a live handle names the
    /// file.
    pub fn read<'buf>(&mut self, path: &str, buf: &'buf mut [u8]) -> (r: Result<&'buf [u8], Error>)
        requires
            old(self).wf(),
        ensures
            final(self).wf(),
            final(self).port() == old(self).port(),
            final(self).durable() == old(self).durable(),
            final(self).fs() == old(self).fs(),
            final(self).handle_count() >= old(self).handle_count(),
            forall|h: int| 0 <= h < old(self).handle_count()
                ==> final(self).handle_name(h) == old(self).handle_name(h)
                && final(self).handle_live(h) == old(self).handle_live(h),
            forall|k: Seq<u8>| final(self).in_use(k) == old(self).in_use(k),
            r is Ok <==> !has_embedded_nul(path.spec_bytes()) && !old(self).in_use(name_key(path))
                && old(self).fs().contains_key(name_key(path)) && old(self).fs()[name_key(
                path,
            )].len() <= old(buf)@.len(),
            match r {
                Ok(out) => {
                    let data = old(self).fs()[name_key(path)];
                    &&& out@ == data
                    &&& final(buf)@ == data + old(buf)@.skip(data.len() as int)
                },
                Err(e) => {
                    &&& final(buf)@ == old(buf)@
                    &&& if has_embedded_nul(path.spec_bytes()) {
                        e matches Error::TryNew(t) && path.spec_bytes()[t.pos as int] == 0
                    } else if old(self).in_use(name_key(path)) {
                        e == Error::Code(ErrorCode::Busy)
                    } else if !old(self).fs().contains_key(name_key(path)) {
                        e == Error::Code(ErrorCode::NotFound)
                    } else {
                        e == Error::Code(ErrorCode::NotEnoughBuffer)
                    }
                },
            },
    {
        let file = match self.session.open_file_impl(path, OpenMode::Open, false) {
            Ok(f) => f,
            Err(e) => { return Err(e) },
        };
        let ghost mid = self.session;
        proof {
            old(self).session.store.lemma_views_len();
            self.session.store.lemma_views_len();
            assert(self.handle_live(file.id()));
        }
        let result = self.session.read_all(&file, buf);
        self.session.close_file_impl(file.raw);
        proof {
            assert forall|k: Seq<u8>| self.in_use(k) == old(self).in_use(k) by {
                if k == name_key(path) {
                    assert(!old(self).in_use(k));
                    assert(!self.in_use(k));
                } else {
                    assert(mid.in_use(k) == old(self).in_use(k));
                    assert(self.in_use(k) == mid.in_use(k));
                }
            }
        }
        result
    }

    /// Stages an overwrite of the already-open `file` with `buf`: the
    /// new contents are visible to this transaction, and durable only
    /// once it commits.
    pub fn write_all(&mut self, file: &mut SecureFile, buf: &[u8]) -> (r: Result<(), Error>)
        requires
            old(self).wf(),
            old(self).valid_handle(old(file)),
            buf@.len() <= size_limit(),
        ensures
            final(self).wf(),
            final(self).port() == old(self).port(),
            final(self).durable() == old(self).durable(),
            *final(file) == *old(file),
            final(self).handles() == old(self).handles(),
            final(self).live() == old(self).live(),
            ({
                let k = old(self).handle_name(old(file).id());
                &&& (r is Ok <==> old(self).fs().contains_key(k))
                &&& match r {
                    Ok(_) => final(self).fs() == write_effect(old(self).fs(), k, buf@),
                    Err(e) => {
                        &&& *final(self) == *old(self)
                        &&& e == Error::Code(ErrorCode::NotFound)
                    },
                }
            }),
    {
        self.session.write_impl(file, buf, false)
    }

    /// Stages a truncate or zero-extension of the file to `size`
    /// bytes.
    pub fn set_size(&mut self, file: &mut SecureFile, size: usize) -> (r: Result<(), Error>)
        requires
            old(self).wf(),
            old(self).valid_handle(old(file)),
            size <= size_limit(),
        ensures
            final(self).wf(),
            final(self).port() == old(self).port(),
            final(self).durable() == old(self).durable(),
            *final(file) == *old(file),
            final(self).handles() == old(self).handles(),
            final(self).live() == old(self).live(),
            ({
                let k = old(self).handle_name(old(file).id());
                &&& (r is Ok <==> old(self).fs().contains_key(k))
                &&& match r {
                    Ok(_) => final(self).fs() == resize_effect(old(self).fs(), k, size as nat),
                    Err(e) => {
                        &&& *final(self) == *old(self)
                        &&& e == Error::Code(ErrorCode::NotFound)
                    },
                }
            }),
    {
        self.session.set_size_impl(file, size, false)
    }

    /// Stages a rename of `from` to `to`, replacing `to`'s contents if
    /// it exists and creating it if not. Fails as busy while a live
    /// handle names the source or the destination.
    pub fn rename(&mut self, from: &str, to: &str) -> (r: Result<(), Error>)
        requires
            old(self).wf(),
        ensures
            final(self).wf(),
            final(self).port() == old(self).port(),
            final(self).durable() == old(self).durable(),
            final(self).handles() == old(self).handles(),
            final(self).live() == old(self).live(),
            r is Ok <==> !has_embedded_nul(from.spec_bytes()) && !has_embedded_nul(to.spec_bytes())
                && old(self).fs().contains_key(name_key(from)) && !old(self).in_use(name_key(from))
                && !old(self).in_use(name_key(to)),
            match r {
                Ok(_) => final(self).fs() == rename_effect(
                    old(self).fs(),
                    name_key(from),
                    name_key(to),
                ),
                Err(e) => {
                    &&& *final(self) == *old(self)
                    &&& if has_embedded_nul(from.spec_bytes()) {
                        e matches Error::TryNew(t) && from.spec_bytes()[t.pos as int] == 0
                    } else if has_embedded_nul(to.spec_bytes()) {
                        e matches Error::TryNew(t) && to.spec_bytes()[t.pos as int] == 0
                    } else if !old(self).fs().contains_key(name_key(from)) {
                        e == Error::Code(ErrorCode::NotFound)
                    } else {
                        e == Error::Code(ErrorCode::Busy)
                    }
                },
            },
    {
        self.session.rename_impl(from, to, false)
    }

    /// Stages a removal of the file at `name`. Fails as busy while a
    /// live handle names the file.
    pub fn remove(&mut self, name: &str) -> (r: Result<(), Error>)
        requires
            old(self).wf(),
        ensures
            final(self).wf(),
            final(self).port() == old(self).port(),
            final(self).durable() == old(self).durable(),
            final(self).handles() == old(self).handles(),
            final(self).live() == old(self).live(),
            r is Ok <==> !has_embedded_nul(name.spec_bytes()) && old(self).fs().contains_key(
                name_key(name),
            ) && !old(self).in_use(name_key(name)),
            match r {
                Ok(_) => final(self).fs() == remove_effect(old(self).fs(), name_key(name)),
                Err(e) => {
                    &&& *final(self) == *old(self)
                    &&& if has_embedded_nul(name.spec_bytes()) {
                        e matches Error::TryNew(t) && name.spec_bytes()[t.pos as int] == 0
                    } else if !old(self).fs().contains_key(name_key(name)) {
                        e == Error::Code(ErrorCode::NotFound)
                    } else {
                        e == Error::Code(ErrorCode::Busy)
                    }
                },
            },
    {
        self.session.remove_impl(name, false)
    }

    /// Commits the transaction: every operation staged since it began
    /// becomes durable as one atomic unit, and the session comes back.
    pub fn commit(self) -> (r: Result<Session, Error>)
        requires
            self.wf(),
        ensures
            r matches Ok(s) ==> {
                &&& s.wf()
                &&& s.fs() == self.fs()
                &&& s.port() == self.port()
                &&& s.handles() == self.handles()
                &&& s.live() == self.live()
            },
            r is Ok,
    {
        let mut session = self.session;
        let rc = session.store.end_transaction(true);
        match Error::try_from_code(rc) {
            Ok(()) => Ok(session),
            Err(e) => Err(e),
        }
    }

    /// Discards the transaction: every staged operation is dropped,
    /// the namespace reverts to the durable state from when the
    /// transaction began, and the session comes back.
    pub fn discard(self) -> (s: Session)
        requires
            self.wf(),
        ensures
            s.wf(),
            s.fs() == self.durable(),
            s.port() == self.port(),
            s.handles() == self.handles(),
            s.live() == self.live(),
    {
        let mut session = self.session;
        let rc = session.store.end_transaction(false);
        match Error::try_from_code(rc) {
            Ok(()) => (),
            Err(_) => (),
        }
        session
    }
}

} // verus!
