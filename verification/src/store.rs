//! A verified interpreter of the wire requests, standing in for the
//! remote half of the protocol.
//!
//! The service keeps two copies of the namespace: the durable state,
//! and the staged state that collects every not-yet-finalized request
//! on the connection. A request whose operation-flag word asks for a
//! finalize first applies its own effect to the staged state and then
//! makes the whole staged state durable in one step; any other request
//! leaves its effect staged. Ending the connection's transaction
//! either finalizes the staged state or resets it to the durable one.
//!
//! The service also tracks the handles it has issued and which of them
//! are still live. A file may have at most one live handle: opening an
//! in-use name, or renaming or deleting a file while a live handle
//! names it, is refused as busy.

use crate::config::OpenMode;
use crate::error::ERR_BUSY;
use crate::error::ERR_NOT_FOUND;
use crate::error::ERR_NOT_VALID;
use crate::error::NO_ERROR;
use crate::model::fs_bounded;
use crate::model::open_allowed;
use crate::model::open_denied;
use crate::model::open_effect;
use crate::model::remove_effect;
use crate::model::rename_effect;
use crate::model::resize_contents;
use crate::model::resize_effect;
use crate::model::size_limit;
use crate::model::write_effect;
use crate::model::FsMap;
use crate::table::FsTable;
use crate::wire::flags_mode;
use crate::wire::op_complete;
use crate::wire::spec_flags_mode;
use crate::wire::spec_op_complete;
use crate::wire::STORAGE_FILE_MOVE_CREATE;
use vstd::prelude::*;
use vstd::slice::slice_subrange;
use vstd::slice::slice_to_vec;

verus! {

/// One issued handle: the wire name it refers to, and whether it is
/// still live (not yet released).
#[derive(Debug)]
pub struct HandleEntry {
    /// The wire name the handle was opened for.
    pub name: Vec<u8>,
    /// Whether the handle has not been released yet.
    pub live: bool,
}

/// Whether some live handle among `names`/`live` refers to `k`.
pub open spec fn in_use_of(names: Seq<Seq<u8>>, live: Seq<bool>, k: Seq<u8>) -> bool {
    exists|h: int| 0 <= h < names.len() && live[h] && names[h] == k
}

/// The connection-scoped state of the storage service: the durable
/// namespace, the staged namespace, and the handles issued so far.
#[derive(Debug)]
pub struct Store {
    durable: FsTable,
    staged: FsTable,
    handles: Vec<HandleEntry>,
}

impl Store {
    /// The durable namespace: what survives a discarded transaction.
    pub closed spec fn durable_view(&self) -> FsMap {
        self.durable@
    }

    /// The staged namespace: the durable state with every staged
    /// request applied.
    pub closed spec fn staged_view(&self) -> FsMap {
        self.staged@
    }

    /// The names the issued handles refer to, by handle value.
    pub closed spec fn handles_view(&self) -> Seq<Seq<u8>> {
        self.handles@.map_values(|e: HandleEntry| e.name@)
    }

    /// Which issued handles are still live, by handle value.
    pub closed spec fn live_view(&self) -> Seq<bool> {
        self.handles@.map_values(|e: HandleEntry| e.live)
    }

    /// How many handles have been issued.
    pub open spec fn handle_count(&self) -> int {
        self.handles_view().len() as int
    }

    /// The name a handle refers to.
    pub open spec fn handle_name(&self, h: int) -> Seq<u8> {
        self.handles_view()[h]
    }

    /// Whether a handle is still live.
    pub open spec fn handle_live(&self, h: int) -> bool {
        self.live_view()[h]
    }

    /// Whether some live handle refers to `k`.
    pub open spec fn in_use(&self, k: Seq<u8>) -> bool {
        in_use_of(self.handles_view(), self.live_view(), k)
    }

    /// Both namespaces are well-formed tables of wire-representable
    /// files, and no two live handles share a name.
    pub closed spec fn wf(&self) -> bool {
        &&& self.durable.wf()
        &&& self.staged.wf()
        &&& fs_bounded(self.durable@)
        &&& fs_bounded(self.staged@)
        &&& forall|h1: int, h2: int|
            0 <= h1 < h2 < self.handles@.len() && self.handles@[h1].live
                && self.handles@[h2].live ==> self.handles@[h1].name@ != self.handles@[h2].name@
    }

    /// There is one liveness flag per issued handle: the two views
    /// index the same handles.
    pub proof fn lemma_views_len(&self)
        ensures
            self.live_view().len() == self.handles_view().len(),
    {
    }

    /// Nothing is staged: the staged namespace equals the durable one.
    pub open spec fn synced(&self) -> bool {
        self.staged_view() == self.durable_view()
    }

    /// A fresh connection: empty namespace, nothing staged, no handles.
    pub fn new() -> (s: Store)
        ensures
            s.wf(),
            s.synced(),
            s.staged_view() == FsMap::empty(),
            s.handle_count() == 0,
    {
        let s = Store { durable: FsTable::new(), staged: FsTable::new(), handles: Vec::new() };
        proof {
            assert(s.handles_view() =~= Seq::<Seq<u8>>::empty());
        }
        s
    }

    /// Makes the staged namespace durable, as one atomic step.
    fn finalize(&mut self)
        requires
            old(self).wf(),
        ensures
            final(self).wf(),
            final(self).staged_view() == old(self).staged_view(),
            final(self).durable_view() == old(self).staged_view(),
            final(self).handles_view() == old(self).handles_view(),
            final(self).live_view() == old(self).live_view(),
    {
        self.durable = self.staged.duplicate();
    }

    /// Whether some live handle refers to `name`.
    fn name_in_use(&self, name: &[u8]) -> (b: bool)
        ensures
            b == self.in_use(name@),
    {
        let n = self.handles.len();
        let mut i: usize = 0;
        while i < n
            invariant
                i <= n,
                n == self.handles@.len(),
                forall|j: int| 0 <= j < i ==> !(self.live_view()[j] && self.handles_view()[j]
                    == name@),
            decreases n - i,
        {
            let e = &self.handles[i];
            if e.live && crate::table::bytes_eq(e.name.as_slice(), name) {
                proof {
                    assert(self.live_view()[i as int] && self.handles_view()[i as int] == name@);
                }
                return true;
            }
            i = i + 1;
        }
        proof {
            if self.in_use(name@) {
                let h = choose|h: int|
                    0 <= h < self.handles_view().len() && self.live_view()[h]
                        && self.handles_view()[h] == name@;
                assert(!(self.live_view()[h] && self.handles_view()[h] == name@));
            }
        }
        false
    }

    /// Handles an open request: refuses an in-use name as busy, checks
    /// the flag bitmask, applies the mode's create or truncate effect
    /// to the staged namespace, issues a live handle, and finalizes if
    /// the operation flags ask to. On failure nothing changes.
    pub fn open(&mut self, name: &[u8], flags: u32, op_flags: u32) -> (r: (i64, usize))
        requires
            old(self).wf(),
        ensures
            final(self).wf(),
            ({
                let k = name@;
                match spec_flags_mode(flags) {
                    Option::None => {
                        &&& r.0 == ERR_NOT_VALID
                        &&& *final(self) == *old(self)
                    },
                    Option::Some(mode) => {
                        if old(self).in_use(k) {
                            &&& r.0 == ERR_BUSY
                            &&& *final(self) == *old(self)
                        } else if open_allowed(mode, old(self).staged_view(), k) {
                            &&& r.0 == NO_ERROR
                            &&& r.1 == old(self).handle_count()
                            &&& final(self).staged_view() == open_effect(
                                mode,
                                old(self).staged_view(),
                                k,
                            )
                            &&& final(self).durable_view() == if spec_op_complete(op_flags) {
                                final(self).staged_view()
                            } else {
                                old(self).durable_view()
                            }
                            &&& final(self).handles_view() == old(self).handles_view().push(k)
                            &&& final(self).live_view() == old(self).live_view().push(true)
                            &&& final(self).in_use(k)
                            &&& forall|k2: Seq<u8>| k2 != k ==> final(self).in_use(k2)
                                == old(self).in_use(k2)
                        } else {
                            &&& r.0 == open_denied(mode, old(self).staged_view(), k).spec_to_code()
                            &&& *final(self) == *old(self)
                        }
                    },
                }
            }),
    {
        let mode = match flags_mode(flags) {
            Option::Some(mode) => mode,
            Option::None => { return (ERR_NOT_VALID, 0) },
        };
        if self.name_in_use(name) {
            return (ERR_BUSY, 0);
        }
        let present = self.staged.contains(name);
        let allowed = match mode {
            OpenMode::Open => present,
            OpenMode::Create => true,
            OpenMode::CreateExclusive => !present,
            OpenMode::TruncateExisting => present,
            OpenMode::TruncateOrCreate => true,
        };
        if !allowed {
            let code = match mode {
                OpenMode::Open => ERR_NOT_FOUND,
                OpenMode::TruncateExisting => ERR_NOT_FOUND,
                OpenMode::CreateExclusive => crate::error::ERR_ALREADY_EXISTS,
                OpenMode::Create => NO_ERROR,
                OpenMode::TruncateOrCreate => NO_ERROR,
            };
            return (code, 0);
        }
        let truncate = match mode {
            OpenMode::Open => false,
            OpenMode::Create => !present,
            OpenMode::CreateExclusive => true,
            OpenMode::TruncateExisting => true,
            OpenMode::TruncateOrCreate => true,
        };
        if truncate {
            self.staged.set(name, Vec::new());
        }
        let h = self.handles.len();
        self.handles.push(HandleEntry { name: slice_to_vec(name), live: true });
        proof {
            assert(self.handles_view() =~= old(self).handles_view().push(name@));
            assert(self.live_view() =~= old(self).live_view().push(true));
            assert(self.live_view()[h as int] && self.handles_view()[h as int] == name@);
            assert forall|k2: Seq<u8>| k2 != name@ implies self.in_use(k2) == old(self).in_use(
                k2,
            ) by {
                if self.in_use(k2) {
                    let j = choose|j: int|
                        0 <= j < self.handles_view().len() && self.live_view()[j]
                            && self.handles_view()[j] == k2;
                    assert(j < h);
                    assert(old(self).live_view()[j] && old(self).handles_view()[j] == k2);
                }
                if old(self).in_use(k2) {
                    let j = choose|j: int|
                        0 <= j < old(self).handles_view().len() && old(self).live_view()[j]
                            && old(self).handles_view()[j] == k2;
                    assert(self.live_view()[j] && self.handles_view()[j] == k2);
                }
            }
            assert forall|h1: int, h2: int|
                0 <= h1 < h2 < self.handles@.len() && self.handles@[h1].live
                    && self.handles@[h2].live implies self.handles@[h1].name@
                != self.handles@[h2].name@ by {
                if h2 == h as int {
                    assert(old(self).live_view()[h1] && old(self).handles_view()[h1]
                        == old(self).handles@[h1].name@);
                    assert(!old(self).in_use(name@));
                } else {
                    assert(self.handles@[h1] == old(self).handles@[h1]);
                    assert(self.handles@[h2] == old(self).handles@[h2]);
                }
            }
        }
        if op_complete(op_flags) {
            self.finalize();
        }
        (NO_ERROR, h)
    }

    /// Releases a live handle. The name it referred to is no longer in
    /// use; nothing else changes.
    pub fn close_handle(&mut self, h: usize)
        requires
            old(self).wf(),
            h < old(self).handle_count(),
            old(self).handle_live(h as int),
        ensures
            final(self).wf(),
            final(self).staged_view() == old(self).staged_view(),
            final(self).durable_view() == old(self).durable_view(),
            final(self).handles_view() == old(self).handles_view(),
            final(self).live_view() == old(self).live_view().update(h as int, false),
            !final(self).in_use(old(self).handle_name(h as int)),
            forall|k: Seq<u8>| k != old(self).handle_name(h as int) ==> final(self).in_use(k)
                == old(self).in_use(k),
    {
        let ghost nm = old(self).handle_name(h as int);
        self.handles[h].live = false;
        proof {
            assert(self.handles@ =~= old(self).handles@.update(
                h as int,
                HandleEntry { name: old(self).handles@[h as int].name, live: false },
            ));
            assert(self.handles_view() =~= old(self).handles_view());
            assert(self.live_view() =~= old(self).live_view().update(h as int, false));
            assert(!self.in_use(nm)) by {
                if self.in_use(nm) {
                    let j = choose|j: int|
                        0 <= j < self.handles_view().len() && self.live_view()[j]
                            && self.handles_view()[j] == nm;
                    assert(j != h as int);
                    assert(old(self).handles@[j].live && old(self).handles@[h as int].live);
                }
            }
            assert forall|k: Seq<u8>| k != nm implies self.in_use(k) == old(self).in_use(k) by {
                if self.in_use(k) {
                    let j = choose|j: int|
                        0 <= j < self.handles_view().len() && self.live_view()[j]
                            && self.handles_view()[j] == k;
                    assert(old(self).live_view()[j] && old(self).handles_view()[j] == k);
                }
                if old(self).in_use(k) {
                    let j = choose|j: int|
                        0 <= j < old(self).handles_view().len() && old(self).live_view()[j]
                            && old(self).handles_view()[j] == k;
                    assert(j != h as int);
                    assert(self.live_view()[j] && self.handles_view()[j] == k);
                }
            }
        }
    }

    /// Handles a read request through a handle: reports the staged
    /// contents of the file the handle names, or why they cannot be
    /// returned. Never changes any state.
    pub fn read(&self, h: usize, max: usize) -> (r: (isize, Option<&Vec<u8>>))
        requires
            self.wf(),
            h < self.handle_count(),
        ensures
            ({
                let k = self.handle_name(h as int);
                if !self.staged_view().contains_key(k) {
                    &&& r.0 == ERR_NOT_FOUND as isize
                    &&& r.1 is None
                } else if self.staged_view()[k].len() > max {
                    &&& r.0 == crate::error::ERR_NOT_ENOUGH_BUFFER as isize
                    &&& r.1 is None
                } else {
                    &&& r.0 == self.staged_view()[k].len()
                    &&& r.1 matches Option::Some(d) && d@ == self.staged_view()[k]
                }
            }),
    {
        let name: &Vec<u8> = &self.handles[h].name;
        proof {
            assert(self.handle_name(h as int) == self.handles@[h as int].name@);
        }
        match self.staged.get(name.as_slice()) {
            Option::None => (ERR_NOT_FOUND as isize, None),
            Option::Some(d) => {
                if d.len() > max {
                    (crate::error::ERR_NOT_ENOUGH_BUFFER as isize, None)
                } else {
                    (d.len() as isize, Some(d))
                }
            },
        }
    }

    /// Handles a write request through a handle: replaces the staged
    /// contents of the file the handle names and reports the byte
    /// count written, finalizing if the operation flags ask to.
    pub fn write(&mut self, h: usize, data: &[u8], op_flags: u32) -> (r: isize)
        requires
            old(self).wf(),
            h < old(self).handle_count(),
            data@.len() <= size_limit(),
        ensures
            final(self).wf(),
            final(self).handles_view() == old(self).handles_view(),
            final(self).live_view() == old(self).live_view(),
            ({
                let k = old(self).handle_name(h as int);
                if !old(self).staged_view().contains_key(k) {
                    &&& r == ERR_NOT_FOUND as isize
                    &&& *final(self) == *old(self)
                } else {
                    &&& r == data@.len()
                    &&& final(self).staged_view() == write_effect(
                        old(self).staged_view(),
                        k,
                        data@,
                    )
                    &&& final(self).durable_view() == if spec_op_complete(op_flags) {
                        final(self).staged_view()
                    } else {
                        old(self).durable_view()
                    }
                }
            }),
    {
        let name: Vec<u8> = slice_to_vec(self.handles[h].name.as_slice());
        if !self.staged.contains(name.as_slice()) {
            return ERR_NOT_FOUND as isize;
        }
        self.staged.set(name.as_slice(), slice_to_vec(data));
        if op_complete(op_flags) {
            self.finalize();
        }
        data.len() as isize
    }

    /// Handles a size query through a handle: reports the staged size
    /// of the file the handle names. Never changes any state.
    pub fn get_size(&self, h: usize) -> (r: (i64, usize))
        requires
            self.wf(),
            h < self.handle_count(),
        ensures
            ({
                let k = self.handle_name(h as int);
                if !self.staged_view().contains_key(k) {
                    r == (ERR_NOT_FOUND, 0usize)
                } else {
                    &&& r.0 == NO_ERROR
                    &&& r.1 == self.staged_view()[k].len()
                }
            }),
    {
        let name: &Vec<u8> = &self.handles[h].name;
        match self.staged.get(name.as_slice()) {
            Option::None => (ERR_NOT_FOUND, 0),
            Option::Some(d) => (NO_ERROR, d.len()),
        }
    }

    /// Handles a set-size request through a handle: truncates or
    /// zero-extends the staged contents of the file the handle names,
    /// finalizing if the operation flags ask to.
    pub fn set_size(&mut self, h: usize, size: usize, op_flags: u32) -> (r: i64)
        requires
            old(self).wf(),
            h < old(self).handle_count(),
            size <= size_limit(),
        ensures
            final(self).wf(),
            final(self).handles_view() == old(self).handles_view(),
            final(self).live_view() == old(self).live_view(),
            ({
                let k = old(self).handle_name(h as int);
                if !old(self).staged_view().contains_key(k) {
                    &&& r == ERR_NOT_FOUND
                    &&& *final(self) == *old(self)
                } else {
                    &&& r == NO_ERROR
                    &&& final(self).staged_view() == resize_effect(
                        old(self).staged_view(),
                        k,
                        size as nat,
                    )
                    &&& final(self).durable_view() == if spec_op_complete(op_flags) {
                        final(self).staged_view()
                    } else {
                        old(self).durable_view()
                    }
                }
            }),
    {
        let name: Vec<u8> = slice_to_vec(self.handles[h].name.as_slice());
        let resized: Vec<u8> = match self.staged.get(name.as_slice()) {
            Option::None => { return ERR_NOT_FOUND },
            Option::Some(d) => resize_bytes(d, size),
        };
        self.staged.set(name.as_slice(), resized);
        if op_complete(op_flags) {
            self.finalize();
        }
        NO_ERROR
    }

    /// Handles a rename request: refuses it as busy while a live
    /// handle names the source or the destination, else moves the
    /// source's staged contents to the destination name, replacing
    /// what the destination held, and finalizes if the operation flags
    /// ask to. The flag permitting creation of the destination must be
    /// set; it is the only supported rename form.
    pub fn rename(&mut self, from: &[u8], to: &[u8], flags: u32, op_flags: u32) -> (r: i64)
        requires
            old(self).wf(),
        ensures
            final(self).wf(),
            final(self).handles_view() == old(self).handles_view(),
            final(self).live_view() == old(self).live_view(),
            if flags != STORAGE_FILE_MOVE_CREATE {
                &&& r == ERR_NOT_VALID
                &&& *final(self) == *old(self)
            } else if !old(self).staged_view().contains_key(from@) {
                &&& r == ERR_NOT_FOUND
                &&& *final(self) == *old(self)
            } else if old(self).in_use(from@) || old(self).in_use(to@) {
                &&& r == ERR_BUSY
                &&& *final(self) == *old(self)
            } else {
                &&& r == NO_ERROR
                &&& final(self).staged_view() == rename_effect(
                    old(self).staged_view(),
                    from@,
                    to@,
                )
                &&& final(self).durable_view() == if spec_op_complete(op_flags) {
                    final(self).staged_view()
                } else {
                    old(self).durable_view()
                }
            },
    {
        if flags != STORAGE_FILE_MOVE_CREATE {
            return ERR_NOT_VALID;
        }
        let data: Vec<u8> = match self.staged.get(from) {
            Option::None => { return ERR_NOT_FOUND },
            Option::Some(d) => slice_to_vec(d.as_slice()),
        };
        if self.name_in_use(from) || self.name_in_use(to) {
            return ERR_BUSY;
        }
        self.staged.delete(from);
        self.staged.set(to, data);
        if op_complete(op_flags) {
            self.finalize();
        }
        NO_ERROR
    }

    /// Handles a delete request: refuses it as busy while a live
    /// handle names the file, else removes the name from the staged
    /// namespace, finalizing if the operation flags ask to.
    pub fn remove(&mut self, name: &[u8], op_flags: u32) -> (r: i64)
        requires
            old(self).wf(),
        ensures
            final(self).wf(),
            final(self).handles_view() == old(self).handles_view(),
            final(self).live_view() == old(self).live_view(),
            if !old(self).staged_view().contains_key(name@) {
                &&& r == ERR_NOT_FOUND
                &&& *final(self) == *old(self)
            } else if old(self).in_use(name@) {
                &&& r == ERR_BUSY
                &&& *final(self) == *old(self)
            } else {
                &&& r == NO_ERROR
                &&& final(self).staged_view() == remove_effect(old(self).staged_view(), name@)
                &&& final(self).durable_view() == if spec_op_complete(op_flags) {
                    final(self).staged_view()
                } else {
                    old(self).durable_view()
                }
            },
    {
        if !self.staged.contains(name) {
            return ERR_NOT_FOUND;
        }
        if self.name_in_use(name) {
            return ERR_BUSY;
        }
        self.staged.delete(name);
        if op_complete(op_flags) {
            self.finalize();
        }
        NO_ERROR
    }

    /// Handles the transaction-ending request: finalizing makes the
    /// whole staged namespace durable as one atomic unit, aborting
    /// resets the staged namespace to the durable one.
    pub fn end_transaction(&mut self, complete: bool) -> (r: i64)
        requires
            old(self).wf(),
        ensures
            final(self).wf(),
            final(self).handles_view() == old(self).handles_view(),
            final(self).live_view() == old(self).live_view(),
            r == NO_ERROR,
            complete ==> final(self).staged_view() == old(self).staged_view()
                && final(self).durable_view() == old(self).staged_view(),
            !complete ==> final(self).staged_view() == old(self).durable_view()
                && final(self).durable_view() == old(self).durable_view(),
    {
        if complete {
            self.durable = self.staged.duplicate();
        } else {
            self.staged = self.durable.duplicate();
        }
        NO_ERROR
    }
}

/// Contents after a resize: the prefix of `data` when shrinking, `data`
/// padded with zero bytes when growing.
fn resize_bytes(data: &Vec<u8>, size: usize) -> (r: Vec<u8>)
    ensures
        r@ == resize_contents(data@, size as nat),
{
    if size <= data.len() {
        let r = slice_to_vec(slice_subrange(data.as_slice(), 0, size));
        proof {
            assert(r@ =~= resize_contents(data@, size as nat));
        }
        r
    } else {
        let mut r = slice_to_vec(data.as_slice());
        while r.len() < size
            invariant
                data@.len() <= r@.len() <= size,
                r@ == data@ + Seq::new((r@.len() - data@.len()) as nat, |i: int| 0u8),
            decreases size - r.len(),
        {
            r.push(0);
            proof {
                assert(r@ =~= data@ + Seq::new((r@.len() - data@.len()) as nat, |i: int| 0u8));
            }
        }
        proof {
            assert(r@ =~= resize_contents(data@, size as nat));
        }
        r
    }
}

} // verus!
