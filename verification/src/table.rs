//! A verified name-to-contents table, the executable form of the
//! namespace map in [`crate::model`].
//!
//! The table stores one entry per file and is viewed as a
//! [`crate::model::FsMap`]; every operation states its effect as a map
//! operation on that view.

use crate::model::FsMap;
use vstd::prelude::*;
use vstd::slice::slice_to_vec;

verus! {

/// One file: its wire name and its full contents.
#[derive(Debug)]
pub struct FileEntry {
    /// The file's null-terminated wire name.
    pub name: Vec<u8>,
    /// The file's contents.
    pub data: Vec<u8>,
}

/// The map a sequence of entries stands for. Later entries shadow
/// earlier ones, though a well-formed table never has two entries with
/// the same name.
pub open spec fn table_view(s: Seq<FileEntry>) -> FsMap
    decreases s.len(),
{
    if s.len() == 0 {
        Map::empty()
    } else {
        table_view(s.drop_last()).insert(s.last().name@, s.last().data@)
    }
}

/// No two entries carry the same name.
pub open spec fn distinct_names(s: Seq<FileEntry>) -> bool {
    forall|i: int, j: int| 0 <= i < j < s.len() ==> s[i].name@ != s[j].name@
}

/// A key is in the view exactly when some entry carries it.
proof fn lemma_view_contains_key(s: Seq<FileEntry>, k: Seq<u8>)
    ensures
        table_view(s).contains_key(k) <==> exists|i: int| 0 <= i < s.len() && s[i].name@ == k,
    decreases s.len(),
{
    if s.len() > 0 {
        let pre = s.drop_last();
        lemma_view_contains_key(pre, k);
        if s.last().name@ == k {
            assert(s[s.len() - 1].name@ == k);
        } else {
            if exists|i: int| 0 <= i < s.len() && s[i].name@ == k {
                let i = choose|i: int| 0 <= i < s.len() && s[i].name@ == k;
                assert(pre[i].name@ == k);
            }
            if table_view(s).contains_key(k) {
                let i = choose|i: int| 0 <= i < pre.len() && pre[i].name@ == k;
                assert(s[i].name@ == k);
            }
        }
    }
}

/// In a well-formed table, the entry carrying a key determines the
/// view's value at that key.
proof fn lemma_view_get(s: Seq<FileEntry>, i: int, k: Seq<u8>)
    requires
        distinct_names(s),
        0 <= i < s.len(),
        s[i].name@ == k,
    ensures
        table_view(s).contains_key(k),
        table_view(s)[k] == s[i].data@,
    decreases s.len(),
{
    let pre = s.drop_last();
    if i < s.len() - 1 {
        lemma_view_get(pre, i, k);
    }
}

/// Removing an entry removes exactly its key from the view.
proof fn lemma_view_remove(s: Seq<FileEntry>, i: int)
    requires
        distinct_names(s),
        0 <= i < s.len(),
    ensures
        table_view(s.remove(i)) == table_view(s).remove(s[i].name@),
    decreases s.len(),
{
    let k = s[i].name@;
    let pre = s.drop_last();
    if i == s.len() - 1 {
        assert(s.remove(i) =~= pre);
        lemma_view_contains_key(pre, k);
        assert(!table_view(pre).contains_key(k)) by {
            if table_view(pre).contains_key(k) {
                let j = choose|j: int| 0 <= j < pre.len() && pre[j].name@ == k;
                assert(s[j].name@ == s[i].name@);
            }
        }
        assert(table_view(s).remove(k) =~= table_view(pre));
    } else {
        let t = s.remove(i);
        assert(t.drop_last() =~= pre.remove(i));
        assert(t.last() == s.last());
        lemma_view_remove(pre, i);
        assert(s.last().name@ != k);
        assert(table_view(pre).remove(k).insert(s.last().name@, s.last().data@) =~= table_view(
            pre,
        ).insert(s.last().name@, s.last().data@).remove(k));
    }
}

/// Entries equal name-by-name and contents-by-contents have the same
/// view.
proof fn lemma_view_congruent(a: Seq<FileEntry>, b: Seq<FileEntry>)
    requires
        a.len() == b.len(),
        forall|i: int| 0 <= i < a.len() ==> a[i].name@ == b[i].name@ && a[i].data@ == b[i].data@,
    ensures
        table_view(a) == table_view(b),
    decreases a.len(),
{
    if a.len() > 0 {
        lemma_view_congruent(a.drop_last(), b.drop_last());
        assert(table_view(a) =~= table_view(b));
    }
}

/// Whether two byte slices hold the same bytes.
pub fn bytes_eq(a: &[u8], b: &[u8]) -> (r: bool)
    ensures
        r == (a@ == b@),
{
    let n = a.len();
    if n != b.len() {
        return false;
    }
    let mut i: usize = 0;
    while i < n
        invariant
            i <= n,
            n == a@.len(),
            n == b@.len(),
            forall|j: int| 0 <= j < i ==> a@[j] == b@[j],
        decreases n - i,
    {
        if a[i] != b[i] {
            return false;
        }
        i = i + 1;
    }
    proof {
        assert(a@ =~= b@);
    }
    true
}

/// The name-to-contents table.
#[derive(Debug)]
pub struct FsTable {
    entries: Vec<FileEntry>,
}

impl View for FsTable {
    type V = FsMap;

    closed spec fn view(&self) -> FsMap {
        table_view(self.entries@)
    }
}

impl FsTable {
    /// Every name occurs at most once.
    pub closed spec fn wf(&self) -> bool {
        distinct_names(self.entries@)
    }

    /// An empty table.
    pub fn new() -> (t: Self)
        ensures
            t@ == FsMap::empty(),
            t.wf(),
    {
        FsTable { entries: Vec::new() }
    }

    /// The index of the entry carrying `name`, if any.
    fn find(&self, name: &[u8]) -> (r: Option<usize>)
        ensures
            match r {
                Some(i) => i < self.entries@.len() && self.entries@[i as int].name@ == name@,
                None => forall|i: int| 0 <= i < self.entries@.len()
                    ==> self.entries@[i].name@ != name@,
            },
    {
        let n = self.entries.len();
        let mut i: usize = 0;
        while i < n
            invariant
                i <= n,
                n == self.entries@.len(),
                forall|j: int| 0 <= j < i ==> self.entries@[j].name@ != name@,
            decreases n - i,
        {
            if bytes_eq(self.entries[i].name.as_slice(), name) {
                return Some(i);
            }
            i = i + 1;
        }
        None
    }

    /// Whether a file with this name exists.
    pub fn contains(&self, name: &[u8]) -> (b: bool)
        ensures
            b == self@.contains_key(name@),
    {
        proof {
            lemma_view_contains_key(self.entries@, name@);
        }
        match self.find(name) {
            Some(_) => true,
            None => false,
        }
    }

    /// The contents of the file with this name, if it exists.
    pub fn get(&self, name: &[u8]) -> (r: Option<&Vec<u8>>)
        requires
            self.wf(),
        ensures
            match r {
                Some(d) => self@.contains_key(name@) && d@ == self@[name@],
                None => !self@.contains_key(name@),
            },
    {
        proof {
            lemma_view_contains_key(self.entries@, name@);
        }
        match self.find(name) {
            Some(i) => {
                proof {
                    lemma_view_get(self.entries@, i as int, name@);
                }
                Some(&self.entries[i].data)
            },
            None => None,
        }
    }

    /// Deletes the file with this name, if it exists.
    pub fn delete(&mut self, name: &[u8])
        requires
            old(self).wf(),
        ensures
            final(self).wf(),
            final(self)@ == old(self)@.remove(name@),
    {
        proof {
            lemma_view_contains_key(self.entries@, name@);
        }
        match self.find(name) {
            Some(i) => {
                proof {
                    lemma_view_remove(self.entries@, i as int);
                }
                self.entries.remove(i);
                proof {
                    assert(distinct_names(self.entries@)) by {
                        assert(forall|x: int, y: int|
                            0 <= x < y < self.entries@.len() ==> self.entries@[x].name@
                                != self.entries@[y].name@) by {
                            assert(forall|x: int| 0 <= x < self.entries@.len()
                                ==> self.entries@[x] == if x < i {
                                    old(self).entries@[x]
                                } else {
                                    old(self).entries@[x + 1]
                                });
                        }
                    }
                }
            },
            None => {
                proof {
                    assert(self@.remove(name@) =~= self@);
                }
            },
        }
    }

    /// Stores `data` under `name`, replacing any previous contents.
    pub fn set(&mut self, name: &[u8], data: Vec<u8>)
        requires
            old(self).wf(),
        ensures
            final(self).wf(),
            final(self)@ == old(self)@.insert(name@, data@),
    {
        self.delete(name);
        proof {
            lemma_view_contains_key(self.entries@, name@);
        }
        let entry = FileEntry { name: slice_to_vec(name), data };
        let ghost pre = self.entries@;
        self.entries.push(entry);
        proof {
            assert(self.entries@.drop_last() =~= pre);
            assert(self@ =~= old(self)@.insert(name@, data@));
            assert(forall|x: int, y: int|
                0 <= x < y < self.entries@.len() ==> self.entries@[x].name@
                    != self.entries@[y].name@) by {
                assert(forall|x: int| 0 <= x < pre.len() ==> self.entries@[x] == pre[x]);
                assert(forall|x: int| 0 <= x < pre.len() ==> pre[x].name@ != name@);
            }
        }
    }

    /// A table holding the same files with the same contents.
    pub fn duplicate(&self) -> (r: Self)
        requires
            self.wf(),
        ensures
            r.wf(),
            r@ == self@,
    {
        let n = self.entries.len();
        let mut copies: Vec<FileEntry> = Vec::new();
        let mut i: usize = 0;
        while i < n
            invariant
                i <= n,
                n == self.entries@.len(),
                copies@.len() == i,
                forall|j: int| 0 <= j < i ==> copies@[j].name@ == self.entries@[j].name@
                    && copies@[j].data@ == self.entries@[j].data@,
            decreases n - i,
        {
            let e = FileEntry {
                name: slice_to_vec(self.entries[i].name.as_slice()),
                data: slice_to_vec(self.entries[i].data.as_slice()),
            };
            copies.push(e);
            i = i + 1;
        }
        proof {
            lemma_view_congruent(copies@, self.entries@);
        }
        FsTable { entries: copies }
    }
}

} // verus!
