//! Point-in-time records of watched files.
//!
//! A [`Snapshot`] maps each watched file path (raw bytes) to the file's
//! last-modified [`Timestamp`]. It abstracts to a `Map<Seq<u8>, Timestamp>`;
//! paths are unique keys and insertion order carries no meaning.

use vstd::prelude::*;

verus! {

/// A file's last-modification instant: whole seconds and the nanosecond
/// remainder, counted from a fixed epoch. Two instants denote the same
/// modification state exactly when both fields agree.
#[derive(Clone, Copy, Debug, PartialEq, Eq, Structural)]
pub struct Timestamp {
    pub secs: u64,
    pub nanos: u32,
}

/// One recorded file: its path, as raw bytes, and its modification time.
pub struct FileEntry {
    pub path: Vec<u8>,
    pub mtime: Timestamp,
}

/// The mapping denoted by a sequence of entries, read front to back:
/// a later entry for the same path overrides an earlier one.
pub open spec fn map_of(s: Seq<FileEntry>) -> Map<Seq<u8>, Timestamp>
    decreases s.len(),
{
    if s.len() == 0 {
        Map::empty()
    } else {
        map_of(s.drop_last()).insert(s.last().path@, s.last().mtime)
    }
}

/// No two entries carry the same path.
pub open spec fn unique_paths(s: Seq<FileEntry>) -> bool {
    forall|i: int, j: int| 0 <= i < j < s.len() ==> s[i].path@ != s[j].path@
}

/// A point-in-time record of every regular file reachable from the watched
/// root, mapping each path to its last-modified timestamp.
pub struct Snapshot {
    pub(crate) entries: Vec<FileEntry>,
}

impl View for Snapshot {
    type V = Map<Seq<u8>, Timestamp>;

    closed spec fn view(&self) -> Map<Seq<u8>, Timestamp> {
        map_of(self.entries@)
    }
}

/// With unique paths, the map's value at an entry's path is that entry's time.
pub proof fn lemma_map_of_value_at(s: Seq<FileEntry>, i: int)
    requires
        unique_paths(s),
        0 <= i < s.len(),
    ensures
        map_of(s).contains_key(s[i].path@),
        map_of(s)[s[i].path@] == s[i].mtime,
    decreases s.len(),
{
    if i == s.len() - 1 {
    } else {
        assert(unique_paths(s.drop_last()));
        lemma_map_of_value_at(s.drop_last(), i);
        assert(s.last().path@ != s[i].path@);
    }
}

/// A path held by no entry is absent from the denoted map.
pub proof fn lemma_map_of_absent(s: Seq<FileEntry>, p: Seq<u8>)
    requires
        forall|i: int| 0 <= i < s.len() ==> s[i].path@ != p,
    ensures
        !map_of(s).contains_key(p),
    decreases s.len(),
{
    if s.len() > 0 {
        lemma_map_of_absent(s.drop_last(), p);
    }
}

/// Every key of the denoted map is held by some entry.
pub proof fn lemma_map_of_contains_index(s: Seq<FileEntry>, p: Seq<u8>)
    requires
        map_of(s).contains_key(p),
    ensures
        exists|i: int| 0 <= i < s.len() && s[i].path@ == p,
    decreases s.len(),
{
    if s.last().path@ == p {
        assert(s[s.len() - 1].path@ == p);
    } else {
        lemma_map_of_contains_index(s.drop_last(), p);
        let i = choose|i: int| 0 <= i < s.drop_last().len() && s.drop_last()[i].path@ == p;
        assert(s[i].path@ == p);
    }
}

/// Replacing the entry at `i` by one with the same path updates the map at
/// that path, exactly as a map insert does.
proof fn lemma_map_of_update(s: Seq<FileEntry>, i: int, e: FileEntry)
    requires
        unique_paths(s),
        0 <= i < s.len(),
        e.path@ == s[i].path@,
    ensures
        map_of(s.update(i, e)) == map_of(s).insert(e.path@, e.mtime),
    decreases s.len(),
{
    if i == s.len() - 1 {
        assert(s.update(i, e).drop_last() =~= s.drop_last());
        assert(map_of(s.update(i, e)) =~= map_of(s).insert(e.path@, e.mtime));
    } else {
        assert(unique_paths(s.drop_last()));
        lemma_map_of_update(s.drop_last(), i, e);
        assert(s.update(i, e).drop_last() =~= s.drop_last().update(i, e));
        assert(s.update(i, e).last() == s.last());
        assert(s.last().path@ != e.path@);
        assert(map_of(s.update(i, e)) =~= map_of(s).insert(e.path@, e.mtime));
    }
}

/// Byte-for-byte equality of two paths.
fn bytes_eq(a: &Vec<u8>, b: &Vec<u8>) -> (r: bool)
    ensures
        r == (a@ == b@),
{
    if a.len() != b.len() {
        return false;
    }
    let mut i: usize = 0;
    while i < a.len()
        invariant
            i <= a@.len(),
            a@.len() == b@.len(),
            forall|j: int| 0 <= j < i ==> a@[j] == b@[j],
        decreases a@.len() - i,
    {
        if a[i] != b[i] {
            return false;
        }
        i += 1;
    }
    proof {
        assert(a@ =~= b@);
    }
    true
}

impl Snapshot {
    /// Each path appears in at most one stored entry.
    pub closed spec fn wf(&self) -> bool {
        unique_paths(self.entries@)
    }

    /// The abstraction relation, stated once for the sibling modules:
    /// a snapshot denotes the map its entry sequence denotes.
    pub(crate) proof fn lemma_model(&self)
        ensures
            self@ == map_of(self.entries@),
            self.wf() == unique_paths(self.entries@),
    {
    }

    /// An empty snapshot: no files recorded.
    pub fn new() -> (s: Snapshot)
        ensures
            s.wf(),
            s@ == Map::<Seq<u8>, Timestamp>::empty(),
    {
        Snapshot { entries: Vec::new() }
    }

    /// Record `mtime` for `path`, replacing any earlier record of the
    /// same path, as a map insert does.
    pub fn insert(&mut self, path: Vec<u8>, mtime: Timestamp)
        requires
            old(self).wf(),
        ensures
            final(self).wf(),
            final(self)@ == old(self)@.insert(path@, mtime),
    {
        let mut i: usize = 0;
        while i < self.entries.len()
            invariant
                *self == *old(self),
                self.wf(),
                i <= self.entries@.len(),
                forall|j: int| 0 <= j < i ==> self.entries@[j].path@ != path@,
            decreases self.entries@.len() - i,
        {
            if bytes_eq(&self.entries[i].path, &path) {
                let ghost s0 = self.entries@;
                let e = FileEntry { path, mtime };
                proof {
                    lemma_map_of_update(s0, i as int, e);
                    assert(unique_paths(s0.update(i as int, e)));
                }
                self.entries[i] = e;
                return;
            }
            i += 1;
        }
        let ghost s0 = self.entries@;
        self.entries.push(FileEntry { path, mtime });
        proof {
            assert(self.entries@.drop_last() =~= s0);
            assert(unique_paths(self.entries@));
        }
    }

    /// The recorded time for `path`, or `None` where the snapshot does not
    /// cover that path.
    pub fn find(&self, path: &Vec<u8>) -> (r: Option<Timestamp>)
        requires
            self.wf(),
        ensures
            self@.contains_key(path@) ==> r == Some(self@[path@]),
            !self@.contains_key(path@) ==> r == None::<Timestamp>,
    {
        let mut i: usize = 0;
        while i < self.entries.len()
            invariant
                self.wf(),
                i <= self.entries@.len(),
                forall|j: int| 0 <= j < i ==> self.entries@[j].path@ != path@,
            decreases self.entries@.len() - i,
        {
            if bytes_eq(&self.entries[i].path, path) {
                proof {
                    lemma_map_of_value_at(self.entries@, i as int);
                }
                return Some(self.entries[i].mtime);
            }
            i += 1;
        }
        proof {
            lemma_map_of_absent(self.entries@, path@);
        }
        None
    }

    /// Build a snapshot from a listing of files, front to back; a later
    /// listing of the same path overrides an earlier one. The result is
    /// a function of the listing alone.
    pub fn from_entries(list: Vec<FileEntry>) -> (s: Snapshot)
        ensures
            s.wf(),
            s@ == map_of(list@),
    {
        let ghost orig = list@;
        let mut list = list;
        let total = list.len();
        proof {
            assert(orig.len() == total);
        }
        let mut snap = Snapshot::new();
        let mut i: usize = 0;
        while list.len() > 0
            invariant
                snap.wf(),
                orig.len() <= usize::MAX,
                i + list@.len() == orig.len(),
                list@ =~= orig.subrange(i as int, orig.len() as int),
                snap@ == map_of(orig.subrange(0, i as int)),
            decreases list@.len(),
        {
            let e = list.remove(0);
            proof {
                assert(e == orig[i as int]);
            }
            snap.insert(e.path, e.mtime);
            proof {
                assert(orig.subrange(0, i + 1).drop_last() =~= orig.subrange(0, i as int));
                assert(orig.subrange(0, i + 1).last() == orig[i as int]);
            }
            i += 1;
        }
        proof {
            assert(orig.subrange(0, orig.len() as int) =~= orig);
        }
        snap
    }
}

} // verus!
