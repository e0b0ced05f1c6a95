//! Change detection between two consecutive snapshots.
//!
//! Detection reads only the new snapshot's paths: a path is a change when
//! it is absent from the old snapshot or carries a different timestamp.
//! Paths that vanished since the old snapshot are not, by themselves,
//! reported — a deliberate carryover, stated in [`lemma_deletion_alone_not_changed`].

use vstd::prelude::*;
use crate::snapshot::FileEntry;
use crate::snapshot::Snapshot;
use crate::snapshot::Timestamp;
use crate::snapshot::map_of;
use crate::snapshot::unique_paths;
use crate::snapshot::lemma_map_of_value_at;
use crate::snapshot::lemma_map_of_contains_index;

verus! {

/// A watched file changed between the old and the new mapping: some path
/// of the new mapping is absent from the old one, or its timestamp differs.
pub open spec fn changed_between(
    old_m: Map<Seq<u8>, Timestamp>,
    new_m: Map<Seq<u8>, Timestamp>,
) -> bool {
    exists|p: Seq<u8>|
        #[trigger] new_m.contains_key(p) && (!old_m.contains_key(p) || old_m[p] != new_m[p])
}

/// Decide whether anything changed from `old_snap` to `new_snap`,
/// short-circuiting on the first difference found.
pub fn changed(old_snap: &Snapshot, new_snap: &Snapshot) -> (r: bool)
    requires
        old_snap.wf(),
        new_snap.wf(),
    ensures
        r == changed_between(old_snap@, new_snap@),
{
    proof {
        new_snap.lemma_model();
    }
    let mut i: usize = 0;
    while i < new_snap.entries.len()
        invariant
            old_snap.wf(),
            new_snap.wf(),
            new_snap@ == map_of(new_snap.entries@),
            unique_paths(new_snap.entries@),
            i <= new_snap.entries@.len(),
            forall|j: int|
                0 <= j < i ==> old_snap@.contains_key(#[trigger] new_snap.entries@[j].path@)
                    && old_snap@[new_snap.entries@[j].path@] == new_snap.entries@[j].mtime,
        decreases new_snap.entries@.len() - i,
    {
        let entry_time = new_snap.entries[i].mtime;
        match old_snap.find(&new_snap.entries[i].path) {
            Some(t) => {
                if t != entry_time {
                    proof {
                        lemma_map_of_value_at(new_snap.entries@, i as int);
                        assert(new_snap@.contains_key(new_snap.entries@[i as int].path@));
                    }
                    return true;
                }
            },
            None => {
                proof {
                    lemma_map_of_value_at(new_snap.entries@, i as int);
                    assert(new_snap@.contains_key(new_snap.entries@[i as int].path@));
                }
                return true;
            },
        }
        i += 1;
    }
    proof {
        assert forall|p: Seq<u8>| #[trigger]
            new_snap@.contains_key(p) implies old_snap@.contains_key(p) && old_snap@[p]
            == new_snap@[p] by {
            lemma_map_of_contains_index(new_snap.entries@, p);
            let k = choose|k: int|
                0 <= k < new_snap.entries@.len() && new_snap.entries@[k].path@ == p;
            lemma_map_of_value_at(new_snap.entries@, k);
        }
    }
    false
}

/// Two snapshots hold the same files with the same timestamps exactly when
/// neither direction of comparison detects a change.
pub fn snapshots_equal(a: &Snapshot, b: &Snapshot) -> (r: bool)
    requires
        a.wf(),
        b.wf(),
    ensures
        r == (a@ == b@),
{
    let c1 = changed(a, b);
    let c2 = changed(b, a);
    if !c1 && !c2 {
        proof {
            assert forall|p: Seq<u8>| #[trigger]
                a@.contains_key(p) implies b@.contains_key(p) && a@[p] == b@[p] by {
                assert(!(a@.contains_key(p) && (!b@.contains_key(p) || b@[p] != a@[p])));
            }
            assert forall|p: Seq<u8>| #[trigger] b@.contains_key(p) implies a@.contains_key(
                p,
            ) by {
                assert(!(b@.contains_key(p) && (!a@.contains_key(p) || a@[p] != b@[p])));
            }
            assert(a@ =~= b@);
        }
        true
    } else {
        proof {
            if c1 {
                let p = choose|p: Seq<u8>|
                    #[trigger] b@.contains_key(p) && (!a@.contains_key(p) || a@[p] != b@[p]);
                assert(a@ != b@);
            } else {
                let p = choose|p: Seq<u8>|
                    #[trigger] a@.contains_key(p) && (!b@.contains_key(p) || b@[p] != a@[p]);
                assert(a@ != b@);
            }
        }
        false
    }
}

/// Mappings that agree on every path of the new one — in particular,
/// identical mappings, or an old mapping from which files only vanished —
/// are reported unchanged.
pub proof fn lemma_deletion_alone_not_changed(
    m1: Map<Seq<u8>, Timestamp>,
    m2: Map<Seq<u8>, Timestamp>,
)
    requires
        forall|p: Seq<u8>| #[trigger]
            m2.contains_key(p) ==> m1.contains_key(p) && m1[p] == m2[p],
    ensures
        !changed_between(m1, m2),
{
}

/// Snapshots taken twice over an unmodified tree — the same file
/// listing — are structurally equal, and comparing them detects no
/// change. [`Snapshot::from_entries`] yields exactly the mapping of its
/// listing, so the snapshot is a function of the tree's state alone.
pub proof fn lemma_same_listing_unchanged(
    listing: Seq<FileEntry>,
    s1: &Snapshot,
    s2: &Snapshot,
)
    requires
        s1@ == map_of(listing),
        s2@ == map_of(listing),
    ensures
        s1@ == s2@,
        !changed_between(s1@, s2@),
{
    lemma_identical_not_changed(s1@, s2@);
}

/// Identical path-to-timestamp mappings are reported unchanged.
pub proof fn lemma_identical_not_changed(
    m1: Map<Seq<u8>, Timestamp>,
    m2: Map<Seq<u8>, Timestamp>,
)
    requires
        m1 == m2,
    ensures
        !changed_between(m1, m2),
{
    lemma_deletion_alone_not_changed(m1, m2);
}

/// A path present in the new mapping but absent from the old one is
/// reported as a change.
pub proof fn lemma_new_path_changed(
    m1: Map<Seq<u8>, Timestamp>,
    m2: Map<Seq<u8>, Timestamp>,
    p: Seq<u8>,
)
    requires
        m2.contains_key(p),
        !m1.contains_key(p),
    ensures
        changed_between(m1, m2),
{
    assert(m2.contains_key(p) && (!m1.contains_key(p) || m1[p] != m2[p]));
}

/// A path shared by both mappings whose timestamps differ — whether the
/// new one is later or earlier — is reported as a change.
pub proof fn lemma_shared_path_changed(
    m1: Map<Seq<u8>, Timestamp>,
    m2: Map<Seq<u8>, Timestamp>,
    p: Seq<u8>,
)
    requires
        m1.contains_key(p),
        m2.contains_key(p),
        m1[p] != m2[p],
    ensures
        changed_between(m1, m2),
{
    assert(m2.contains_key(p) && (!m1.contains_key(p) || m1[p] != m2[p]));
}

} // verus!
