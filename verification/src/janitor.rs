use vstd::prelude::*;
use vstd::multiset::Multiset;
use crate::config::{ContainerFormat, StoragePolicy};

verus! {

broadcast use vstd::seq_lib::group_to_multiset_ensures;

/// Seconds between two janitor sweeps.
pub const JANITOR_INTERVAL_SECS: u64 = 10;

/// One file found under the storage root during a janitor scan: its path (as
/// raw bytes), its size, and its last-modified time in seconds. Rebuilt fresh
/// on every scan, never kept across sweeps.
#[derive(Clone, Debug, PartialEq)]
pub struct FileEntry {
    pub path: Vec<u8>,
    pub size: u64,
    pub modified: u64,
}

/// Whether a path names a recordable segment: it ends in a dot, the
/// configured container extension, and nothing more, and the byte before the
/// dot exists and is not the directory separator (so the file name has a
/// nonempty stem). Bytes: 46 is `.`, 47 is `/`, and the extension letters are
/// `ts` (116 115) or `mp4` (109 112 52).
pub open spec fn matches_format(path: Seq<u8>, fmt: ContainerFormat) -> bool {
    let n = path.len() as int;
    match fmt {
        ContainerFormat::Ts => {
            &&& n >= 4
            &&& path[n - 1] == 115u8
            &&& path[n - 2] == 116u8
            &&& path[n - 3] == 46u8
            &&& path[n - 4] != 47u8
        },
        ContainerFormat::Mp4 => {
            &&& n >= 5
            &&& path[n - 1] == 52u8
            &&& path[n - 2] == 112u8
            &&& path[n - 3] == 109u8
            &&& path[n - 4] == 46u8
            &&& path[n - 5] != 47u8
        },
    }
}

/// Decides whether a scanned path is a recordable segment of the configured
/// container format.
pub fn path_matches_format(path: &Vec<u8>, fmt: ContainerFormat) -> (r: bool)
    ensures
        r == matches_format(path@, fmt),
{
    let n = path.len();
    match fmt {
        ContainerFormat::Ts => {
            n >= 4 && path[n - 1] == 115 && path[n - 2] == 116 && path[n - 3] == 46
                && path[n - 4] != 47
        },
        ContainerFormat::Mp4 => {
            n >= 5 && path[n - 1] == 52 && path[n - 2] == 112 && path[n - 3] == 109
                && path[n - 4] == 46 && path[n - 5] != 47
        },
    }
}

/// The recordable entries among a scan result, in scan order: exactly those
/// whose path matches the configured container format.
pub open spec fn recordable(s: Seq<FileEntry>, fmt: ContainerFormat) -> Seq<FileEntry>
    decreases s.len(),
{
    if s.len() == 0 {
        Seq::empty()
    } else if matches_format(s.last().path@, fmt) {
        recordable(s.drop_last(), fmt).push(s.last())
    } else {
        recordable(s.drop_last(), fmt)
    }
}

/// Total bytes of a list of file entries.
pub open spec fn total_size(s: Seq<FileEntry>) -> int
    decreases s.len(),
{
    if s.len() == 0 {
        0
    } else {
        total_size(s.drop_last()) + s.last().size
    }
}

/// Oldest first: each entry was modified no later than every entry after it.
pub open spec fn sorted_by_mtime(s: Seq<FileEntry>) -> bool {
    forall|i: int, j: int| 0 <= i < j < s.len() ==> s[i].modified <= s[j].modified
}

proof fn lemma_total_size_push(s: Seq<FileEntry>, e: FileEntry)
    ensures
        total_size(s.push(e)) == total_size(s) + e.size,
{
    assert(s.push(e).drop_last() =~= s);
    assert(s.push(e).last() == e);
}

/// Every recordable entry matches the configured format: retention never
/// touches a file of another extension.
pub proof fn lemma_recordable_matches(s: Seq<FileEntry>, fmt: ContainerFormat)
    ensures
        forall|i: int|
            0 <= i < recordable(s, fmt).len()
                ==> matches_format(#[trigger] recordable(s, fmt)[i].path@, fmt),
    decreases s.len(),
{
    if s.len() > 0 {
        lemma_recordable_matches(s.drop_last(), fmt);
        let pre = recordable(s.drop_last(), fmt);
        if matches_format(s.last().path@, fmt) {
            assert(recordable(s, fmt) == pre.push(s.last()));
            assert forall|i: int|
                0 <= i < recordable(s, fmt).len() implies matches_format(
                recordable(s, fmt)[i].path@,
                fmt,
            ) by {
                if i < pre.len() {
                    assert(recordable(s, fmt)[i] == pre[i]);
                } else {
                    assert(recordable(s, fmt)[i] == s.last());
                }
            }
        } else {
            assert(recordable(s, fmt) == pre);
        }
    }
}

/// A file whose extension does not match the configured container format is
/// invisible to retention: adding it to a scan changes neither the recordable
/// set nor the usage total, and it is never a deletion candidate.
pub proof fn lemma_nonmatching_invisible(s: Seq<FileEntry>, fmt: ContainerFormat, e: FileEntry)
    requires
        !matches_format(e.path@, fmt),
    ensures
        recordable(s.push(e), fmt) == recordable(s, fmt),
        total_size(recordable(s.push(e), fmt)) == total_size(recordable(s, fmt)),
        !recordable(s, fmt).contains(e),
{
    assert(s.push(e).drop_last() =~= s);
    assert(s.push(e).last() == e);
    lemma_recordable_matches(s, fmt);
}

fn min_index(v: &Vec<FileEntry>) -> (r: usize)
    requires
        v@.len() > 0,
    ensures
        r < v@.len(),
        forall|k: int| 0 <= k < v@.len() ==> v@[r as int].modified <= v@[k].modified,
{
    let mut best: usize = 0;
    let mut i: usize = 1;
    while i < v.len()
        invariant
            best < i <= v@.len(),
            forall|k: int| 0 <= k < i ==> v@[best as int].modified <= v@[k].modified,
        decreases v@.len() - i,
    {
        if v[i].modified < v[best].modified {
            best = i;
        }
        i += 1;
    }
    best
}

/// Sorts scan entries by last-modified time ascending, keeping exactly the
/// same entries. Entries with equal timestamps may come out in either order.
fn sort_by_modified(input: Vec<FileEntry>) -> (r: Vec<FileEntry>)
    ensures
        sorted_by_mtime(r@),
        r@.to_multiset() == input@.to_multiset(),
{
    let ghost orig = input@;
    let mut rest = input;
    let mut out: Vec<FileEntry> = Vec::new();
    proof {
        assert(out@.to_multiset() =~= Multiset::<FileEntry>::empty());
        assert(out@.to_multiset().add(rest@.to_multiset()) =~= orig.to_multiset());
    }
    while rest.len() > 0
        invariant
            out@.to_multiset().add(rest@.to_multiset()) == orig.to_multiset(),
            sorted_by_mtime(out@),
            forall|i: int, j: int|
                0 <= i < out@.len() && 0 <= j < rest@.len()
                    ==> out@[i].modified <= rest@[j].modified,
        decreases rest@.len(),
    {
        let ghost out0 = out@;
        let ghost rest0 = rest@;
        let mi = min_index(&rest);
        let e = rest.remove(mi);
        out.push(e);
        proof {
            assert(e == rest0[mi as int]);
            assert(out@ =~= out0.push(e));
            assert(rest@ =~= rest0.remove(mi as int));
            assert(rest0.contains(e));
            assert(out@.to_multiset().add(rest@.to_multiset())
                =~= out0.to_multiset().add(rest0.to_multiset()));
            assert forall|j: int| 0 <= j < rest@.len() implies e.modified
                <= rest@[j].modified by {
                if j < mi {
                    assert(rest@[j] == rest0[j]);
                } else {
                    assert(rest@[j] == rest0[j + 1]);
                }
            }
        }
    }
    proof {
        assert forall|a: FileEntry| rest@.to_multiset().count(a) == 0 by {
            assert(!rest@.contains(a));
        }
        assert(rest@.to_multiset() =~= Multiset::<FileEntry>::empty());
        assert(out@.to_multiset() =~= orig.to_multiset());
    }
    out
}

/// One planned eviction sweep: the recordable files sorted oldest first, the
/// position of the next deletion candidate, and the overage still to
/// reclaim.
pub struct Sweep {
    pub candidates: Vec<FileEntry>,
    pub next: usize,
    pub remaining: u128,
}

/// `a - b`, capped at zero.
pub open spec fn sat_sub(a: u128, b: u128) -> u128 {
    if a >= b {
        (a - b) as u128
    } else {
        0u128
    }
}

impl Sweep {
    pub open spec fn wf(self) -> bool {
        self.next <= self.candidates@.len()
    }

    /// The sweep is over: the overage is satisfied or no candidate is left.
    pub open spec fn done(self) -> bool {
        self.remaining == 0 || self.next == self.candidates@.len()
    }

    /// The file to attempt to delete next, oldest remaining first; `None`
    /// once the overage is satisfied or the candidates are exhausted.
    pub fn next_candidate(&self) -> (r: Option<&FileEntry>)
        requires
            self.wf(),
        ensures
            match r {
                Some(e) => !self.done() && *e == self.candidates@[self.next as int],
                None => self.done(),
            },
    {
        if self.remaining == 0 || self.next == self.candidates.len() {
            None
        } else {
            Some(&self.candidates[self.next])
        }
    }

    /// Records the outcome of the deletion attempt on the current candidate.
    /// A successful deletion reduces the remaining overage by the file's
    /// size, capped at zero; a failed deletion leaves the overage unchanged.
    /// Either way the sweep advances to the next-oldest candidate, so one
    /// failure never blocks the rest of the sweep.
    pub fn record_outcome(&mut self, deleted: bool)
        requires
            old(self).wf(),
            !old(self).done(),
        ensures
            final(self).wf(),
            final(self).candidates == old(self).candidates,
            final(self).next == old(self).next + 1,
            final(self).remaining == if deleted {
                sat_sub(old(self).remaining, old(self).candidates@[old(self).next as int].size as u128)
            } else {
                old(self).remaining
            },
    {
        let n = self.candidates.len();
        if deleted {
            let sz = self.candidates[self.next].size as u128;
            self.remaining = if self.remaining >= sz {
                self.remaining - sz
            } else {
                0
            };
        }
        assert(self.next < n);
        self.next = self.next + 1;
    }
}

/// Plans one janitor sweep over a fresh scan of the storage tree. Only
/// entries whose path matches the configured container format count toward
/// usage or may be deleted. Returns `None` — a no-op sweep — exactly when
/// their total size is within `policy.max_disk_bytes`; otherwise the sweep
/// holds every recordable entry, sorted oldest first, and the overage to
/// reclaim. `keep_free_bytes` is deliberately not consulted.
pub fn plan_sweep(entries: Vec<FileEntry>, policy: &StoragePolicy) -> (r: Option<Sweep>)
    ensures
        (r is Some) <==> total_size(recordable(entries@, policy.format)) > policy.max_disk_bytes,
        r matches Some(sw) ==> {
            &&& sw.wf()
            &&& sw.next == 0
            &&& sw.remaining == total_size(recordable(entries@, policy.format))
                - policy.max_disk_bytes
            &&& sorted_by_mtime(sw.candidates@)
            &&& sw.candidates@.to_multiset() == recordable(entries@, policy.format).to_multiset()
            &&& forall|i: int|
                0 <= i < sw.candidates@.len()
                    ==> matches_format(#[trigger] sw.candidates@[i].path@, policy.format)
        },
{
    let fmt = policy.format;
    let ghost orig = entries@;
    let mut rest = entries;
    let mut kept: Vec<FileEntry> = Vec::new();
    let mut total: u128 = 0;
    let n0 = rest.len();
    proof {
        assert(orig.len() == n0);
        assert(orig.len() <= usize::MAX);
        assert(rest@ =~= orig.take(rest@.len() as int));
        assert(kept@.to_multiset() =~= Multiset::<FileEntry>::empty());
        assert(recordable(orig, fmt).to_multiset()
            =~= recordable(rest@, fmt).to_multiset().add(kept@.to_multiset()));
    }
    while rest.len() > 0
        invariant
            fmt == policy.format,
            orig.len() <= usize::MAX,
            rest@ == orig.take(rest@.len() as int),
            recordable(orig, fmt).to_multiset()
                == recordable(rest@, fmt).to_multiset().add(kept@.to_multiset()),
            total as int == total_size(recordable(orig, fmt)) - total_size(recordable(rest@, fmt)),
            total as int <= (orig.len() - rest@.len()) * 0xffff_ffff_ffff_ffffu64,
        decreases rest@.len(),
    {
        let ghost rest0 = rest@;
        let ghost kept0 = kept@;
        let e = rest.pop().unwrap();
        proof {
            assert(e == rest0.last());
            assert(rest@ =~= rest0.drop_last());
            assert(rest@ =~= orig.take(rest@.len() as int));
        }
        if path_matches_format(&e.path, fmt) {
            proof {
                assert(recordable(rest0, fmt) == recordable(rest@, fmt).push(e));
                lemma_total_size_push(recordable(rest@, fmt), e);
                assert(recordable(rest0, fmt).to_multiset()
                    =~= recordable(rest@, fmt).to_multiset().insert(e));
                assert(recordable(rest@, fmt).to_multiset().add(kept0.to_multiset().insert(e))
                    =~= recordable(rest0, fmt).to_multiset().add(kept0.to_multiset()));
            }
            total = total + (e.size as u128);
            kept.push(e);
        } else {
            proof {
                assert(recordable(rest0, fmt) == recordable(rest@, fmt));
            }
        }
    }
    proof {
        assert(rest@ =~= Seq::<FileEntry>::empty());
        assert(recordable(rest@, fmt) =~= Seq::<FileEntry>::empty());
        assert forall|a: FileEntry| recordable(rest@, fmt).to_multiset().count(a) == 0 by {
            assert(!recordable(rest@, fmt).contains(a));
        }
        assert(recordable(orig, fmt).to_multiset() =~= kept@.to_multiset());
        assert(total as int == total_size(recordable(orig, fmt)));
    }
    if total <= policy.max_disk_bytes as u128 {
        return None;
    }
    let remaining = total - (policy.max_disk_bytes as u128);
    let candidates = sort_by_modified(kept);
    proof {
        lemma_recordable_matches(orig, fmt);
        assert forall|i: int|
            0 <= i < candidates@.len() implies matches_format(
            candidates@[i].path@,
            fmt,
        ) by {
            let e = candidates@[i];
            assert(candidates@.contains(e));
            assert(candidates@.to_multiset().count(e) > 0);
            assert(recordable(orig, fmt).to_multiset().count(e) > 0);
            assert(recordable(orig, fmt).contains(e));
            let j = choose|j: int|
                0 <= j < recordable(orig, fmt).len() && recordable(orig, fmt)[j] == e;
            assert(matches_format(recordable(orig, fmt)[j].path@, fmt));
        }
    }
    Some(Sweep { candidates, next: 0, remaining })
}

} // verus!
