//! The dedup index: which content is already present in the destination
//! directory, and where.

use crate::digest::{blake3_hash, Digest};
use vstd::prelude::*;

verus! {

/// A file found in the destination directory.
#[derive(Debug)]
pub struct ExistingFile {
    pub path: String,
    pub data: Vec<u8>,
}

/// One record of the index.
#[derive(Debug)]
struct Slot {
    digest: Digest,
    path: String,
}

/// A map from content digest to the path that holds that content. It holds
/// at most one path for a digest.
#[derive(Debug)]
pub struct DedupIndex {
    slots: Vec<Slot>,
}

/// The index that scanning `files` in order gives: of two files with the
/// same content, the later one keeps the digest.
pub open spec fn scanned(files: Seq<ExistingFile>) -> Map<Seq<u8>, Seq<char>>
    decreases files.len(),
{
    if files.len() == 0 {
        Map::empty()
    } else {
        scanned(files.drop_last()).insert(blake3_hash(files.last().data@), files.last().path@)
    }
}

impl DedupIndex {
    /// Position of the slot that holds `digest`, if there is one.
    spec fn holds_at(&self, digest: Seq<u8>, i: int) -> bool {
        0 <= i < self.slots.len() && self.slots[i].digest@ == digest
    }

    /// No digest has two slots.
    pub closed spec fn wf(&self) -> bool {
        forall|i: int, j: int|
            0 <= i < j < self.slots.len() ==> (#[trigger] self.slots[i]).digest@ != (
            #[trigger] self.slots[j]).digest@
    }

    /// The recorded digests, each with its path.
    pub closed spec fn view(&self) -> Map<Seq<u8>, Seq<char>> {
        Map::new(
            |digest: Seq<u8>| exists|i: int| self.holds_at(digest, i),
            |digest: Seq<u8>| self.slots[choose|i: int| self.holds_at(digest, i)].path@,
        )
    }

    /// Each slot is what the view holds for its digest.
    proof fn lemma_slot(&self, i: int)
        requires
            self.wf(),
            0 <= i < self.slots.len(),
        ensures
            self@.contains_key(self.slots[i].digest@),
            self@[self.slots[i].digest@] == self.slots[i].path@,
    {
        let digest = self.slots[i].digest@;
        assert(self.holds_at(digest, i));
        let k = choose|k: int| self.holds_at(digest, k);
        assert(self.holds_at(digest, k));
        if k < i {
            assert(self.slots[k].digest@ != self.slots[i].digest@);
        } else if i < k {
            assert(self.slots[i].digest@ != self.slots[k].digest@);
        }
    }

    /// An index that holds nothing.
    pub fn new() -> (index: DedupIndex)
        ensures
            index.wf(),
            index@ == Map::<Seq<u8>, Seq<char>>::empty(),
    {
        let index = DedupIndex { slots: Vec::new() };
        assert(index@ =~= Map::<Seq<u8>, Seq<char>>::empty());
        index
    }

    /// Position of the slot that holds `digest`.
    fn position(&self, digest: &Digest) -> (found: Option<usize>)
        requires
            self.wf(),
        ensures
            match found {
                Some(i) => self.holds_at(digest@, i as int),
                None => !self@.contains_key(digest@),
            },
    {
        let n: usize = self.slots.len();
        let mut i: usize = 0;
        while i < n
            invariant
                i <= n,
                n == self.slots.len(),
                forall|k: int| 0 <= k < i ==> !self.holds_at(digest@, k),
            decreases n - i,
        {
            if self.slots[i].digest.same(digest) {
                return Some(i);
            }
            i += 1;
        }
        assert(forall|k: int| !self.holds_at(digest@, k));
        None
    }

    /// The path recorded for `digest`.
    pub fn get(&self, digest: &Digest) -> (path: Option<&String>)
        requires
            self.wf(),
        ensures
            match path {
                Some(p) => self@.contains_key(digest@) && self@[digest@] == p@,
                None => !self@.contains_key(digest@),
            },
    {
        match self.position(digest) {
            Some(i) => {
                proof {
                    self.lemma_slot(i as int);
                }
                Some(&self.slots[i].path)
            },
            None => None,
        }
    }

    /// Whether content with this digest is recorded.
    pub fn contains(&self, digest: &Digest) -> (present: bool)
        requires
            self.wf(),
        ensures
            present == self@.contains_key(digest@),
    {
        self.get(digest).is_some()
    }

    /// Records `path` for `digest`, in place of any path recorded for it
    /// before.
    pub fn insert(&mut self, digest: Digest, path: String)
        requires
            old(self).wf(),
        ensures
            final(self).wf(),
            final(self)@ == old(self)@.insert(digest@, path@),
    {
        let ghost before = *self;
        match self.position(&digest) {
            Some(i) => {
                self.slots.set(i, Slot { digest, path });
                assert(self.wf()) by {
                    assert forall|a: int, b: int| 0 <= a < b < self.slots.len() implies (
                    #[trigger] self.slots[a]).digest@ != (#[trigger] self.slots[b]).digest@ by {
                        assert(self.slots[a].digest@ == before.slots[a].digest@);
                        assert(self.slots[b].digest@ == before.slots[b].digest@);
                    }
                }
                assert forall|d: Seq<u8>| #[trigger]
                    self@.contains_key(d) == before@.insert(digest@, path@).contains_key(d) by {
                    if self@.contains_key(d) {
                        let k = choose|k: int| self.holds_at(d, k);
                        assert(before.holds_at(d, k));
                    }
                    if before@.contains_key(d) {
                        let k = choose|k: int| before.holds_at(d, k);
                        assert(self.holds_at(d, k));
                    }
                    if d == digest@ {
                        assert(self.holds_at(d, i as int));
                    }
                }
                assert forall|d: Seq<u8>| #[trigger] self@.contains_key(d) implies self@[d]
                    == before@.insert(digest@, path@)[d] by {
                    let k = choose|k: int| self.holds_at(d, k);
                    self.lemma_slot(k);
                    if d != digest@ {
                        assert(before.holds_at(d, k));
                        before.lemma_slot(k);
                    } else {
                        self.lemma_slot(i as int);
                    }
                }
            },
            None => {
                self.slots.push(Slot { digest, path });
                let ghost last = before.slots.len() as int;
                assert(self.wf()) by {
                    assert forall|a: int, b: int| 0 <= a < b < self.slots.len() implies (
                    #[trigger] self.slots[a]).digest@ != (#[trigger] self.slots[b]).digest@ by {
                        assert(self.slots[a] == before.slots[a]);
                        if b < last {
                            assert(self.slots[b] == before.slots[b]);
                        } else {
                            assert(!before.holds_at(digest@, a));
                        }
                    }
                }
                assert forall|d: Seq<u8>| #[trigger]
                    self@.contains_key(d) == before@.insert(digest@, path@).contains_key(d) by {
                    if self@.contains_key(d) {
                        let k = choose|k: int| self.holds_at(d, k);
                        if k < last {
                            assert(before.holds_at(d, k));
                        }
                    }
                    if before@.contains_key(d) {
                        let k = choose|k: int| before.holds_at(d, k);
                        assert(self.slots[k] == before.slots[k]);
                        assert(self.holds_at(d, k));
                    }
                    if d == digest@ {
                        assert(self.holds_at(d, last));
                    }
                }
                assert forall|d: Seq<u8>| #[trigger] self@.contains_key(d) implies self@[d]
                    == before@.insert(digest@, path@)[d] by {
                    let k = choose|k: int| self.holds_at(d, k);
                    self.lemma_slot(k);
                    if d != digest@ {
                        assert(self.slots[k] == before.slots[k]);
                        assert(before.holds_at(d, k));
                        before.lemma_slot(k);
                    } else {
                        self.lemma_slot(last);
                    }
                }
            },
        }
        assert(self@ =~= before@.insert(digest@, path@));
    }

    /// Records a file of the destination directory under the digest of its
    /// content.
    pub fn record(&mut self, file: &ExistingFile)
        requires
            old(self).wf(),
        ensures
            final(self).wf(),
            final(self)@ == old(self)@.insert(blake3_hash(file.data@), file.path@),
    {
        let digest = Digest::of(file.data.as_slice());
        self.insert(digest, file.path.clone());
    }

    /// The index of a directory scan: every file recorded in the order in
    /// which the scan found it.
    pub fn build(files: &Vec<ExistingFile>) -> (index: DedupIndex)
        ensures
            index.wf(),
            index@ == scanned(files@),
    {
        let mut index = DedupIndex::new();
        let n: usize = files.len();
        let mut i: usize = 0;
        while i < n
            invariant
                i <= n,
                n == files.len(),
                index.wf(),
                index@ == scanned(files@.subrange(0, i as int)),
            decreases n - i,
        {
            proof {
                let grown = files@.subrange(0, i + 1);
                assert(grown.drop_last() =~= files@.subrange(0, i as int));
                assert(grown.last() == files@[i as int]);
            }
            index.record(&files[i]);
            i += 1;
        }
        assert(files@.subrange(0, n as int) =~= files@);
        index
    }
}

} // verus!
