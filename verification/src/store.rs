//! The persisted-entry store model: at most one entry per fingerprint,
//! soft deletion, and recency touching.
//!
//! The store stands for the persistence collaborator of the watch loop. Its
//! uniqueness invariant — no two entries share a `content_hash` — is what
//! makes re-observation an update of the existing row rather than a
//! duplicate.

use vstd::prelude::*;

use crate::sample::{ClipKind, ImageMeta, Sample, SpecSample};

verus! {

/// Mathematical model of one persisted entry.
#[verifier::ext_equal]
pub ghost struct SpecEntry {
    pub id: u64,
    pub kind: ClipKind,
    pub content: Seq<u8>,
    pub preview: Seq<char>,
    pub content_hash: Seq<char>,
    pub folder_id: Option<u64>,
    pub is_pinned: bool,
    pub is_deleted: bool,
    pub source_app: Option<Seq<char>>,
    pub metadata: Option<ImageMeta>,
    pub created_at: u64,
    pub last_accessed: u64,
}

/// One persisted clipboard entry.
pub struct ClipEntry {
    pub id: u64,
    pub kind: ClipKind,
    pub content: Vec<u8>,
    pub preview: String,
    pub content_hash: String,
    pub folder_id: Option<u64>,
    pub is_pinned: bool,
    pub is_deleted: bool,
    pub source_app: Option<String>,
    pub metadata: Option<ImageMeta>,
    pub created_at: u64,
    pub last_accessed: u64,
}

impl View for ClipEntry {
    type V = SpecEntry;

    open spec fn view(&self) -> SpecEntry {
        SpecEntry {
            id: self.id,
            kind: self.kind,
            content: self.content@,
            preview: self.preview@,
            content_hash: self.content_hash@,
            folder_id: self.folder_id,
            is_pinned: self.is_pinned,
            is_deleted: self.is_deleted,
            source_app: match self.source_app {
                Some(s) => Some(s@),
                None => None,
            },
            metadata: self.metadata,
            created_at: self.created_at,
            last_accessed: self.last_accessed,
        }
    }
}

/// Mathematical model of the store: the entries in insertion order, and the
/// identifier the next insertion will take.
#[verifier::ext_equal]
pub ghost struct SpecStore {
    pub entries: Seq<SpecEntry>,
    pub next_id: u64,
}

/// The entry a sample becomes on first insertion: unpinned, not deleted,
/// in no folder, surfaced now.
pub open spec fn spec_new_entry(id: u64, s: SpecSample, now: u64) -> SpecEntry {
    SpecEntry {
        id: id,
        kind: s.kind,
        content: s.content,
        preview: s.preview,
        content_hash: s.content_hash,
        folder_id: None,
        is_pinned: false,
        is_deleted: false,
        source_app: None,
        metadata: s.metadata,
        created_at: now,
        last_accessed: now,
    }
}

/// An entry after re-observation or paste: surfaced now and resurrected,
/// all else kept.
pub open spec fn spec_touched(e: SpecEntry, now: u64) -> SpecEntry {
    SpecEntry { created_at: now, is_deleted: false, ..e }
}

/// An entry after soft deletion: hidden from listings, all else kept.
pub open spec fn spec_soft_deleted(e: SpecEntry) -> SpecEntry {
    SpecEntry { is_deleted: true, ..e }
}

impl SpecStore {
    /// Some entry, deleted or not, carries this fingerprint.
    pub open spec fn contains_hash(self, h: Seq<char>) -> bool {
        exists|i: int| 0 <= i < self.entries.len() && self.entries[i].content_hash == h
    }

    /// The position of the entry carrying this fingerprint; meaningful only
    /// when `contains_hash` holds, unique under `wf`.
    pub open spec fn index_of_hash(self, h: Seq<char>) -> int {
        choose|i: int| 0 <= i < self.entries.len() && self.entries[i].content_hash == h
    }

    /// Some entry carries this identifier.
    pub open spec fn contains_id(self, id: u64) -> bool {
        exists|i: int| 0 <= i < self.entries.len() && self.entries[i].id == id
    }

    /// The position of the entry carrying this identifier; meaningful only
    /// when `contains_id` holds, unique under `wf`.
    pub open spec fn index_of_id(self, id: u64) -> int {
        choose|i: int| 0 <= i < self.entries.len() && self.entries[i].id == id
    }

    /// Store invariant: fingerprints are unique keys, identifiers grow in
    /// insertion order and stay below the next one to be handed out.
    pub open spec fn wf(self) -> bool {
        &&& forall|i: int, j: int|
            0 <= i < j < self.entries.len() ==> #[trigger] self.entries[i].content_hash
                != #[trigger] self.entries[j].content_hash
        &&& forall|i: int, j: int|
            0 <= i < j < self.entries.len() ==> #[trigger] self.entries[i].id
                < #[trigger] self.entries[j].id
        &&& forall|i: int|
            0 <= i < self.entries.len() ==> #[trigger] self.entries[i].id < self.next_id
    }

    /// How many entries are visible, that is, not soft-deleted.
    pub open spec fn active_count(self) -> nat {
        self.entries.filter(|e: SpecEntry| !e.is_deleted).len()
    }
}

/// The deduplicating store of persisted entries.
pub struct Store {
    entries: Vec<ClipEntry>,
    next_id: u64,
}

impl View for Store {
    type V = SpecStore;

    closed spec fn view(&self) -> SpecStore {
        SpecStore {
            entries: self.entries@.map_values(|e: ClipEntry| e@),
            next_id: self.next_id,
        }
    }
}

impl Store {
    /// An empty store.
    pub fn new() -> (s: Store)
        ensures
            s@.entries == Seq::<SpecEntry>::empty(),
            s@.next_id == 0,
            s@.wf(),
    {
        let s = Store { entries: Vec::new(), next_id: 0 };
        proof {
            assert(s@.entries =~= Seq::<SpecEntry>::empty());
        }
        s
    }

    /// The identifier the next insertion will take.
    pub fn next_id(&self) -> (id: u64)
        ensures
            id == self@.next_id,
    {
        self.next_id
    }

    /// How many entries the store holds, soft-deleted ones included.
    pub fn len(&self) -> (n: usize)
        ensures
            n == self@.entries.len(),
    {
        self.entries.len()
    }

    /// Read access to the entry at a position.
    pub fn entry(&self, i: usize) -> (e: &ClipEntry)
        requires
            i < self@.entries.len(),
        ensures
            e@ == self@.entries[i as int],
    {
        &self.entries[i]
    }

    /// Looks an entry up by fingerprint, soft-deleted rows included: they
    /// stay dedup-eligible.
    pub fn find_by_hash(&self, hash: &String) -> (r: Option<usize>)
        ensures
            match r {
                Some(i) => i < self@.entries.len() && self@.entries[i as int].content_hash
                    == hash@ && self@.contains_hash(hash@),
                None => !self@.contains_hash(hash@),
            },
    {
        let n = self.entries.len();
        let mut i: usize = 0;
        while i < n
            invariant
                n == self@.entries.len(),
                i <= n,
                forall|k: int| 0 <= k < i ==> #[trigger] self@.entries[k].content_hash != hash@,
            decreases n - i,
        {
            if self.entries[i].content_hash == *hash {
                return Some(i);
            }
            i = i + 1;
        }
        None
    }

    /// Looks an entry up by identifier.
    pub fn find_by_id(&self, id: u64) -> (r: Option<usize>)
        ensures
            match r {
                Some(i) => i < self@.entries.len() && self@.entries[i as int].id == id
                    && self@.contains_id(id),
                None => !self@.contains_id(id),
            },
    {
        let n = self.entries.len();
        let mut i: usize = 0;
        while i < n
            invariant
                n == self@.entries.len(),
                i <= n,
                forall|k: int| 0 <= k < i ==> #[trigger] self@.entries[k].id != id,
            decreases n - i,
        {
            if self.entries[i].id == id {
                return Some(i);
            }
            i = i + 1;
        }
        None
    }

    /// Inserts a fresh entry for a sample whose fingerprint is not yet
    /// present, and returns its identifier.
    pub fn insert(&mut self, sample: Sample, now: u64) -> (id: u64)
        requires
            old(self)@.wf(),
            !old(self)@.contains_hash(sample@.content_hash),
            old(self)@.next_id < u64::MAX,
        ensures
            id == old(self)@.next_id,
            final(self)@.entries == old(self)@.entries.push(
                spec_new_entry(old(self)@.next_id, sample@, now),
            ),
            final(self)@.next_id == old(self)@.next_id + 1,
            final(self)@.wf(),
    {
        let id = self.next_id;
        let entry = ClipEntry {
            id,
            kind: sample.kind,
            content: sample.content,
            preview: sample.preview,
            content_hash: sample.content_hash,
            folder_id: None,
            is_pinned: false,
            is_deleted: false,
            source_app: None,
            metadata: sample.metadata,
            created_at: now,
            last_accessed: now,
        };
        self.entries.push(entry);
        self.next_id = self.next_id + 1;
        proof {
            assert(self@.entries =~= old(self)@.entries.push(
                spec_new_entry(old(self)@.next_id, SpecSample {
                    kind: entry.kind,
                    content: entry.content@,
                    preview: entry.preview@,
                    content_hash: entry.content_hash@,
                    metadata: entry.metadata,
                }, now),
            ));
        }
        id
    }

    /// Re-surfaces the entry at a position: stamps it as seen now and clears
    /// its soft-delete flag; everything else, the other entries included,
    /// is kept.
    pub fn touch(&mut self, i: usize, now: u64)
        requires
            old(self)@.wf(),
            i < old(self)@.entries.len(),
        ensures
            final(self)@.entries == old(self)@.entries.update(
                i as int,
                spec_touched(old(self)@.entries[i as int], now),
            ),
            final(self)@.next_id == old(self)@.next_id,
            final(self)@.wf(),
    {
        let e = vstd::std_specs::vec::vec_index_mut(&mut self.entries, i);
        e.created_at = now;
        e.is_deleted = false;
        proof {
            assert(self@.entries =~= old(self)@.entries.update(
                i as int,
                spec_touched(old(self)@.entries[i as int], now),
            ));
        }
    }

    /// Soft-deletes the entry with the given identifier, if any: it vanishes
    /// from listings but keeps its row, so it stays dedup-eligible.
    pub fn soft_delete(&mut self, id: u64) -> (found: bool)
        requires
            old(self)@.wf(),
        ensures
            found == old(self)@.contains_id(id),
            found ==> final(self)@.entries == old(self)@.entries.update(
                old(self)@.index_of_id(id),
                spec_soft_deleted(old(self)@.entries[old(self)@.index_of_id(id)]),
            ),
            !found ==> final(self)@ == old(self)@,
            final(self)@.next_id == old(self)@.next_id,
            final(self)@.wf(),
    {
        let r = self.find_by_id(id);
        match r {
            Some(i) => {
                let e = vstd::std_specs::vec::vec_index_mut(&mut self.entries, i);
                e.is_deleted = true;
                proof {
                    let at = old(self)@.index_of_id(id);
                    assert(old(self)@.entries[at].id == id);
                    assert(at == i as int);
                    assert(self@.entries =~= old(self)@.entries.update(
                        at,
                        spec_soft_deleted(old(self)@.entries[at]),
                    ));
                }
                true
            },
            None => {
                proof {
                    assert(self@ =~= old(self)@);
                }
                false
            },
        }
    }

    /// How many entries are visible, that is, not soft-deleted.
    pub fn active_len(&self) -> (n: usize)
        ensures
            n == self@.active_count(),
    {
        let total = self.entries.len();
        let mut n: usize = 0;
        let mut i: usize = 0;
        while i < total
            invariant
                total == self@.entries.len(),
                i <= total,
                n == self@.entries.take(i as int).filter(|e: SpecEntry| !e.is_deleted).len(),
                n <= i,
            decreases total - i,
        {
            proof {
                reveal(Seq::filter);
                assert(self@.entries.take(i + 1).drop_last() =~= self@.entries.take(i as int));
                assert(self@.entries.take(i + 1).last() == self@.entries[i as int]);
            }
            if !self.entries[i].is_deleted {
                n = n + 1;
            }
            i = i + 1;
        }
        proof {
            assert(self@.entries.take(total as int) =~= self@.entries);
        }
        n
    }

    /// Removes every entry; identifiers are not reused.
    pub fn clear(&mut self)
        ensures
            final(self)@.entries == Seq::<SpecEntry>::empty(),
            final(self)@.next_id == old(self)@.next_id,
            final(self)@.wf(),
    {
        self.entries.clear();
        proof {
            assert(self@.entries =~= Seq::<SpecEntry>::empty());
        }
    }
}

} // verus!
