//! The save slots: a fixed number of numbered places that each keep one
//! document, over a key-value backend.
use vstd::prelude::*;

use crate::models::{
    slot_key, storage_error_text, unix_now, valid_slot, DocumentId, ErrorCode, PlantUMLDocument,
    ProcessResult, SlotRecord, StorageError, StorageSlot, MAX_SLOTS,
};
use crate::text::{decimal, decimal_is_injective, get_preview, preview_of};
use crate::validation::MAX_CHARS;

verus! {

/// Why a backend refused a write.
#[derive(Debug, Clone, Copy, PartialEq, Eq, Structural)]
pub enum BackendError {
    /// The backend has no room for the record.
    QuotaExceeded,
}

/// A key-value store for slot records. Each call is atomic for the one key it
/// touches; nothing more is assumed.
pub trait StorageBackend {
    /// The readable records, by key.
    spec fn records(&self) -> Map<Seq<char>, SlotRecord>;

    /// The keys that hold something that cannot be read as a record.
    spec fn unreadable(&self) -> Set<Seq<char>>;

    /// Whether a write under `key` finds room.
    spec fn fits(&self, key: Seq<char>) -> bool;

    /// The record under `key`: `None` where the key holds nothing, an error
    /// with a reason where it holds something unreadable.
    fn get_record(&self, key: &str) -> (r: Result<Option<StorageSlot>, String>)
        ensures
            self.records().contains_key(key@) ==> (r matches Ok(Some(s)) && s@ == self.records()[key@]),
            !self.records().contains_key(key@) && self.unreadable().contains(key@) ==> r is Err,
            !self.records().contains_key(key@) && !self.unreadable().contains(key@) ==> r matches Ok(None),
    ;

    /// Stores `record` under `key` where it fits, or else leaves everything
    /// as it was.
    fn set_record(&mut self, key: &str, record: StorageSlot) -> (r: Result<(), BackendError>)
        ensures
            old(self).fits(key@) ==> r is Ok,
            !old(self).fits(key@) ==> r == Err::<(), BackendError>(BackendError::QuotaExceeded),
            r is Ok ==> final(self).records() == old(self).records().insert(key@, record@),
            r is Ok ==> final(self).unreadable() == old(self).unreadable().remove(key@),
            r is Err ==> final(self).records() == old(self).records(),
            r is Err ==> final(self).unreadable() == old(self).unreadable(),
    ;

    /// Removes whatever is held under `key`.
    fn remove_record(&mut self, key: &str)
        ensures
            final(self).records() == old(self).records().remove(key@),
            final(self).unreadable() == old(self).unreadable().remove(key@),
    ;
}

/// The storage error for a refused write.
pub fn backend_error(e: BackendError) -> (r: StorageError)
    ensures
        e == BackendError::QuotaExceeded ==> r == StorageError::QuotaExceeded,
{
    match e {
        BackendError::QuotaExceeded => StorageError::QuotaExceeded,
    }
}

/// The record that a save of `text` to slot `n` at time `now` writes.
pub open spec fn new_record(n: usize, text: Seq<char>, id: DocumentId, now: i64) -> SlotRecord {
    SlotRecord {
        slot_number: n as u8,
        id,
        content: text,
        title: None,
        created_at: now,
        updated_at: now,
        saved_at: now,
    }
}

/// A line of the list of saved slots.
#[derive(Debug, Clone)]
pub struct SlotInfo {
    pub slot_number: u8,
    pub title: String,
    /// Seconds since the Unix epoch.
    pub saved_at: i64,
    pub preview: String,
}

/// The title shown for a record without one.
pub open spec fn untitled() -> Seq<char> {
    "無題"@
}

/// Whether `info` describes the record `rec` kept in slot `n`.
pub open spec fn describes(info: SlotInfo, n: u8, rec: SlotRecord) -> bool {
    &&& info.slot_number == n
    &&& info.title@ == match rec.title {
        Some(t) => t,
        None => untitled(),
    }
    &&& info.saved_at == rec.saved_at
    &&& info.preview@ == preview_of(rec.content)
}

/// Whether `key` holds something, readable or not.
pub open spec fn is_taken(records: Map<Seq<char>, SlotRecord>, unreadable: Set<Seq<char>>, key: Seq<
    char,
>) -> bool {
    records.contains_key(key) || unreadable.contains(key)
}

/// Whether every slot from 1 to `n` is taken.
pub open spec fn slots_taken_below(
    records: Map<Seq<char>, SlotRecord>,
    unreadable: Set<Seq<char>>,
    n: int,
) -> bool {
    forall|m: int| 1 <= m < n ==> is_taken(records, unreadable, #[trigger] slot_key(m as nat))
}

/// The save slots over a backend.
pub struct StorageService<B: StorageBackend> {
    backend: B,
}

impl<B: StorageBackend> StorageService<B> {
    /// The readable records held by the backend.
    pub closed spec fn records(&self) -> Map<Seq<char>, SlotRecord> {
        self.backend.records()
    }

    /// The keys whose content the backend cannot read.
    pub closed spec fn unreadable(&self) -> Set<Seq<char>> {
        self.backend.unreadable()
    }

    /// Whether a save to slot `n` finds room in the backend.
    pub closed spec fn fits(&self, n: nat) -> bool {
        self.backend.fits(slot_key(n))
    }

    /// Whether slot `n` holds something, readable or not.
    pub open spec fn taken(&self, n: nat) -> bool {
        is_taken(self.records(), self.unreadable(), slot_key(n))
    }

    /// The slots over `backend`.
    pub fn new(backend: B) -> (r: Self)
        ensures
            r.records() == backend.records(),
            r.unreadable() == backend.unreadable(),
            forall|n: nat| #[trigger] r.fits(n) == backend.fits(slot_key(n)),
    {
        StorageService { backend }
    }

    /// The backend.
    pub fn backend(&self) -> (r: &B)
        ensures
            r.records() == self.records(),
            r.unreadable() == self.unreadable(),
    {
        &self.backend
    }

    /// Saves `text` to slot `slot_number` as a new document with the
    /// identifier `id`, created and saved at `now`. A number outside
    /// 1..=`MAX_SLOTS` is refused before the backend is touched; a backend
    /// without room refuses with `QuotaExceeded`.
    pub fn save_to_slot_at(&mut self, slot_number: usize, text: &str, id: DocumentId, now: i64) -> (r:
        Result<(), StorageError>)
        ensures
            !valid_slot(slot_number as int) ==> r == Err::<(), StorageError>(
                StorageError::InvalidSlotNumber(slot_number),
            ),
            valid_slot(slot_number as int) && old(self).fits(slot_number as nat) ==> r is Ok,
            valid_slot(slot_number as int) && !old(self).fits(slot_number as nat) ==> r == Err::<
                (),
                StorageError,
            >(StorageError::QuotaExceeded),
            r is Ok ==> final(self).records() == old(self).records().insert(
                slot_key(slot_number as nat),
                new_record(slot_number, text@, id, now),
            ),
            r is Ok ==> final(self).unreadable() == old(self).unreadable().remove(
                slot_key(slot_number as nat),
            ),
            r is Err ==> final(self).records() == old(self).records(),
            r is Err ==> final(self).unreadable() == old(self).unreadable(),
    {
        if slot_number < 1 || slot_number > MAX_SLOTS as usize {
            return Err(StorageError::InvalidSlotNumber(slot_number));
        }
        let n = slot_number as u8;
        let document = PlantUMLDocument {
            id,
            content: String::from_str(text),
            created_at: now,
            updated_at: now,
            title: None,
        };
        let slot = StorageSlot { slot_number: n, document, saved_at: now };
        let key = StorageSlot::storage_key(n);
        match self.backend.set_record(key.as_str(), slot) {
            Ok(()) => Ok(()),
            Err(e) => Err(backend_error(e)),
        }
    }

    /// Saves `text` to slot `slot_number` as a new document, created now
    /// under a fresh identifier.
    pub fn save_to_slot(&mut self, slot_number: usize, text: &str) -> (r: Result<(), StorageError>)
        ensures
            !valid_slot(slot_number as int) ==> r == Err::<(), StorageError>(
                StorageError::InvalidSlotNumber(slot_number),
            ),
            valid_slot(slot_number as int) && old(self).fits(slot_number as nat) ==> r is Ok,
            valid_slot(slot_number as int) && !old(self).fits(slot_number as nat) ==> r == Err::<
                (),
                StorageError,
            >(StorageError::QuotaExceeded),
            r is Ok ==> ({
                let key = slot_key(slot_number as nat);
                &&& final(self).records().contains_key(key)
                &&& final(self).records() == old(self).records().insert(key, final(self).records()[key])
                &&& final(self).records()[key].content == text@
                &&& final(self).records()[key].slot_number == slot_number as u8
                &&& final(self).records()[key].title is None
                &&& final(self).unreadable() == old(self).unreadable().remove(key)
            }),
            r is Err ==> final(self).records() == old(self).records(),
            r is Err ==> final(self).unreadable() == old(self).unreadable(),
    {
        let now = unix_now();
        self.save_to_slot_at(slot_number, text, DocumentId::new(), now)
    }

    /// The text saved in slot `slot_number`: `None` where the slot is empty,
    /// `ReadFailed` where what it holds cannot be read.
    pub fn load_from_slot(&self, slot_number: usize) -> (r: Result<Option<String>, StorageError>)
        ensures
            !valid_slot(slot_number as int) ==> r == Err::<Option<String>, StorageError>(
                StorageError::InvalidSlotNumber(slot_number),
            ),
            valid_slot(slot_number as int) && self.records().contains_key(slot_key(slot_number as nat))
                ==> (r matches Ok(Some(t)) && t@ == self.records()[slot_key(slot_number as nat)].content),
            valid_slot(slot_number as int) && !self.records().contains_key(slot_key(slot_number as nat))
                && self.unreadable().contains(slot_key(slot_number as nat)) ==> (r matches Err(
                StorageError::ReadFailed(_),
            )),
            valid_slot(slot_number as int) && !self.taken(slot_number as nat) ==> r matches Ok(None),
    {
        if slot_number < 1 || slot_number > MAX_SLOTS as usize {
            return Err(StorageError::InvalidSlotNumber(slot_number));
        }
        let key = StorageSlot::storage_key(slot_number as u8);
        match self.backend.get_record(key.as_str()) {
            Ok(Some(slot)) => Ok(Some(slot.document.content)),
            Ok(None) => Ok(None),
            Err(reason) => Err(StorageError::ReadFailed(reason)),
        }
    }

    /// Empties slot `slot_number`; emptying an empty slot succeeds.
    pub fn delete_slot(&mut self, slot_number: usize) -> (r: Result<(), StorageError>)
        ensures
            !valid_slot(slot_number as int) ==> r == Err::<(), StorageError>(
                StorageError::InvalidSlotNumber(slot_number),
            ),
            !valid_slot(slot_number as int) ==> final(self).records() == old(self).records(),
            !valid_slot(slot_number as int) ==> final(self).unreadable() == old(self).unreadable(),
            valid_slot(slot_number as int) ==> r is Ok,
            valid_slot(slot_number as int) ==> final(self).records() == old(self).records().remove(
                slot_key(slot_number as nat),
            ),
            valid_slot(slot_number as int) ==> final(self).unreadable() == old(
                self,
            ).unreadable().remove(slot_key(slot_number as nat)),
    {
        if slot_number < 1 || slot_number > MAX_SLOTS as usize {
            return Err(StorageError::InvalidSlotNumber(slot_number));
        }
        let key = StorageSlot::storage_key(slot_number as u8);
        self.backend.remove_record(key.as_str());
        Ok(())
    }

    /// The slots that hold a readable record, in slot order, each with its
    /// title (or a placeholder), save time and preview.
    pub fn list_slots(&self) -> (r: Vec<SlotInfo>)
        ensures
            r@.len() <= MAX_SLOTS,
            forall|i: int|
                0 <= i < r@.len() ==> {
                    let n = (#[trigger] r@[i]).slot_number;
                    &&& valid_slot(n as int)
                    &&& self.records().contains_key(slot_key(n as nat))
                    &&& describes(r@[i], n, self.records()[slot_key(n as nat)])
                },
            forall|i: int, j: int|
                0 <= i < j < r@.len() ==> (#[trigger] r@[i]).slot_number < (#[trigger] r@[j]).slot_number,
            forall|n: u8|
                valid_slot(n as int) && #[trigger] self.records().contains_key(slot_key(n as nat))
                    ==> exists|i: int| 0 <= i < r@.len() && (#[trigger] r@[i]).slot_number == n,
    {
        let mut slots: Vec<SlotInfo> = Vec::new();
        let mut n: u8 = 1;
        while n <= MAX_SLOTS
            invariant
                1 <= n <= MAX_SLOTS + 1,
                slots@.len() < n,
                forall|i: int|
                    0 <= i < slots@.len() ==> {
                        let m = (#[trigger] slots@[i]).slot_number;
                        &&& 1 <= m < n
                        &&& self.records().contains_key(slot_key(m as nat))
                        &&& describes(slots@[i], m, self.records()[slot_key(m as nat)])
                    },
                forall|i: int, j: int|
                    0 <= i < j < slots@.len() ==> (#[trigger] slots@[i]).slot_number < (
                    #[trigger] slots@[j]).slot_number,
                forall|m: u8|
                    1 <= m < n && #[trigger] self.records().contains_key(slot_key(m as nat))
                        ==> exists|i: int| 0 <= i < slots@.len() && (#[trigger] slots@[i]).slot_number == m,
            decreases MAX_SLOTS + 1 - n,
        {
            let key = StorageSlot::storage_key(n);
            let ghost before = slots@;
            match self.backend.get_record(key.as_str()) {
                Ok(Some(slot)) => {
                    let title = match &slot.document.title {
                        Some(t) => t.clone(),
                        None => String::from_str("無題"),
                    };
                    let preview = get_preview(slot.document.content.as_str());
                    slots.push(SlotInfo { slot_number: n, title, saved_at: slot.saved_at, preview });
                    assert forall|m: u8|
                        1 <= m < n + 1 && #[trigger] self.records().contains_key(slot_key(m as nat))
                            implies exists|i: int| 0 <= i < slots@.len() && (#[trigger] slots@[i]).slot_number == m by {
                        if m < n {
                            let i = choose|i: int| 0 <= i < before.len() && (#[trigger] before[i]).slot_number == m;
                            assert(slots@[i] == before[i]);
                        } else {
                            assert(slots@[before.len() as int].slot_number == m);
                        }
                    }
                },
                _ => {},
            }
            n = n + 1;
        }
        slots
    }

    /// The first empty slot, or `SlotsFull` where every slot holds something.
    /// The answer may be out of date by the time the caller saves: the save
    /// decides.
    pub fn find_empty_slot(&self) -> (r: Result<usize, StorageError>)
        ensures
            r matches Ok(n) ==> valid_slot(n as int) && !self.taken(n as nat) && slots_taken_below(
                self.records(),
                self.unreadable(),
                n as int,
            ),
            r is Err ==> r == Err::<usize, StorageError>(StorageError::SlotsFull) && slots_taken_below(
                self.records(),
                self.unreadable(),
                MAX_SLOTS + 1,
            ),
    {
        let mut n: usize = 1;
        while n <= MAX_SLOTS as usize
            invariant
                1 <= n <= MAX_SLOTS + 1,
                slots_taken_below(self.records(), self.unreadable(), n as int),
            decreases MAX_SLOTS + 1 - n,
        {
            match self.load_from_slot(n) {
                Ok(None) => {
                    return Ok(n);
                },
                _ => {},
            }
            assert(self.taken(n as nat));
            n = n + 1;
        }
        Err(StorageError::SlotsFull)
    }
}

/// Whether `entries` hold at most `capacity` distinct keys, and hold exactly
/// the readable records of `records` and the unreadable keys of `unreadable`.
pub open spec fn entries_agree(
    entries: Seq<(String, Result<StorageSlot, String>)>,
    capacity: usize,
    records: Map<Seq<char>, SlotRecord>,
    unreadable: Set<Seq<char>>,
) -> bool {
    &&& entries.len() <= capacity
    &&& forall|i: int, j: int|
        0 <= i < j < entries.len() ==> (#[trigger] entries[i]).0@ != (#[trigger] entries[j]).0@
    &&& forall|i: int|
        0 <= i < entries.len() ==> match (#[trigger] entries[i]).1 {
            Ok(s) => records.contains_key(entries[i].0@) && records[entries[i].0@] == s@
                && !unreadable.contains(entries[i].0@),
            Err(_) => unreadable.contains(entries[i].0@) && !records.contains_key(entries[i].0@),
        }
    &&& forall|k: Seq<char>|
        #[trigger] records.contains_key(k) ==> exists|i: int|
            0 <= i < entries.len() && (#[trigger] entries[i]).0@ == k
    &&& forall|k: Seq<char>|
        #[trigger] unreadable.contains(k) ==> exists|i: int|
            0 <= i < entries.len() && (#[trigger] entries[i]).0@ == k
}

/// The readable records after `value` is put under `key`.
pub open spec fn records_after_put(
    records: Map<Seq<char>, SlotRecord>,
    key: Seq<char>,
    value: Result<StorageSlot, String>,
) -> Map<Seq<char>, SlotRecord> {
    match value {
        Ok(s) => records.insert(key, s@),
        Err(_) => records.remove(key),
    }
}

/// The unreadable keys after `value` is put under `key`.
pub open spec fn unreadable_after_put(
    unreadable: Set<Seq<char>>,
    key: Seq<char>,
    value: Result<StorageSlot, String>,
) -> Set<Seq<char>> {
    match value {
        Ok(_) => unreadable.remove(key),
        Err(_) => unreadable.insert(key),
    }
}

/// A backend that keeps its records in memory, with room for at most a given
/// number of keys. A key may also hold something unreadable, as a damaged
/// record in a persistent store would.
pub struct MemoryBackend {
    entries: Vec<(String, Result<StorageSlot, String>)>,
    capacity: usize,
    records: Ghost<Map<Seq<char>, SlotRecord>>,
    unreadable: Ghost<Set<Seq<char>>>,
}

impl MemoryBackend {
    /// The entries hold distinct keys, and agree with the model.
    #[verifier::type_invariant]
    spec fn inv(&self) -> bool {
        entries_agree(self.entries@, self.capacity, self.records@, self.unreadable@)
    }

    /// The most keys this backend holds.
    pub closed spec fn room(&self) -> usize {
        self.capacity
    }

    /// An empty backend with room for `capacity` keys.
    pub fn with_capacity(capacity: usize) -> (r: Self)
        ensures
            r.records() == Map::<Seq<char>, SlotRecord>::empty(),
            r.unreadable() == Set::<Seq<char>>::empty(),
            r.room() == capacity,
            capacity > 0 ==> forall|k: Seq<char>| #[trigger] r.fits(k),
    {
        MemoryBackend {
            entries: Vec::new(),
            capacity,
            records: Ghost(Map::empty()),
            unreadable: Ghost(Set::empty()),
        }
    }

    /// An empty backend with room for every slot.
    pub fn new() -> (r: Self)
        ensures
            r.records() == Map::<Seq<char>, SlotRecord>::empty(),
            r.unreadable() == Set::<Seq<char>>::empty(),
            r.room() == MAX_SLOTS,
            forall|k: Seq<char>| #[trigger] r.fits(k),
    {
        MemoryBackend::with_capacity(MAX_SLOTS as usize)
    }

    /// The position of `key` among the entries.
    fn position(&self, key: &str) -> (r: Option<usize>)
        ensures
            r matches Some(i) ==> i < self.entries@.len() && self.entries@[i as int].0@ == key@,
            r is None ==> forall|i: int| 0 <= i < self.entries@.len() ==> (#[trigger] self.entries@[i]).0@ != key@,
    {
        let wanted = String::from_str(key);
        let mut i: usize = 0;
        while i < self.entries.len()
            invariant
                i <= self.entries@.len(),
                wanted@ == key@,
                forall|j: int| 0 <= j < i ==> (#[trigger] self.entries@[j]).0@ != key@,
            decreases self.entries@.len() - i,
        {
            if self.entries[i].0 == wanted {
                return Some(i);
            }
            i = i + 1;
        }
        None
    }

    /// Puts `value` under `key` where it fits: a record, or the reason why
    /// what the key holds cannot be read.
    fn put(&mut self, key: &str, value: Result<StorageSlot, String>) -> (r: Result<(), BackendError>)
        ensures
            old(self).fits(key@) ==> r is Ok,
            !old(self).fits(key@) ==> r == Err::<(), BackendError>(BackendError::QuotaExceeded),
            r is Ok ==> final(self).records() == records_after_put(old(self).records(), key@, value),
            r is Ok ==> final(self).unreadable() == unreadable_after_put(
                old(self).unreadable(),
                key@,
                value,
            ),
            r is Err ==> final(self).records() == old(self).records(),
            r is Err ==> final(self).unreadable() == old(self).unreadable(),
            final(self).room() == old(self).room(),
    {
        proof {
            use_type_invariant(&*self);
        }
        let found = self.position(key);
        if found.is_none() && self.entries.len() >= self.capacity {
            return Err(BackendError::QuotaExceeded);
        }
        let ghost new_records = records_after_put(self.records@, key@, value);
        let ghost new_unreadable = unreadable_after_put(self.unreadable@, key@, value);
        let mut current = MemoryBackend::with_capacity(self.capacity);
        core::mem::swap(self, &mut current);
        proof {
            use_type_invariant(&current);
        }
        let MemoryBackend { mut entries, capacity, records, unreadable } = current;
        let ghost old_entries = entries@;
        let ghost at = match found {
            Some(i) => i as int,
            None => old_entries.len() as int,
        };
        match found {
            Some(i) => {
                entries.set(i, (String::from_str(key), value));
            },
            None => {
                entries.push((String::from_str(key), value));
            },
        }
        assert(entries@[at].0@ == key@);
        assert forall|j: int| 0 <= j < entries@.len() && j != at implies #[trigger] entries@[j] == old_entries[j] by {}
        assert forall|k: Seq<char>| #[trigger] new_records.contains_key(k) implies exists|j: int|
            0 <= j < entries@.len() && (#[trigger] entries@[j]).0@ == k by {
            if k != key@ {
                let j = choose|j: int| 0 <= j < old_entries.len() && (#[trigger] old_entries[j]).0@ == k;
                assert(entries@[j] == old_entries[j]);
            } else {
                assert(entries@[at].0@ == k);
            }
        }
        assert forall|k: Seq<char>| #[trigger] new_unreadable.contains(k) implies exists|j: int|
            0 <= j < entries@.len() && (#[trigger] entries@[j]).0@ == k by {
            if k != key@ {
                let j = choose|j: int| 0 <= j < old_entries.len() && (#[trigger] old_entries[j]).0@ == k;
                assert(entries@[j] == old_entries[j]);
            } else {
                assert(entries@[at].0@ == k);
            }
        }
        assert(entries_agree(entries@, capacity, new_records, new_unreadable));
        *self = MemoryBackend {
            entries,
            capacity,
            records: Ghost(new_records),
            unreadable: Ghost(new_unreadable),
        };
        Ok(())
    }

    /// Marks `key` as holding something that cannot be read, for `reason`,
    /// where it fits; a record it held is gone.
    pub fn put_unreadable(&mut self, key: &str, reason: String) -> (r: Result<(), BackendError>)
        ensures
            old(self).fits(key@) ==> r is Ok,
            !old(self).fits(key@) ==> r == Err::<(), BackendError>(BackendError::QuotaExceeded),
            r is Ok ==> final(self).records() == old(self).records().remove(key@),
            r is Ok ==> final(self).unreadable() == old(self).unreadable().insert(key@),
            r is Err ==> final(self).records() == old(self).records(),
            r is Err ==> final(self).unreadable() == old(self).unreadable(),
    {
        self.put(key, Err(reason))
    }
}

impl StorageBackend for MemoryBackend {
    closed spec fn records(&self) -> Map<Seq<char>, SlotRecord> {
        self.records@
    }

    closed spec fn unreadable(&self) -> Set<Seq<char>> {
        self.unreadable@
    }

    /// The key is held already, or there is room for one more.
    closed spec fn fits(&self, key: Seq<char>) -> bool {
        (exists|i: int| 0 <= i < self.entries@.len() && (#[trigger] self.entries@[i]).0@ == key)
            || self.entries@.len() < self.capacity
    }

    fn get_record(&self, key: &str) -> (r: Result<Option<StorageSlot>, String>) {
        proof {
            use_type_invariant(self);
        }
        match self.position(key) {
            Some(i) => match &self.entries[i].1 {
                Ok(slot) => Ok(Some(slot.duplicate())),
                Err(reason) => Err(reason.clone()),
            },
            None => Ok(None),
        }
    }

    fn set_record(&mut self, key: &str, record: StorageSlot) -> (r: Result<(), BackendError>) {
        self.put(key, Ok(record))
    }

    fn remove_record(&mut self, key: &str) {
        proof {
            use_type_invariant(&*self);
        }
        match self.position(key) {
            None => {
                assert(self.records@.remove(key@) =~= self.records@);
                assert(self.unreadable@.remove(key@) =~= self.unreadable@);
            },
            Some(i) => {
                let mut current = MemoryBackend::with_capacity(self.capacity);
                core::mem::swap(self, &mut current);
                proof {
                    use_type_invariant(&current);
                }
                let MemoryBackend { mut entries, capacity, records, unreadable } = current;
                let ghost old_entries = entries@;
                let ghost new_records = records@.remove(key@);
                let ghost new_unreadable = unreadable@.remove(key@);
                entries.remove(i);
                assert forall|a: int| 0 <= a < entries@.len() implies #[trigger] entries@[a] == old_entries[
                    if a < i { a } else { a + 1 }] by {}
                assert forall|k: Seq<char>| #[trigger] new_records.contains_key(k) implies exists|j: int|
                    0 <= j < entries@.len() && (#[trigger] entries@[j]).0@ == k by {
                    let j = choose|j: int| 0 <= j < old_entries.len() && (#[trigger] old_entries[j]).0@ == k;
                    if j < i {
                        assert(entries@[j] == old_entries[j]);
                    } else {
                        assert(entries@[j - 1] == old_entries[j]);
                    }
                }
                assert forall|k: Seq<char>| #[trigger] new_unreadable.contains(k) implies exists|j: int|
                    0 <= j < entries@.len() && (#[trigger] entries@[j]).0@ == k by {
                    let j = choose|j: int| 0 <= j < old_entries.len() && (#[trigger] old_entries[j]).0@ == k;
                    if j < i {
                        assert(entries@[j] == old_entries[j]);
                    } else {
                        assert(entries@[j - 1] == old_entries[j]);
                    }
                }
                assert forall|a: int, b: int|
                    0 <= a < b < entries@.len() implies (#[trigger] entries@[a]).0@ != (
                    #[trigger] entries@[b]).0@ by {
                    let oa = if a < i { a } else { a + 1 };
                    let ob = if b < i { b } else { b + 1 };
                    assert(entries@[a] == old_entries[oa]);
                    assert(entries@[b] == old_entries[ob]);
                }
                assert forall|a: int| 0 <= a < entries@.len() implies match (#[trigger] entries@[a]).1 {
                    Ok(s) => new_records.contains_key(entries@[a].0@) && new_records[entries@[a].0@] == s@
                        && !new_unreadable.contains(entries@[a].0@),
                    Err(_) => new_unreadable.contains(entries@[a].0@) && !new_records.contains_key(
                        entries@[a].0@,
                    ),
                } by {
                    let oa = if a < i { a } else { a + 1 };
                    assert(entries@[a] == old_entries[oa]);
                    assert(oa != i);
                }
                assert(entries_agree(entries@, capacity, new_records, new_unreadable));
                *self = MemoryBackend {
                    entries,
                    capacity,
                    records: Ghost(new_records),
                    unreadable: Ghost(new_unreadable),
                };
            },
        }
    }
}

/// Whether `code` is the outcome that reports the storage error `e`.
pub open spec fn storage_error_code(e: StorageError, code: ErrorCode) -> bool {
    match e {
        StorageError::InvalidSlotNumber(_) | StorageError::SlotEmpty(_) => code matches ErrorCode::StorageReadError { reason } && reason@ == storage_error_text(e),
        StorageError::ReadFailed(m) => code matches ErrorCode::StorageReadError { reason } && reason@ == m@,
        StorageError::SlotsFull => code == ErrorCode::StorageSlotLimit { max_slots: MAX_SLOTS as usize },
        StorageError::QuotaExceeded => code == ErrorCode::StorageInputLimit { actual: 0, max: MAX_CHARS },
    }
}

/// The outcome that reports a storage error. A full backend is reported with
/// the input limit; the size that did not fit is not known here, and is given
/// as 0.
pub fn storage_error_to_result(error: &StorageError, _slot_number: Option<u8>) -> (r: ProcessResult)
    ensures
        storage_error_code(*error, r.code),
        r.wf(),
{
    let code = match error {
        StorageError::InvalidSlotNumber(_) | StorageError::SlotEmpty(_) => ErrorCode::StorageReadError {
            reason: error.to_string(),
        },
        StorageError::ReadFailed(m) => ErrorCode::StorageReadError { reason: m.clone() },
        StorageError::SlotsFull => ErrorCode::StorageSlotLimit { max_slots: MAX_SLOTS as usize },
        StorageError::QuotaExceeded => ErrorCode::StorageInputLimit { actual: 0, max: MAX_CHARS },
    };
    ProcessResult::new(code)
}

/// Whether `code` reports a finished slot operation on slot `n`.
pub open spec fn is_slot_success(code: ErrorCode, n: u8) -> bool {
    ||| code == ErrorCode::SaveSuccess { slot_number: n }
    ||| code == ErrorCode::LoadSuccess { slot_number: n }
    ||| code == ErrorCode::DeleteSuccess { slot_number: n }
}

/// The outcome of a finished operation on slot `slot_number`.
pub fn storage_success_result(code: ErrorCode, slot_number: u8) -> (r: ProcessResult)
    requires
        is_slot_success(code, slot_number),
    ensures
        r.code == code,
        r.wf(),
{
    ProcessResult::new(code)
}

/// A slot that was saved and then deleted is empty again, whatever it held
/// before, readable or not; the other slots keep what they held.
pub proof fn save_then_delete_empties(
    records: Map<Seq<char>, SlotRecord>,
    unreadable: Set<Seq<char>>,
    n: usize,
    saved: SlotRecord,
    m: usize,
)
    requires
        valid_slot(n as int),
        valid_slot(m as int),
        n != m,
    ensures
        ({
            let key = slot_key(n as nat);
            let after_records = records.insert(key, saved).remove(key);
            let after_unreadable = unreadable.remove(key).remove(key);
            &&& !is_taken(after_records, after_unreadable, key)
            &&& is_taken(after_records, after_unreadable, slot_key(m as nat)) == is_taken(
                records,
                unreadable,
                slot_key(m as nat),
            )
            &&& after_records.contains_key(slot_key(m as nat)) ==> after_records[slot_key(m as nat)]
                == records[slot_key(m as nat)]
        }),
{
    distinct_slots_have_distinct_keys(n as nat, m as nat);
}

/// Different slots are kept under different keys.
pub proof fn distinct_slots_have_distinct_keys(n: nat, m: nat)
    requires
        n != m,
    ensures
        slot_key(n) != slot_key(m),
{
    decimal_is_injective(n, m);
    if slot_key(n) == slot_key(m) {
        let p = "slot_"@;
        assert(slot_key(n).subrange(p.len() as int, slot_key(n).len() as int) =~= decimal(n));
        assert(slot_key(m).subrange(p.len() as int, slot_key(m).len() as int) =~= decimal(m));
    }
}

} // verus!
