//! An in-process storage host: typed items under byte-string keys, with a
//! working copy and a saved copy, answering in the host's status codes.
use vstd::prelude::*;
use vstd::slice::slice_to_vec;
use crate::error::{STORAGE_SUCCESS, STORAGE_NOT_FOUND, STORAGE_UNEXPECTED_DATA_TYPE, STORAGE_BUFFER_TOO_SMALL};

verus! {

/// The type tag stored with each item.
#[derive(Clone, Copy, Debug, PartialEq, Eq, Structural)]
pub enum ItemType {
    S32,
    S64,
    U32,
    U64,
    String,
    Binary,
    Bool,
    Float,
    Double,
}

pub open spec fn spec_item_type_code(t: ItemType) -> u32 {
    match t {
        ItemType::S32 => 0,
        ItemType::S64 => 1,
        ItemType::U32 => 2,
        ItemType::U64 => 3,
        ItemType::String => 4,
        ItemType::Binary => 5,
        ItemType::Bool => 6,
        ItemType::Float => 7,
        ItemType::Double => 8,
    }
}

impl ItemType {
    /// The host's number for this tag.
    pub fn code(&self) -> (r: u32)
        ensures
            r == spec_item_type_code(*self),
    {
        match self {
            ItemType::S32 => 0,
            ItemType::S64 => 1,
            ItemType::U32 => 2,
            ItemType::U64 => 3,
            ItemType::String => 4,
            ItemType::Binary => 5,
            ItemType::Bool => 6,
            ItemType::Float => 7,
            ItemType::Double => 8,
        }
    }
}

/// What a read of an item of type `t` holding `payload` hands back: text
/// comes back with its C terminator.
pub open spec fn readback(t: ItemType, payload: Seq<u8>) -> Seq<u8> {
    if t == ItemType::String {
        payload.push(0u8)
    } else {
        payload
    }
}

/// The host's answer to a read of `key` as type `t` into `capacity` bytes.
pub open spec fn spec_get_item(
    items: Map<Seq<u8>, (ItemType, Seq<u8>)>,
    key: Seq<u8>,
    t: ItemType,
    capacity: nat,
) -> (i32, Seq<u8>) {
    if !items.contains_key(key) {
        (STORAGE_NOT_FOUND, Seq::empty())
    } else if items[key].0 != t {
        (STORAGE_UNEXPECTED_DATA_TYPE, Seq::empty())
    } else if readback(t, items[key].1).len() > capacity {
        (STORAGE_BUFFER_TOO_SMALL, Seq::empty())
    } else {
        (STORAGE_SUCCESS, readback(t, items[key].1))
    }
}

/// One stored item.
pub struct Entry {
    pub key: Vec<u8>,
    pub item_type: ItemType,
    pub payload: Vec<u8>,
}

/// Some entry has key `k`.
pub open spec fn holds_key(entries: Seq<Entry>, k: Seq<u8>) -> bool {
    exists|i: int| 0 <= i < entries.len() && entries[i].key@ == k
}

pub open spec fn keys_distinct(entries: Seq<Entry>) -> bool {
    forall|i: int, j: int| 0 <= i < j < entries.len() ==> entries[i].key@ != entries[j].key@
}

pub open spec fn entries_in_map(entries: Seq<Entry>, map: Map<Seq<u8>, (ItemType, Seq<u8>)>) -> bool {
    forall|i: int|
        #![trigger entries[i]]
        0 <= i < entries.len() ==> map.contains_key(entries[i].key@) && map[entries[i].key@]
            == (entries[i].item_type, entries[i].payload@)
}

pub open spec fn map_in_entries(entries: Seq<Entry>, map: Map<Seq<u8>, (ItemType, Seq<u8>)>) -> bool {
    forall|k: Seq<u8>| #[trigger] map.contains_key(k) ==> holds_key(entries, k)
}

/// Items with pairwise distinct keys, and the map they stand for.
pub struct ItemTable {
    entries: Vec<Entry>,
    map: Ghost<Map<Seq<u8>, (ItemType, Seq<u8>)>>,
}

impl View for ItemTable {
    type V = Map<Seq<u8>, (ItemType, Seq<u8>)>;

    closed spec fn view(&self) -> Self::V {
        self.map@
    }
}

pub fn bytes_eq(a: &[u8], b: &[u8]) -> (r: bool)
    ensures
        r == (a@ == b@),
{
    if a.len() != b.len() {
        return false;
    }
    let mut i: usize = 0;
    while i < a.len()
        invariant
            a@.len() == b@.len(),
            0 <= i <= a@.len(),
            a@.subrange(0, i as int) == b@.subrange(0, i as int),
        decreases a@.len() - i,
    {
        if a[i] != b[i] {
            assert(a@[i as int] != b@[i as int]);
            return false;
        }
        assert(a@.subrange(0, i as int + 1) =~= a@.subrange(0, i as int).push(a@[i as int]));
        assert(b@.subrange(0, i as int + 1) =~= b@.subrange(0, i as int).push(b@[i as int]));
        i = i + 1;
    }
    assert(a@ =~= a@.subrange(0, i as int));
    assert(b@ =~= b@.subrange(0, i as int));
    true
}

impl ItemTable {
    pub closed spec fn wf(&self) -> bool {
        &&& keys_distinct(self.entries@)
        &&& entries_in_map(self.entries@, self.map@)
        &&& map_in_entries(self.entries@, self.map@)
    }

    pub fn new() -> (r: ItemTable)
        ensures
            r.wf(),
            r@ == Map::<Seq<u8>, (ItemType, Seq<u8>)>::empty(),
    {
        ItemTable { entries: Vec::new(), map: Ghost(Map::empty()) }
    }

    /// The position of `key`, if it is stored.
    fn find(&self, key: &[u8]) -> (r: Option<usize>)
        requires
            self.wf(),
        ensures
            match r {
                Some(i) => i < self.entries@.len() && self.entries@[i as int].key@ == key@,
                None => !self@.contains_key(key@),
            },
    {
        let mut i: usize = 0;
        while i < self.entries.len()
            invariant
                self.wf(),
                0 <= i <= self.entries@.len(),
                forall|j: int| 0 <= j < i ==> self.entries@[j].key@ != key@,
            decreases self.entries@.len() - i,
        {
            if bytes_eq(self.entries[i].key.as_slice(), key) {
                return Some(i);
            }
            i = i + 1;
        }
        None
    }

    pub fn get(&self, key: &[u8]) -> (r: Option<&Entry>)
        requires
            self.wf(),
        ensures
            match r {
                Some(e) => self@.contains_key(key@) && self@[key@] == (e.item_type, e.payload@),
                None => !self@.contains_key(key@),
            },
    {
        match self.find(key) {
            Some(i) => Some(&self.entries[i]),
            None => None,
        }
    }

    pub fn insert(&mut self, key: &[u8], item_type: ItemType, payload: Vec<u8>)
        requires
            old(self).wf(),
        ensures
            final(self).wf(),
            final(self)@ == old(self)@.insert(key@, (item_type, payload@)),
    {
        let ghost old_entries = self.entries@;
        let ghost old_map = self.map@;
        let ghost m = old_map.insert(key@, (item_type, payload@));
        let k = slice_to_vec(key);
        let found = self.find(key);
        match found {
            Some(i) => {
                self.entries.set(i, Entry { key: k, item_type, payload });
            },
            None => {
                self.entries.push(Entry { key: k, item_type, payload });
            },
        }
        self.map = Ghost(m);
        let ghost pos: int = match found {
            Some(i) => i as int,
            None => old_entries.len() as int,
        };
        assert(self.entries@[pos].key@ == key@);
        assert forall|j: int| 0 <= j < self.entries@.len() && j != pos implies self.entries@[j]
            == old_entries[j] && old_entries[j].key@ != key@ by {
            if found is Some {
                assert(old_entries[j].key@ != old_entries[pos].key@);
            } else {
                assert(old_map.contains_key(old_entries[j].key@));
            }
        }
        assert forall|j: int| 0 <= j < self.entries@.len() implies self.map@.contains_key(
            self.entries@[j].key@,
        ) && self.map@[self.entries@[j].key@] == (
            self.entries@[j].item_type,
            self.entries@[j].payload@,
        ) by {
            if j != pos {
                assert(old_map.contains_key(old_entries[j].key@));
            } else {
                assert(self.map@[key@] == (item_type, payload@));
                assert(self.entries@[j].payload@ == payload@);
            }
        }
        assert forall|k: Seq<u8>| #[trigger] self.map@.contains_key(k) implies holds_key(self.entries@, k) by {
            if k != key@ {
                assert(old_map.contains_key(k));
                let j = choose|j: int| 0 <= j < old_entries.len() && old_entries[j].key@ == k;
                assert(j != pos);
                assert(self.entries@[j].key@ == k);
            } else {
                assert(self.entries@[pos].key@ == k);
            }
        }
        assert forall|a: int, b: int|
            0 <= a < b < self.entries@.len() implies self.entries@[a].key@
                != self.entries@[b].key@ by {
            if a != pos && b != pos {
                assert(old_entries[a].key@ != old_entries[b].key@);
            }
        }
    }

    pub fn remove(&mut self, key: &[u8]) -> (r: bool)
        requires
            old(self).wf(),
        ensures
            final(self).wf(),
            r == old(self)@.contains_key(key@),
            final(self)@ == old(self)@.remove(key@),
    {
        let ghost old_entries = self.entries@;
        let ghost old_map = self.map@;
        match self.find(key) {
            Some(i) => {
                assert(old_map.contains_key(old_entries[i as int].key@));
                self.entries.remove(i);
                self.map = Ghost(old_map.remove(key@));
                assert forall|j: int| 0 <= j < self.entries@.len() implies self.entries@[j]
                    == old_entries[if j < i { j } else { j + 1 }] && self.entries@[j].key@ != key@ by {
                    let oj = if j < i { j } else { j + 1 };
                    assert(old_entries[oj].key@ != old_entries[i as int].key@);
                }
                assert forall|j: int| 0 <= j < self.entries@.len() implies self.map@.contains_key(
                    self.entries@[j].key@,
                ) && self.map@[self.entries@[j].key@] == (
                    self.entries@[j].item_type,
                    self.entries@[j].payload@,
                ) by {
                    let oj = if j < i { j } else { j + 1 };
                    assert(old_map.contains_key(old_entries[oj].key@));
                }
                assert forall|k: Seq<u8>| #[trigger] self.map@.contains_key(k) implies holds_key(self.entries@, k) by {
                    assert(old_map.contains_key(k));
                    let j = choose|j: int| 0 <= j < old_entries.len() && old_entries[j].key@ == k;
                    if j < i {
                        assert(self.entries@[j].key@ == k);
                    } else {
                        assert(self.entries@[j - 1].key@ == k);
                    }
                }
                assert forall|a: int, b: int|
                    0 <= a < b < self.entries@.len() implies self.entries@[a].key@
                        != self.entries@[b].key@ by {
                    let oa = if a < i { a } else { a + 1 };
                    let ob = if b < i { b } else { b + 1 };
                    assert(old_entries[oa].key@ != old_entries[ob].key@);
                }
                true
            },
            None => {
                assert(old_map.remove(key@) =~= old_map);
                false
            },
        }
    }

    pub fn clear(&mut self)
        ensures
            final(self).wf(),
            final(self)@ == Map::<Seq<u8>, (ItemType, Seq<u8>)>::empty(),
    {
        self.entries = Vec::new();
        self.map = Ghost(Map::empty());
    }

    pub fn duplicate(&self) -> (r: ItemTable)
        requires
            self.wf(),
        ensures
            r.wf(),
            r@ == self@,
    {
        let mut entries: Vec<Entry> = Vec::new();
        let mut i: usize = 0;
        while i < self.entries.len()
            invariant
                self.wf(),
                0 <= i <= self.entries@.len(),
                entries@.len() == i,
                forall|j: int|
                    0 <= j < i ==> (#[trigger] entries@[j]).key@ == self.entries@[j].key@
                        && entries@[j].item_type == self.entries@[j].item_type
                        && entries@[j].payload@ == self.entries@[j].payload@,
            decreases self.entries@.len() - i,
        {
            let e = &self.entries[i];
            entries.push(
                Entry {
                    key: slice_to_vec(e.key.as_slice()),
                    item_type: e.item_type,
                    payload: slice_to_vec(e.payload.as_slice()),
                },
            );
            i = i + 1;
        }
        let r = ItemTable { entries, map: Ghost(self.map@) };
        assert forall|k: Seq<u8>| #[trigger] r.map@.contains_key(k) implies holds_key(r.entries@, k) by {
            let j = choose|j: int| 0 <= j < self.entries@.len() && self.entries@[j].key@ == k;
            assert(r.entries@[j].key@ == k);
        }
        assert forall|j: int| 0 <= j < r.entries@.len() implies r.map@.contains_key(
            r.entries@[j].key@,
        ) && r.map@[r.entries@[j].key@] == (r.entries@[j].item_type, r.entries@[j].payload@) by {
            assert(r.entries@[j].key@ == self.entries@[j].key@);
        }
        assert forall|a: int, b: int|
            0 <= a < b < r.entries@.len() implies r.entries@[a].key@ != r.entries@[b].key@ by {
            assert(r.entries@[a].key@ == self.entries@[a].key@);
            assert(r.entries@[b].key@ == self.entries@[b].key@);
        }
        r
    }
}

/// What a store holds: the working items and the copy last saved to the medium.
pub struct StoreView {
    pub items: Map<Seq<u8>, (ItemType, Seq<u8>)>,
    pub saved: Map<Seq<u8>, (ItemType, Seq<u8>)>,
}

/// A storage host kept in memory.
pub struct ItemStore {
    live: ItemTable,
    saved: ItemTable,
}

impl View for ItemStore {
    type V = StoreView;

    closed spec fn view(&self) -> StoreView {
        StoreView { items: self.live@, saved: self.saved@ }
    }
}

impl ItemStore {
    pub closed spec fn wf(&self) -> bool {
        self.live.wf() && self.saved.wf()
    }

    pub fn new() -> (r: ItemStore)
        ensures
            r.wf(),
            r@.items == Map::<Seq<u8>, (ItemType, Seq<u8>)>::empty(),
            r@.saved == Map::<Seq<u8>, (ItemType, Seq<u8>)>::empty(),
    {
        ItemStore { live: ItemTable::new(), saved: ItemTable::new() }
    }

    /// Reads the item under `key` as type `t` into a buffer of `capacity` bytes.
    pub fn get_item(&self, key: &[u8], t: ItemType, capacity: usize) -> (r: (i32, Vec<u8>))
        requires
            self.wf(),
        ensures
            (r.0, r.1@) == spec_get_item(self@.items, key@, t, capacity as nat),
    {
        match self.live.get(key) {
            None => (STORAGE_NOT_FOUND, Vec::new()),
            Some(e) => {
                if e.item_type != t {
                    (STORAGE_UNEXPECTED_DATA_TYPE, Vec::new())
                } else {
                    let mut out = slice_to_vec(e.payload.as_slice());
                    if t == ItemType::String {
                        out.push(0u8);
                    }
                    assert(out@ =~= readback(t, e.payload@));
                    if out.len() > capacity {
                        (STORAGE_BUFFER_TOO_SMALL, Vec::new())
                    } else {
                        (STORAGE_SUCCESS, out)
                    }
                }
            },
        }
    }

    /// Creates or overwrites the item under `key`.
    pub fn store_item(&mut self, key: &[u8], t: ItemType, payload: Vec<u8>) -> (r: i32)
        requires
            old(self).wf(),
        ensures
            final(self).wf(),
            r == STORAGE_SUCCESS,
            final(self)@.items == old(self)@.items.insert(key@, (t, payload@)),
            final(self)@.saved == old(self)@.saved,
    {
        self.live.insert(key, t, payload);
        STORAGE_SUCCESS
    }

    /// Removes the item under `key`.
    pub fn delete_item(&mut self, key: &[u8]) -> (r: i32)
        requires
            old(self).wf(),
        ensures
            final(self).wf(),
            r == (if old(self)@.items.contains_key(key@) {
                STORAGE_SUCCESS
            } else {
                STORAGE_NOT_FOUND
            }),
            final(self)@.items == old(self)@.items.remove(key@),
            final(self)@.saved == old(self)@.saved,
    {
        if self.live.remove(key) {
            STORAGE_SUCCESS
        } else {
            STORAGE_NOT_FOUND
        }
    }

    /// Removes every item, saved ones too.
    pub fn wipe(&mut self) -> (r: i32)
        requires
            old(self).wf(),
        ensures
            final(self).wf(),
            r == STORAGE_SUCCESS,
            final(self)@.items == Map::<Seq<u8>, (ItemType, Seq<u8>)>::empty(),
            final(self)@.saved == Map::<Seq<u8>, (ItemType, Seq<u8>)>::empty(),
    {
        self.live.clear();
        self.saved.clear();
        STORAGE_SUCCESS
    }

    /// Drops unsaved changes: the working items become the saved ones.
    pub fn force_reload(&mut self) -> (r: i32)
        requires
            old(self).wf(),
        ensures
            final(self).wf(),
            r == STORAGE_SUCCESS,
            final(self)@.items == old(self)@.saved,
            final(self)@.saved == old(self)@.saved,
    {
        self.live = self.saved.duplicate();
        STORAGE_SUCCESS
    }

    /// Writes the working items to the medium. In memory there is no
    /// write to put off, so `force` changes nothing.
    pub fn save(&mut self, force: bool) -> (r: i32)
        requires
            old(self).wf(),
        ensures
            final(self).wf(),
            r == STORAGE_SUCCESS,
            final(self)@.items == old(self)@.items,
            final(self)@.saved == old(self)@.items,
    {
        self.saved = self.live.duplicate();
        STORAGE_SUCCESS
    }
}

} // verus!
