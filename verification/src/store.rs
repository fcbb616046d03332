//! The two durable keyed stores, each a stable B-tree map over its own
//! virtual memory. Verus does not look inside them: what they hold is named
//! here, and each operation states its effect on that.
//!
//! A map owns its memory. Where the default memory is the one stable memory
//! of a canister, a second pair of stores would share it with the first, and
//! what is said here of either would no longer hold: such a process keeps
//! one pair of stores.

use vstd::prelude::*;
use ic_stable_structures::memory_manager::{MemoryId, MemoryManager, VirtualMemory};
use ic_stable_structures::{DefaultMemoryImpl, StableBTreeMap};

verus! {

/// The durable like ledger: like key to creation time.
#[verifier::external_body]
pub struct LikeStore {
    inner: StableBTreeMap<String, u64, VirtualMemory<DefaultMemoryImpl>>,
}

/// The durable balance ledger: user to (balance, time of the last update).
#[verifier::external_body]
pub struct BalanceStore {
    inner: StableBTreeMap<String, (u64, u64), VirtualMemory<DefaultMemoryImpl>>,
}

/// The entries that a like store holds.
pub uninterp spec fn like_store_contents(store: LikeStore) -> Map<Seq<char>, u64>;

/// The entries that a balance store holds.
pub uninterp spec fn balance_store_contents(store: BalanceStore) -> Map<Seq<char>, (u64, u64)>;

/// The two stores of one ledger.
pub struct Stores {
    pub likes: LikeStore,
    pub balances: BalanceStore,
}

/// The virtual memory of the like store.
pub const LIKES_MEMORY: u8 = 0;

/// The virtual memory of the balance store.
pub const BALANCES_MEMORY: u8 = 1;

/// `MemoryManager::init`, `MemoryManager::get` and `BTreeMap::new`: two maps,
/// on the two given virtual memories of one manager over the default memory.
/// `new` writes a header with no root and length zero whatever the memory
/// held, so both maps come out empty. The number 255 names no memory, and the
/// two maps cannot share one.
#[verifier::external_body]
pub(crate) fn fresh_stores(likes_memory: u8, balances_memory: u8) -> (stores: Stores)
    requires
        likes_memory != 255,
        balances_memory != 255,
        likes_memory != balances_memory,
    ensures
        like_store_contents(stores.likes) == (Map::<Seq<char>, u64>::empty()),
        balance_store_contents(stores.balances) == (Map::<Seq<char>, (u64, u64)>::empty()),
{
    let manager = MemoryManager::init(DefaultMemoryImpl::default());
    let likes = StableBTreeMap::new(manager.get(MemoryId::new(likes_memory)));
    let balances = StableBTreeMap::new(manager.get(MemoryId::new(balances_memory)));
    Stores { likes: LikeStore { inner: likes }, balances: BalanceStore { inner: balances } }
}

/// `MemoryManager::init`, `MemoryManager::get` and `BTreeMap::init`: two maps,
/// on the two given virtual memories of one manager over the default memory.
/// `init` loads the map that its memory holds and makes an empty one where it
/// holds none, so nothing is said of what the maps hold. It ends the process
/// where the memory holds a map in a layout that it does not know. The
/// number 255 names no memory, and the two maps cannot share one.
#[verifier::external_body]
pub(crate) fn open_stores(likes_memory: u8, balances_memory: u8) -> (stores: Stores)
    requires
        likes_memory != 255,
        balances_memory != 255,
        likes_memory != balances_memory,
{
    let manager = MemoryManager::init(DefaultMemoryImpl::default());
    let likes = StableBTreeMap::init(manager.get(MemoryId::new(likes_memory)));
    let balances = StableBTreeMap::init(manager.get(MemoryId::new(balances_memory)));
    Stores { likes: LikeStore { inner: likes }, balances: BalanceStore { inner: balances } }
}

/// The map has `n` entries, a finite number.
pub open spec fn counts_entries(contents: Map<Seq<char>, u64>, n: u64) -> bool {
    contents.dom().finite() && contents.dom().len() == n
}

/// No key stands twice in the list.
pub open spec fn distinct_keys(keys: Seq<String>) -> bool {
    forall|i: int, j: int| 0 <= i < j < keys.len() ==> (#[trigger] keys[i])@ != (#[trigger] keys[j])@
}

/// The key stands in the list.
pub open spec fn listed(keys: Seq<String>, key: Seq<char>) -> bool {
    exists|i: int| 0 <= i < keys.len() && (#[trigger] keys[i])@ == key
}

impl LikeStore {
    /// `BTreeMap::keys`: walks the map in the order of its keys and yields
    /// the key of each entry once.
    #[verifier::external_body]
    pub(crate) fn keys(&self) -> (keys: Vec<String>)
        ensures
            distinct_keys(keys@),
            forall|key: Seq<char>| #[trigger]
                like_store_contents(*self).contains_key(key) <==> listed(keys@, key),
    {
        self.inner.keys().collect()
    }

    /// `BTreeMap::contains_key`: whether the map holds an entry under the key.
    #[verifier::external_body]
    pub(crate) fn contains(&self, key: &str) -> (found: bool)
        ensures
            found == like_store_contents(*self).contains_key(key@),
    {
        self.inner.contains_key(&key.to_string())
    }

    /// `BTreeMap::len`: the number of entries, of which there are finitely
    /// many.
    #[verifier::external_body]
    pub(crate) fn len(&self) -> (n: u64)
        ensures
            counts_entries(like_store_contents(*self), n),
    {
        self.inner.len()
    }

    /// `BTreeMap::insert`: afterwards the key maps to the value and every
    /// other entry is as before; the value that the key had is returned. The
    /// call ends the process where the memory cannot grow, as an allocation
    /// does.
    #[verifier::external_body]
    pub(crate) fn put(&mut self, key: String, created_at: u64) -> (previous: Option<u64>)
        ensures
            like_store_contents(*final(self)) == like_store_contents(*old(self)).insert(
                key@,
                created_at,
            ),
            previous == if like_store_contents(*old(self)).contains_key(key@) {
                Some(like_store_contents(*old(self))[key@])
            } else {
                None
            },
    {
        self.inner.insert(key, created_at)
    }
}

impl BalanceStore {
    /// `BTreeMap::get`: the value under the key, if the map holds one.
    #[verifier::external_body]
    pub(crate) fn get(&self, key: &str) -> (entry: Option<(u64, u64)>)
        ensures
            entry == if balance_store_contents(*self).contains_key(key@) {
                Some(balance_store_contents(*self)[key@])
            } else {
                None
            },
    {
        self.inner.get(&key.to_string())
    }

    /// `BTreeMap::insert`: afterwards the key maps to the value and every
    /// other entry is as before; the value that the key had is returned. The
    /// call ends the process where the memory cannot grow, as an allocation
    /// does.
    #[verifier::external_body]
    pub(crate) fn put(&mut self, key: String, entry: (u64, u64)) -> (previous: Option<(u64, u64)>)
        ensures
            balance_store_contents(*final(self)) == balance_store_contents(*old(self)).insert(
                key@,
                entry,
            ),
            previous == if balance_store_contents(*old(self)).contains_key(key@) {
                Some(balance_store_contents(*old(self))[key@])
            } else {
                None
            },
    {
        self.inner.insert(key, entry)
    }
}

} // verus!
