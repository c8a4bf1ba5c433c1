//! Layout of the durable memory and the two durable maps kept in it.
//!
//! The maps are B-tree maps of `ic_stable_structures`, keyed by the bytes
//! of an identity. This module is the only place that touches them: it
//! gives each map a mathematical view and states, per method, what the
//! method does to that view. Nothing here is proved; the rest of the crate
//! is proved against these statements.

use ic_stable_structures::memory_manager::MemoryId;
use ic_stable_structures::memory_manager::MemoryManager;
use ic_stable_structures::memory_manager::VirtualMemory;
use ic_stable_structures::storable::Blob;
use ic_stable_structures::DefaultMemoryImpl;
use ic_stable_structures::RestrictedMemory;
use ic_stable_structures::StableBTreeMap;
use vstd::prelude::*;

verus! {

/// First page of the global flags record.
pub const GLOBAL_FLAGS_PAGE_START: u64 = 0;

/// One past the last page of the global flags record.
pub const GLOBAL_FLAGS_PAGE_END: u64 = 1;

/// First page of the lifecycle record.
pub const CANISTER_LIFECYCLE_PAGE_START: u64 = 1;

/// One past the last page of the lifecycle record.
pub const CANISTER_LIFECYCLE_PAGE_END: u64 = 2;

/// First page of the access-control record.
pub const ACCESS_CONTROL_PAGE_START: u64 = 2;

/// One past the last page of the access-control record.
pub const ACCESS_CONTROL_PAGE_END: u64 = 6;

/// First page that is free for the embedding service.
pub const USER_PAGE_START: u64 = 64;

/// One past the last page that the managed region may reach.
pub const MANAGED_PAGE_END: u64 = 0xFFFF_FFFF_FFFE;

/// The least number of pages that a managed region needs for the two
/// durable maps: one page for the manager's header, and for each map one
/// bucket of 128 pages.
pub const MIN_MANAGED_PAGES: u64 = 257;

/// Id of the managed memory that holds the reentrancy tickets.
pub const REENTRANCY_GUARD_MEM_ID: u8 = 224;

/// Id of the managed memory reserved as an upgrade buffer.
pub const UPGRADE_BUFFER_MEM_ID: u8 = 228;

/// Id of the managed memory that holds the role assignments.
pub const ACCESS_ROLES_MEM_ID: u8 = 229;

/// The managed part of the durable memory: everything from a first page
/// on, handed out in numbered virtual memories.
#[verifier::external_body]
pub struct MemoryMap {
    manager: MemoryManager<RestrictedMemory<DefaultMemoryImpl>>,
}

/// The durable map from identity to role mask.
#[verifier::external_body]
pub struct RoleStore {
    map: StableBTreeMap<Blob<29>, u32, VirtualMemory<RestrictedMemory<DefaultMemoryImpl>>>,
}

/// The durable set of identities with a guarded operation in progress.
#[verifier::external_body]
pub struct TicketStore {
    map: StableBTreeMap<Blob<29>, (), VirtualMemory<RestrictedMemory<DefaultMemoryImpl>>>,
}

/// The entries of a role store: key bytes to mask.
pub uninterp spec fn role_entries(store: RoleStore) -> Map<Seq<u8>, u32>;

/// The keys of a ticket store.
pub uninterp spec fn ticket_entries(store: TicketStore) -> Set<Seq<u8>>;

/// The pages that a region was made with: its first page, and the page
/// that it ends before.
pub uninterp spec fn region_pages(memory: MemoryMap) -> (u64, u64);

/// Where a role store was opened: the first and the end page of its
/// region, and the number of its virtual memory in that region.
pub uninterp spec fn role_store_home(store: RoleStore) -> (u64, u64, u8);

/// Where a ticket store was opened: the first and the end page of its
/// region, and the number of its virtual memory in that region.
pub uninterp spec fn ticket_store_home(store: TicketStore) -> (u64, u64, u8);

/// What a lookup in `entries` gives for `key`.
pub open spec fn entry_at(entries: Map<Seq<u8>, u32>, key: Seq<u8>) -> Option<u32> {
    if entries.dom().contains(key) {
        Some(entries[key])
    } else {
        None
    }
}

/// `MemoryManager::init` over a `RestrictedMemory::new` of the default
/// memory, restricted to the pages from `first_page` up to `end_page`:
/// the result is the region made with these two pages.
/// `RestrictedMemory::new` wants the end within the addressable pages, and
/// the manager needs a page for its header, so the range cannot be empty or
/// inverted. What the manager finds in the memory is whatever an earlier
/// run left, so nothing is said of that. The call does not return when the
/// memory cannot grow to hold the manager's header.
#[verifier::external_body]
fn manager_init(first_page: u64, end_page: u64) -> (memory: MemoryMap)
    requires
        first_page < end_page,
        end_page <= 0xFFFF_FFFF_FFFF,
    ensures
        region_pages(memory) == (first_page, end_page),
{
    MemoryMap {
        manager: MemoryManager::init(
            RestrictedMemory::new(DefaultMemoryImpl::default(), first_page..end_page),
        ),
    }
}

/// `MemoryManager::get` for the virtual memory numbered `id`, and
/// `StableBTreeMap::init` on it: loads the map that the memory holds, or
/// starts an empty one. The result is the store in that memory of that
/// region. Nothing is said of the entries found. The number 255 is
/// reserved by the manager. A map that is started takes a bucket of 128
/// pages from the region, so the region must have room for the header page
/// and a bucket for each of the two maps. The call does not return when
/// the memory cannot grow by that bucket.
#[verifier::external_body]
fn role_map_init(memory: &MemoryMap, id: u8) -> (store: RoleStore)
    requires
        id != 255,
        region_pages(*memory).0 + 257 <= region_pages(*memory).1,
    ensures
        role_store_home(store) == (region_pages(*memory).0, region_pages(*memory).1, id),
{
    RoleStore { map: StableBTreeMap::init(memory.manager.get(MemoryId::new(id))) }
}

/// `MemoryManager::get` for the virtual memory numbered `id`, and
/// `StableBTreeMap::init` on it. The result is the store in that memory of
/// that region. Nothing is said of the entries found. The number 255 is
/// reserved by the manager. A map that is started takes a bucket of 128
/// pages from the region, so the region must have room for the header page
/// and a bucket for each of the two maps. The call does not return when
/// the memory cannot grow by that bucket.
#[verifier::external_body]
fn ticket_map_init(memory: &MemoryMap, id: u8) -> (store: TicketStore)
    requires
        id != 255,
        region_pages(*memory).0 + 257 <= region_pages(*memory).1,
    ensures
        ticket_store_home(store) == (region_pages(*memory).0, region_pages(*memory).1, id),
{
    TicketStore { map: StableBTreeMap::init(memory.manager.get(MemoryId::new(id))) }
}

/// `StableBTreeMap::get`: the value stored under `key`, if any. Keys are
/// compared by their bytes.
#[verifier::external_body]
pub(crate) fn role_map_get(store: &RoleStore, key: &[u8]) -> (r: Option<u32>)
    requires
        key@.len() <= 29,
    ensures
        r == entry_at(role_entries(*store), key@),
{
    store.map.get(&Blob::try_from(key).unwrap())
}

/// `StableBTreeMap::insert`: stores `value` under `key`, replacing what
/// was there, and returns the previous value. The call does not return
/// when the memory cannot grow.
#[verifier::external_body]
pub(crate) fn role_map_insert(store: &mut RoleStore, key: &[u8], value: u32) -> (r: Option<u32>)
    requires
        key@.len() <= 29,
    ensures
        role_entries(*final(store)) == role_entries(*old(store)).insert(key@, value),
        r == entry_at(role_entries(*old(store)), key@),
{
    store.map.insert(Blob::try_from(key).unwrap(), value)
}

/// `StableBTreeMap::contains_key`.
#[verifier::external_body]
pub(crate) fn ticket_map_contains(store: &TicketStore, key: &[u8]) -> (r: bool)
    requires
        key@.len() <= 29,
    ensures
        r == ticket_entries(*store).contains(key@),
{
    store.map.contains_key(&Blob::try_from(key).unwrap())
}

/// `StableBTreeMap::insert` with the unit value: afterwards `key` is in
/// the set. Returns whether it was there before. The call does not return
/// when the memory cannot grow.
#[verifier::external_body]
pub(crate) fn ticket_map_insert(store: &mut TicketStore, key: &[u8]) -> (r: bool)
    requires
        key@.len() <= 29,
    ensures
        ticket_entries(*final(store)) == ticket_entries(*old(store)).insert(key@),
        r == ticket_entries(*old(store)).contains(key@),
{
    store.map.insert(Blob::try_from(key).unwrap(), ()).is_some()
}

/// `StableBTreeMap::remove`: afterwards `key` is not in the set. Returns
/// whether it was there before.
#[verifier::external_body]
pub(crate) fn ticket_map_remove(store: &mut TicketStore, key: &[u8]) -> (r: bool)
    requires
        key@.len() <= 29,
    ensures
        ticket_entries(*final(store)) == ticket_entries(*old(store)).remove(key@),
        r == ticket_entries(*old(store)).contains(key@),
{
    store.map.remove(&Blob::try_from(key).unwrap()).is_some()
}

impl MemoryMap {
    /// The first page of the region.
    pub open spec fn first_page(&self) -> u64 {
        region_pages(*self).0
    }

    /// The page that the region ends before.
    pub open spec fn end_page(&self) -> u64 {
        region_pages(*self).1
    }

    /// Whether the region has room for the two durable maps.
    pub open spec fn has_room(&self) -> bool {
        self.first_page() + MIN_MANAGED_PAGES <= self.end_page()
    }

    /// Opens the managed region, which starts at page `user_page_end` and
    /// ends before `MANAGED_PAGE_END`. What the region holds is what an
    /// earlier run of the service left in it.
    ///
    /// A service opens its region once. A second region made over the same
    /// pages is the same durable memory, and what is written through one is
    /// not seen by the stores of the other.
    pub fn init(user_page_end: u64) -> (memory: MemoryMap)
        requires
            user_page_end < MANAGED_PAGE_END,
        ensures
            memory.first_page() == user_page_end,
            memory.end_page() == MANAGED_PAGE_END,
    {
        manager_init(user_page_end, MANAGED_PAGE_END)
    }

    /// Opens the two durable maps of the region: the role store in the
    /// virtual memory numbered `ACCESS_ROLES_MEM_ID`, the ticket store in the
    /// one numbered `REENTRANCY_GUARD_MEM_ID`. Each holds the entries that an
    /// earlier run left there. The region must have room for both,
    /// `MIN_MANAGED_PAGES` pages. The region is used up by this, so that
    /// from one `MemoryMap` each map is opened once.
    pub fn open(self) -> (stores: (RoleStore, TicketStore))
        requires
            self.has_room(),
        ensures
            stores.0.home() == (self.first_page(), self.end_page(), ACCESS_ROLES_MEM_ID),
            stores.1.home() == (self.first_page(), self.end_page(), REENTRANCY_GUARD_MEM_ID),
    {
        let roles = role_map_init(&self, ACCESS_ROLES_MEM_ID);
        let tickets = ticket_map_init(&self, REENTRANCY_GUARD_MEM_ID);
        (roles, tickets)
    }
}

/// Opens the managed region that starts at page `user_page_end`, and its
/// two durable maps, if the region has room for them: `None` when fewer
/// than `MIN_MANAGED_PAGES` pages lie between `user_page_end` and
/// `MANAGED_PAGE_END`.
pub fn open_stores(user_page_end: u64) -> (r: Option<(RoleStore, TicketStore)>)
    ensures
        r is Some <==> user_page_end + MIN_MANAGED_PAGES <= MANAGED_PAGE_END,
        r matches Some(stores) ==> stores.0.home() == (
            user_page_end,
            MANAGED_PAGE_END,
            ACCESS_ROLES_MEM_ID,
        ),
        r matches Some(stores) ==> stores.1.home() == (
            user_page_end,
            MANAGED_PAGE_END,
            REENTRANCY_GUARD_MEM_ID,
        ),
{
    if user_page_end > MANAGED_PAGE_END - MIN_MANAGED_PAGES {
        return None;
    }
    let memory = MemoryMap::init(user_page_end);
    Some(memory.open())
}

impl RoleStore {
    /// Where the store was opened: the first and the end page of its
    /// region, and the number of its virtual memory.
    pub open spec fn home(&self) -> (u64, u64, u8) {
        role_store_home(*self)
    }
}

impl TicketStore {
    /// Where the store was opened: the first and the end page of its
    /// region, and the number of its virtual memory.
    pub open spec fn home(&self) -> (u64, u64, u8) {
        ticket_store_home(*self)
    }
}

impl View for RoleStore {
    type V = Map<Seq<u8>, u32>;

    open spec fn view(&self) -> Map<Seq<u8>, u32> {
        role_entries(*self)
    }
}

impl View for TicketStore {
    type V = Set<Seq<u8>>;

    open spec fn view(&self) -> Set<Seq<u8>> {
        ticket_entries(*self)
    }
}

} // verus!
