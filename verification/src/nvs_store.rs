//! Profile and bond storage seams, with in-memory adapters.
use vstd::prelude::*;
use crate::profile::{ProfileId, V1_PROFILE_ID};

verus! {

/// NVS namespace used for persisted usb2ble settings.
pub const PROFILE_NAMESPACE: &'static str = "usb2ble";

/// NVS key used to store the active profile selection.
pub const ACTIVE_PROFILE_KEY: &'static str = "active_profile";

/// Errors that can occur when using the storage boundary.
#[derive(Debug, Clone, Copy, PartialEq, Eq, Structural)]
pub enum StoreError {
    /// The storage backend is unavailable.
    Unavailable,
    /// The storage backend reported a failure.
    BackendFailure,
}

/// Profile persistence boundary.
///
/// An implementation describes its behaviour through the two predicates;
/// by default they promise nothing.
pub trait ProfileStore {
    /// Whether `loaded` is a possible answer of `load_active_profile` here.
    open spec fn load_result(&self, loaded: Option<ProfileId>) -> bool {
        true
    }

    /// Whether storing `profile` may turn this store into `after` and answer `result`.
    open spec fn store_effect(&self, after: &Self, profile: ProfileId, result: Result<(), StoreError>) -> bool {
        true
    }

    /// Loads the active profile if one is persisted.
    fn load_active_profile(&self) -> (r: Option<ProfileId>)
        ensures
            self.load_result(r),
    ;

    /// Persists the active profile.
    fn store_active_profile(&mut self, profile: ProfileId) -> (r: Result<(), StoreError>)
        ensures
            old(self).store_effect(&*final(self), profile, r),
    ;
}

/// Bond storage boundary.
///
/// An implementation describes its behaviour through the predicates; by
/// default they promise nothing.
pub trait BondStore {
    /// Whether `present` is a possible answer of `bonds_present` here.
    open spec fn bonds_result(&self, present: bool) -> bool {
        true
    }

    /// Whether recording `present` may turn this store into `after` and answer `result`.
    open spec fn store_bonds_effect(&self, after: &Self, present: bool, result: Result<(), StoreError>) -> bool {
        true
    }

    /// Whether clearing may turn this store into `after` and answer `result`.
    open spec fn clear_effect(&self, after: &Self, result: Result<(), StoreError>) -> bool {
        true
    }

    /// Returns whether any persisted bonds are present.
    fn bonds_present(&self) -> (r: bool)
        ensures
            self.bonds_result(r),
    ;

    /// Records whether bonds are present.
    fn store_bonds_present(&mut self, bonds_present: bool) -> (r: Result<(), StoreError>)
        ensures
            old(self).store_bonds_effect(&*final(self), bonds_present, r),
    ;

    /// Clears all persisted bonds.
    fn clear_bonds(&mut self) -> (r: Result<(), StoreError>)
        ensures
            old(self).clear_effect(&*final(self), r),
    ;
}

/// The storage tag of a profile.
pub open spec fn spec_raw_tag(profile: ProfileId) -> u8 {
    match profile {
        ProfileId::T16000mV1 => 1,
    }
}

/// Decodes a persisted one-byte profile tag.
pub fn profile_from_raw_tag(raw: u8) -> (r: Option<ProfileId>)
    ensures
        r == (if raw == 1 {
            Some(V1_PROFILE_ID)
        } else {
            None
        }),
{
    match raw {
        1 => Some(V1_PROFILE_ID),
        _ => None,
    }
}

/// Encodes a profile as its persisted one-byte tag.
pub fn raw_tag_from_profile(profile: ProfileId) -> (r: u8)
    ensures
        r == spec_raw_tag(profile),
{
    match profile {
        ProfileId::T16000mV1 => 1,
    }
}

/// The active profile a stored value gives: the profile whose tag is its
/// first byte, when a non-empty value was read.
pub fn profile_from_stored(stored: Option<&[u8]>) -> (r: Option<ProfileId>)
    ensures
        r == match stored {
            Some(bytes) => if bytes@.len() > 0 && bytes@[0] == 1 {
                Some(V1_PROFILE_ID)
            } else {
                None
            },
            None => None,
        },
{
    match stored {
        Some(bytes) => {
            if bytes.len() > 0 {
                profile_from_raw_tag(bytes[0])
            } else {
                None
            }
        },
        None => None,
    }
}

/// The value stored for a profile: its one-byte tag.
pub fn stored_profile_value(profile: ProfileId) -> (r: [u8; 1])
    ensures
        r@ == seq![spec_raw_tag(profile)],
{
    let r = [raw_tag_from_profile(profile)];
    assert(r@ =~= seq![spec_raw_tag(profile)]);
    r
}

/// Reading back the tag of a profile gives that profile.
pub proof fn lemma_raw_tag_round_trip(profile: ProfileId)
    ensures
        (if spec_raw_tag(profile) == 1 {
            Some(V1_PROFILE_ID)
        } else {
            None::<ProfileId>
        }) == Some(profile),
{
}

/// Storing a profile in the in-memory store succeeds, and every later load
/// answers that profile.
pub proof fn lemma_memory_profile_read_after_write(
    before: MemoryProfileStore,
    after: MemoryProfileStore,
    profile: ProfileId,
    result: Result<(), StoreError>,
    loaded: Option<ProfileId>,
)
    requires
        before.store_effect(&after, profile, result),
        after.load_result(loaded),
    ensures
        result is Ok,
        loaded == Some(profile),
{
}

/// Recording bond presence in the in-memory store succeeds and is what the
/// store then reports; clearing it succeeds and reports no bonds.
pub proof fn lemma_memory_bonds_read_after_write(
    before: MemoryBondStore,
    stored: MemoryBondStore,
    cleared: MemoryBondStore,
    present: bool,
    store_result: Result<(), StoreError>,
    clear_result: Result<(), StoreError>,
    after_store: bool,
    after_clear: bool,
)
    requires
        before.store_bonds_effect(&stored, present, store_result),
        stored.bonds_result(after_store),
        stored.clear_effect(&cleared, clear_result),
        cleared.bonds_result(after_clear),
    ensures
        store_result is Ok,
        after_store == present,
        clear_result is Ok,
        !after_clear,
{
}

/// Host stand-in for the ESP-IDF NVS profile store, which is unavailable
/// outside the embedded target.
pub struct EspNvsProfileStore;

impl EspNvsProfileStore {
    /// Opening the NVS store off target always reports it unavailable.
    pub fn new() -> (r: Result<Self, StoreError>)
        ensures
            r matches Err(e) && e == StoreError::Unavailable,
    {
        Err(StoreError::Unavailable)
    }
}

impl ProfileStore for EspNvsProfileStore {
    open spec fn load_result(&self, loaded: Option<ProfileId>) -> bool {
        loaded is None
    }

    open spec fn store_effect(&self, after: &Self, profile: ProfileId, result: Result<(), StoreError>) -> bool {
        result == Err::<(), StoreError>(StoreError::Unavailable)
    }

    fn load_active_profile(&self) -> (r: Option<ProfileId>) {
        None
    }

    fn store_active_profile(&mut self, profile: ProfileId) -> (r: Result<(), StoreError>) {
        Err(StoreError::Unavailable)
    }
}

/// In-memory profile storage adapter for host-side use.
#[derive(Debug, Clone, Copy, PartialEq, Eq)]
pub struct MemoryProfileStore {
    active_profile: Option<ProfileId>,
}

impl MemoryProfileStore {
    /// The stored profile, if any.
    pub closed spec fn stored(self) -> Option<ProfileId> {
        self.active_profile
    }

    /// Creates an empty in-memory profile store.
    pub fn new() -> (r: Self)
        ensures
            r.stored() is None,
    {
        MemoryProfileStore { active_profile: None }
    }

    /// Creates an in-memory profile store with an active profile.
    pub fn with_profile(profile: ProfileId) -> (r: Self)
        ensures
            r.stored() == Some(profile),
    {
        MemoryProfileStore { active_profile: Some(profile) }
    }

    /// Returns the currently stored active profile, if any.
    pub fn active_profile(&self) -> (r: Option<ProfileId>)
        ensures
            r == self.stored(),
    {
        self.active_profile
    }
}

impl Default for MemoryProfileStore {
    fn default() -> (r: Self)
        ensures
            r.stored() is None,
    {
        Self::new()
    }
}

impl ProfileStore for MemoryProfileStore {
    open spec fn load_result(&self, loaded: Option<ProfileId>) -> bool {
        loaded == self.stored()
    }

    open spec fn store_effect(&self, after: &Self, profile: ProfileId, result: Result<(), StoreError>) -> bool {
        result is Ok && after.stored() == Some(profile)
    }

    fn load_active_profile(&self) -> (r: Option<ProfileId>) {
        self.active_profile
    }

    fn store_active_profile(&mut self, profile: ProfileId) -> (r: Result<(), StoreError>) {
        self.active_profile = Some(profile);
        Ok(())
    }
}

/// In-memory bond storage adapter for host-side use.
#[derive(Debug, Clone, Copy, PartialEq, Eq)]
pub struct MemoryBondStore {
    bonds_present: bool,
}

impl MemoryBondStore {
    /// Whether bonds are recorded as present.
    pub closed spec fn present(self) -> bool {
        self.bonds_present
    }

    /// Creates an in-memory bond store with no bonds.
    pub fn new() -> (r: Self)
        ensures
            !r.present(),
    {
        MemoryBondStore { bonds_present: false }
    }

    /// Creates an in-memory bond store with the provided state.
    pub fn with_bonds_present(bonds_present: bool) -> (r: Self)
        ensures
            r.present() == bonds_present,
    {
        MemoryBondStore { bonds_present }
    }

    /// Sets whether bonds are present.
    pub fn set_bonds_present(&mut self, bonds_present: bool)
        ensures
            final(self).present() == bonds_present,
    {
        self.bonds_present = bonds_present;
    }
}

impl Default for MemoryBondStore {
    fn default() -> (r: Self)
        ensures
            !r.present(),
    {
        Self::new()
    }
}

impl BondStore for MemoryBondStore {
    open spec fn bonds_result(&self, present: bool) -> bool {
        present == self.present()
    }

    open spec fn store_bonds_effect(&self, after: &Self, present: bool, result: Result<(), StoreError>) -> bool {
        result is Ok && after.present() == present
    }

    open spec fn clear_effect(&self, after: &Self, result: Result<(), StoreError>) -> bool {
        result is Ok && !after.present()
    }

    fn bonds_present(&self) -> (r: bool) {
        self.bonds_present
    }

    fn store_bonds_present(&mut self, bonds_present: bool) -> (r: Result<(), StoreError>) {
        self.bonds_present = bonds_present;
        Ok(())
    }

    fn clear_bonds(&mut self) -> (r: Result<(), StoreError>) {
        self.bonds_present = false;
        Ok(())
    }
}

} // verus!
