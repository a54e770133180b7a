//! Durable network-credential store.
//!
//! The store models a non-volatile namespace holding two fields, `ssid` and
//! `password`, under a fixed key prefix. Absence of either field means no
//! credential is stored: a credential only exists as a complete pair. The
//! in-memory value mirrors the durable medium; the host environment is
//! responsible for carrying the mirrored slots across power cycles.
//!
//! Failures of the medium are reported as [`StorageError`] and are always
//! recoverable: a failed write leaves the store exactly as it was.

use vstd::prelude::*;

use crate::api::StorageError;
use crate::api::WifiCredentials;

verus! {

/// Mathematical model of the store: readiness of the medium, its remaining
/// capacity in characters, and the two durable slots.
pub struct StoreModel {
    pub ready: bool,
    pub capacity: nat,
    pub ssid: Option<Seq<char>>,
    pub password: Option<Seq<char>>,
}

/// What a `get` returns on a given model: the pair exactly when both slots
/// are present.
pub open spec fn get_model(m: StoreModel) -> Option<(Seq<char>, Seq<char>)> {
    match (m.ssid, m.password) {
        (Some(s), Some(p)) => Some((s, p)),
        _ => None,
    }
}

/// Whether a credential pair fits the medium.
pub open spec fn fits(m: StoreModel, ssid: Seq<char>, password: Seq<char>) -> bool {
    ssid.len() + password.len() <= m.capacity
}

/// How a `set` transforms the model, together with its result.
pub open spec fn set_model(m: StoreModel, ssid: Seq<char>, password: Seq<char>) -> (
    StoreModel,
    Result<(), StorageError>,
) {
    if !m.ready {
        (m, Err(StorageError::Uninitialized))
    } else if fits(m, ssid, password) {
        (StoreModel { ssid: Some(ssid), password: Some(password), ..m }, Ok(()))
    } else {
        (m, Err(StorageError::OutOfSpace))
    }
}

/// How an `erase` transforms the model, together with its result.
pub open spec fn erase_model(m: StoreModel) -> (StoreModel, Result<(), StorageError>) {
    if !m.ready {
        (m, Err(StorageError::Uninitialized))
    } else {
        (StoreModel { ssid: None, password: None, ..m }, Ok(()))
    }
}

/// Durable key/value persistence for network credentials.
pub struct CredentialStore {
    ready: bool,
    capacity: usize,
    ssid_slot: Option<String>,
    password_slot: Option<String>,
}

impl View for CredentialStore {
    type V = StoreModel;

    closed spec fn view(&self) -> StoreModel {
        StoreModel {
            ready: self.ready,
            capacity: self.capacity as nat,
            ssid: match self.ssid_slot {
                Some(s) => Some(s@),
                None => None,
            },
            password: match self.password_slot {
                Some(p) => Some(p@),
                None => None,
            },
        }
    }
}

impl CredentialStore {
    /// A freshly formatted medium: ready, empty, with the given capacity.
    pub fn new(capacity: usize) -> (r: Self)
        ensures
            r@ == (StoreModel {
                ready: true,
                capacity: capacity as nat,
                ssid: None,
                password: None,
            }),
    {
        CredentialStore { ready: true, capacity, ssid_slot: None, password_slot: None }
    }

    /// A medium that was never formatted: nothing can be read or written
    /// until it is replaced by a formatted one.
    pub fn unformatted() -> (r: Self)
        ensures
            !r@.ready,
            get_model(r@) is None,
    {
        CredentialStore { ready: false, capacity: 0, ssid_slot: None, password_slot: None }
    }

    /// A store recovered from the medium at boot: whatever subset of the two
    /// fields survived is taken as found. A lone `ssid` or a lone `password`
    /// (for instance after power loss mid-write) yields no credential.
    pub fn from_slots(ssid: Option<String>, password: Option<String>, capacity: usize) -> (r: Self)
        ensures
            r@.ready,
            r@.capacity == capacity as nat,
            r@.ssid == (match ssid {
                Some(s) => Some(s@),
                None => None,
            }),
            r@.password == (match password {
                Some(p) => Some(p@),
                None => None,
            }),
    {
        CredentialStore { ready: true, capacity, ssid_slot: ssid, password_slot: password }
    }

    /// Returns the stored credential pair, or `None` when either durable
    /// field is absent.
    pub fn get(&self) -> (r: Option<WifiCredentials>)
        ensures
            match get_model(self@) {
                Some(pair) => r matches Some(c) && c.ssid@ == pair.0 && c.password@ == pair.1,
                None => r is None,
            },
    {
        match (&self.ssid_slot, &self.password_slot) {
            (Some(s), Some(p)) => Some(
                WifiCredentials { ssid: s.clone(), password: p.clone() },
            ),
            _ => None,
        }
    }

    /// Writes both fields of the credential as one record.
    pub fn set(&mut self, credential: &WifiCredentials) -> (r: Result<(), StorageError>)
        ensures
            (final(self)@, r) == set_model(
                old(self)@,
                credential.ssid@,
                credential.password@,
            ),
    {
        if !self.ready {
            return Err(StorageError::Uninitialized);
        }
        let ssid_len = credential.ssid.unicode_len();
        let password_len = credential.password.unicode_len();
        if ssid_len > self.capacity || password_len > self.capacity - ssid_len {
            return Err(StorageError::OutOfSpace);
        }
        self.ssid_slot = Some(credential.ssid.clone());
        self.password_slot = Some(credential.password.clone());
        Ok(())
    }

    /// Removes both durable fields; afterwards no credential is stored.
    pub fn erase(&mut self) -> (r: Result<(), StorageError>)
        ensures
            (final(self)@, r) == erase_model(old(self)@),
    {
        if !self.ready {
            return Err(StorageError::Uninitialized);
        }
        self.ssid_slot = None;
        self.password_slot = None;
        Ok(())
    }
}

/// Credential round trip: on a ready medium with room for the pair, `set`
/// followed by `get` returns exactly the pair that was set, and `erase`
/// followed by `get` returns nothing.
pub proof fn lemma_credential_round_trip(m: StoreModel, ssid: Seq<char>, password: Seq<char>)
    requires
        m.ready,
        fits(m, ssid, password),
    ensures
        get_model(set_model(m, ssid, password).0) == Some((ssid, password)),
        set_model(m, ssid, password).1 == Ok::<(), StorageError>(()),
        get_model(erase_model(m).0) is None,
        erase_model(m).1 == Ok::<(), StorageError>(()),
{
}

} // verus!
