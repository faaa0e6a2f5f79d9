//! The store as many request handlers share it: every read and every change
//! takes the one lock that guards the whole store.

use crate::clock::current_timestamp;
use crate::record::{WebhookPayload, WebhookRecord};
use crate::store::{WebhookStore, CAPACITY};
use vstd::prelude::*;
use vstd::rwlock::{RwLock, RwLockPredicate};

verus! {

/// What the lock admits: any store. A store is within its capacity by its
/// own invariant, so the lock has nothing to add.
struct AnyStore;

impl RwLockPredicate<WebhookStore> for AnyStore {
    open spec fn inv(self, store: WebhookStore) -> bool {
        true
    }
}

/// A store behind a lock, for use from many threads at once.
///
/// Other holders may change the store between any two calls, so a contract
/// here cannot name what the store holds. [`Self::read`] and
/// [`Self::update`] hand the store to a function while the lock is held,
/// and promise of the result what that function promises of it. What one
/// operation does to a given state is stated on [`WebhookStore`] and on the
/// handlers that take one.
pub struct SharedWebhookStore {
    lock: RwLock<WebhookStore, AnyStore>,
}

impl SharedWebhookStore {
    /// An empty shared store.
    pub fn new() -> (shared: Self) {
        SharedWebhookStore { lock: RwLock::new(WebhookStore::new(), Ghost(AnyStore)) }
    }

    /// Ingests a payload at the current time, as [`WebhookStore::ingest`]
    /// does. The clock is read before the lock is taken; the record is then
    /// added in one step that no other holder can interleave with.
    pub fn ingest(&self, payload: WebhookPayload) {
        let record = payload.into_record(current_timestamp());
        let (mut store, handle) = self.lock.acquire_write();
        store.append(record);
        handle.release_write(store);
    }

    /// A copy of the records held at one moment, oldest first, as
    /// [`WebhookStore::snapshot`] gives it.
    pub fn snapshot(&self) -> (records: Vec<WebhookRecord>)
        ensures
            records@.len() <= CAPACITY,
    {
        let handle = self.lock.acquire_read();
        let records = handle.borrow().snapshot();
        handle.release_read();
        records
    }

    /// Runs `f` on the store as it is at one moment, while the lock is held
    /// for reading, and hands back what `f` returns: for some state of the
    /// store, the result is what `f` promises for that state.
    pub fn read<R, F: FnOnce(&WebhookStore) -> R>(&self, f: F) -> (r: R)
        requires
            forall|store: &WebhookStore| f.requires((store,)),
        ensures
            exists|store: &WebhookStore| f.ensures((store,), r),
    {
        let handle = self.lock.acquire_read();
        let r = f(handle.borrow());
        handle.release_read();
        r
    }

    /// Runs `f` on the store while the lock is held for writing, so that no
    /// other holder sees or changes the store in between, and hands back
    /// what `f` returns: for some state of the store, `f` has changed it and
    /// answered as it promises for that state.
    pub fn update<R, F: FnOnce(&mut WebhookStore) -> R>(&self, f: F) -> (r: R)
        requires
            forall|store: &mut WebhookStore| f.requires((store,)),
        ensures
            exists|store: &mut WebhookStore| f.ensures((store,), r),
    {
        let (mut store, handle) = self.lock.acquire_write();
        let r = f(&mut store);
        handle.release_write(store);
        r
    }

    /// The number of records held at one moment.
    pub fn count(&self) -> (n: usize)
        ensures
            n <= CAPACITY,
    {
        let handle = self.lock.acquire_read();
        let n = handle.borrow().count();
        handle.release_read();
        n
    }
}


} // verus!
