//! The secret store: one shared secret per process, read by every
//! verification request. Reads go through a reader-writer lock, so any number
//! of requests may read concurrently; replacing the secret takes exclusive
//! access to the whole store. The lock cannot be poisoned: a reader observes
//! the stored value or waits, never a failure state.

use vstd::prelude::*;

verus! {

use vstd::rwlock::RwLock;

/// Holds the shared secret. Every read returns the bytes the store was built
/// with, until the store itself is replaced through `set`.
pub struct SecretStore {
    lock: RwLock<Vec<u8>, spec_fn(Vec<u8>) -> bool>,
    secret: Ghost<Seq<u8>>,
}

impl View for SecretStore {
    type V = Seq<u8>;

    closed spec fn view(&self) -> Seq<u8> {
        self.secret@
    }
}

impl SecretStore {
    #[verifier::type_invariant]
    spec fn wf(&self) -> bool {
        forall|v: Vec<u8>| #[trigger] self.lock.inv(v) <==> v@ == self.secret@
    }

    /// Builds a store holding `secret`.
    pub fn new(secret: Vec<u8>) -> (store: Self)
        ensures
            store@ == secret@,
    {
        let ghost bytes: Seq<u8> = secret@;
        let lock = RwLock::new(secret, Ghost(|v: Vec<u8>| v@ == bytes));
        SecretStore { lock, secret: Ghost(bytes) }
    }

    /// Returns a copy of the current secret. Never fails: a read either
    /// proceeds at once or waits for a writer to finish, and always observes
    /// the stored value whole.
    pub fn get(&self) -> (secret: Vec<u8>)
        ensures
            secret@ == self@,
    {
        proof {
            use_type_invariant(self);
        }
        let handle = self.lock.acquire_read();
        let secret = vstd::slice::slice_to_vec(handle.borrow().as_slice());
        handle.release_read();
        secret
    }

    /// Replaces the secret. Exclusive: `&mut self` rules out concurrent
    /// readers for the duration of the swap, so no reader observes a torn
    /// value, and the read contract is unchanged.
    pub fn set(&mut self, secret: Vec<u8>)
        ensures
            final(self)@ == secret@,
    {
        *self = SecretStore::new(secret);
    }
}

} // verus!
