//! The slot that holds at most one secret key.
use vstd::prelude::*;
use crate::error::KeyError;
use crate::primitives::{SealedKey, TransientKey, sealed_bytes, seal, unseal, signing_key_from_bytes};
use crate::scalar::secret_accepted;

verus! {

/// A slot state is valid when any key it holds is accepted by the scheme.
pub open spec fn valid_state(s: Option<Seq<u8>>) -> bool {
    s is Some ==> secret_accepted(s->0)
}

/// Holds at most one secret key, in memory that is wiped when the key is
/// replaced, cleared or dropped. Only accepted keys are ever stored.
pub struct KeyStore {
    pub(crate) slot: Option<SealedKey>,
}

impl KeyStore {
    #[verifier::type_invariant]
    pub(crate) open spec fn holds_accepted_key(self) -> bool {
        match self.slot {
            Some(z) => secret_accepted(sealed_bytes(z)),
            None => true,
        }
    }

    /// The secret bytes held, if any.
    pub closed spec fn view(&self) -> Option<Seq<u8>> {
        match self.slot {
            Some(z) => Some(sealed_bytes(z)),
            None => None,
        }
    }

    /// The invariant of a store, read through its view.
    pub(crate) proof fn lemma_view_valid(self)
        requires
            self.holds_accepted_key(),
        ensures
            valid_state(self@),
    {
    }

    /// An empty store.
    pub fn new() -> (s: Self)
        ensures
            s@ is None,
    {
        KeyStore { slot: None }
    }

    /// Whether a key is resident.
    pub fn is_loaded(&self) -> (r: bool)
        ensures
            r == self@ is Some,
            valid_state(self@),
    {
        proof { use_type_invariant(self); }
        self.slot.is_some()
    }

    /// Replaces the content with `bytes`; the previous key's memory is wiped
    /// as its container is dropped.
    pub(crate) fn store(&mut self, bytes: &[u8; 32])
        requires
            secret_accepted(bytes@),
        ensures
            final(self)@ == Some(bytes@),
    {
        *self = KeyStore { slot: Some(seal(bytes)) };
    }

    /// Wipes the key, if any, and leaves the store empty. Clearing an empty
    /// store does nothing.
    pub fn clear(&mut self)
        ensures
            final(self)@ is None,
    {
        *self = KeyStore { slot: None };
    }

    /// Runs `f` on a signing key rebuilt from the stored bytes, which lives
    /// only for this call; fails with `NoKeyLoaded` when the store is empty.
    pub(crate) fn with_signing_key<T, F>(&self, f: F) -> (r: Result<T, KeyError>)
        where
            F: FnOnce(&TransientKey) -> Result<T, KeyError>,
        requires
            forall|k: &TransientKey| #[trigger] f.requires((k,)),
        ensures
            self@ is None ==> r == Err::<T, KeyError>(KeyError::NoKeyLoaded),
            self@ is Some ==> exists|k: &TransientKey|
                k.secret() == self@->0 && #[trigger] f.ensures((k,), r),
            valid_state(self@),
    {
        proof { use_type_invariant(self); }
        match &self.slot {
            None => Err(KeyError::NoKeyLoaded),
            Some(z) => {
                let bytes = unseal(z);
                match signing_key_from_bytes(bytes.as_slice()) {
                    Ok(k) => {
                        let r = f(&k);
                        assert(f.ensures((&k,), r));
                        r
                    },
                    Err(_) => Err(KeyError::InvalidKey),
                }
            },
        }
    }
}

} // verus!
