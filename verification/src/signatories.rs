//! A registry of signatories kept in a ledger storage map: who may sign, and
//! how many signatures an action needs.

use crate::identity::Identity;
use ink_env::AccountId;
use ink_storage::collections::HashMap as StorageHashMap;
use vstd::prelude::*;

verus! {

/// The storage map of the registry, from a signatory's account to a flag.
/// It is a `HashMap` of `ink_storage::collections`, which Verus does not
/// look into: what it holds is named by `signatory_entries`.
#[verifier::external_body]
pub struct SignatoryMap {
    inner: StorageHashMap<AccountId, bool>,
}

/// The entries of a storage map, each key as the identity whose bytes the
/// account has.
pub uninterp spec fn signatory_entries(map: SignatoryMap) -> Map<Identity, bool>;

/// `HashMap::new` of `ink_storage::collections`: a map without entries.
#[verifier::external_body]
fn storage_new() -> (map: SignatoryMap)
    ensures
        signatory_entries(map) == (Map::<Identity, bool>::empty()),
{
    SignatoryMap { inner: StorageHashMap::new() }
}

/// `HashMap::insert` of `ink_storage::collections`: the key is bound to the
/// value, whatever it was bound to before. The map numbers its entries in 32
/// bits, so a full map is left out.
#[verifier::external_body]
fn storage_insert(map: &mut SignatoryMap, key: &Identity, value: bool)
    requires
        signatory_entries(*old(map)).dom().finite(),
        signatory_entries(*old(map)).dom().len() < u32::MAX,
    ensures
        signatory_entries(*final(map)) == signatory_entries(*old(map)).insert(*key, value),
{
    map.inner.insert(AccountId::from(key.bytes), value);
}

/// `HashMap::contains_key` of `ink_storage::collections`: whether the key
/// is bound.
#[verifier::external_body]
fn storage_contains_key(map: &SignatoryMap, key: &Identity) -> (bound: bool)
    ensures
        bound == signatory_entries(*map).dom().contains(*key),
{
    map.inner.contains_key(&AccountId::from(key.bytes))
}

/// `HashMap::take` of `ink_storage::collections`: the key is bound no more,
/// and every other key is bound as before.
#[verifier::external_body]
fn storage_take(map: &mut SignatoryMap, key: &Identity)
    ensures
        signatory_entries(*final(map)) == signatory_entries(*old(map)).remove(*key),
{
    map.inner.take(&AccountId::from(key.bytes));
}

/// What a registry holds: the set of signatories and the number of
/// signatures required.
pub struct Registry {
    pub signatories: Set<Identity>,
    pub required_signatures: u32,
}

/// A registry of signatories.
pub struct MultisigWallet {
    signatories: SignatoryMap,
    required_signatures: u32,
}

impl View for MultisigWallet {
    type V = Registry;

    closed spec fn view(&self) -> Registry {
        Registry {
            signatories: signatory_entries(self.signatories).dom(),
            required_signatures: self.required_signatures,
        }
    }
}

impl MultisigWallet {
    /// The registry of the given signatories; one named twice is held once.
    /// The storage map numbers its entries in 32 bits, so the list may not
    /// be longer than that.
    pub fn new(signatories: Vec<Identity>, required_signatures: u32) -> (wallet: Self)
        requires
            signatories.len() <= u32::MAX,
        ensures
            wallet@.signatories == signatories@.to_set(),
            wallet@.required_signatures == required_signatures,
    {
        let mut map = storage_new();
        let mut i: usize = 0;
        while i < signatories.len()
            invariant
                i <= signatories.len() <= u32::MAX,
                signatory_entries(map).dom() == signatories@.take(i as int).to_set(),
                signatory_entries(map).dom().finite(),
                signatory_entries(map).dom().len() <= i,
            decreases signatories.len() - i,
        {
            let signatory = signatories[i];
            storage_insert(&mut map, &signatory, true);
            proof {
                assert(signatories@.take(i + 1) =~= signatories@.take(i as int).push(signatory));
                signatories@.take(i as int).lemma_push_to_set_commute(signatory);
            }
            i += 1;
        }
        proof {
            assert(signatories@.take(i as int) =~= signatories@);
        }
        MultisigWallet { signatories: map, required_signatures }
    }

    /// Takes `signatory` out of the registry. The number of signatures
    /// required stays as it is, whatever the number of signatories left.
    pub fn remove_signatory(&mut self, signatory: Identity) -> (result: Result<(), &'static str>)
        ensures
            match result {
                Ok(()) => {
                    &&& old(self)@.signatories.contains(signatory)
                    &&& final(self)@.signatories == old(self)@.signatories.remove(signatory)
                    &&& final(self)@.required_signatures == old(self)@.required_signatures
                },
                Err(text) => {
                    &&& !old(self)@.signatories.contains(signatory)
                    &&& final(self)@ == old(self)@
                    &&& text@ == "Signatory not found"@
                },
            },
    {
        if !storage_contains_key(&self.signatories, &signatory) {
            return Err("Signatory not found");
        }
        storage_take(&mut self.signatories, &signatory);
        Ok(())
    }

    /// Whether `signatory` is in the registry.
    pub fn is_signatory(&self, signatory: Identity) -> (found: bool)
        ensures
            found == self@.signatories.contains(signatory),
    {
        storage_contains_key(&self.signatories, &signatory)
    }

    /// The number of signatures required.
    pub fn get_required_signatures(&self) -> (required: u32)
        ensures
            required == self@.required_signatures,
    {
        self.required_signatures
    }
}

} // verus!
