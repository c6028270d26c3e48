//! The token record store: the minted records, keyed by identifier.

use crate::error::RegistryError;
use crate::record::{AssetData, AssetDataView};
use scrypto::math::Decimal;
use std::collections::HashMap;
use vstd::prelude::*;

verus! {

broadcast use vstd::std_specs::hash::group_hash_axioms;

/// Holds the minted records, each under its identifier. A record enters once,
/// through `insert`; afterwards only its value can be replaced, through
/// `update_field`; nothing is ever removed.
pub struct AssetStore {
    records: HashMap<i32, AssetData>,
}

impl View for AssetStore {
    type V = Map<int, AssetDataView>;

    closed spec fn view(&self) -> Map<int, AssetDataView> {
        Map::new(
            |id: int| i32::MIN <= id <= i32::MAX && self.records@.contains_key(id as i32),
            |id: int| self.records@[id as i32]@,
        )
    }
}

impl AssetStore {
    /// A store that holds no record.
    pub fn new() -> (store: Self)
        ensures
            store@ == Map::<int, AssetDataView>::empty(),
    {
        let store = AssetStore { records: HashMap::new() };
        assert(store@ =~= Map::<int, AssetDataView>::empty());
        store
    }

    /// Whether a record is stored under `id`.
    pub fn contains(&self, id: i32) -> (present: bool)
        ensures
            present == self@.contains_key(id as int),
    {
        self.records.contains_key(&id)
    }

    /// Stores `record` under `id`, unless the identifier is already taken.
    pub fn insert(&mut self, id: i32, record: AssetData) -> (result: Result<(), RegistryError>)
        ensures
            old(self)@.contains_key(id as int) ==> result == Err::<(), RegistryError>(
                RegistryError::DuplicateIdentifier,
            ) && final(self)@ == old(self)@,
            !old(self)@.contains_key(id as int) ==> result == Ok::<(), RegistryError>(())
                && final(self)@ == old(self)@.insert(id as int, record@),
    {
        if self.records.contains_key(&id) {
            return Err(RegistryError::DuplicateIdentifier);
        }
        let ghost before = self@;
        let ghost added = record@;
        self.records.insert(id, record);
        assert(self@ =~= before.insert(id as int, added));
        Ok(())
    }

    /// Replaces the value of the record stored under `id`, leaving its
    /// classification and its identifier as they are.
    pub fn update_field(&mut self, id: i32, new_value: Decimal) -> (result: Result<
        (),
        RegistryError,
    >)
        ensures
            old(self)@.contains_key(id as int) ==> result == Ok::<(), RegistryError>(())
                && final(self)@ == old(self)@.insert(
                id as int,
                old(self)@[id as int].with_value(new_value),
            ),
            !old(self)@.contains_key(id as int) ==> result == Err::<(), RegistryError>(
                RegistryError::UnknownIdentifier,
            ) && final(self)@ == old(self)@,
    {
        let ghost before = self@;
        let mut updated = match self.records.get(&id) {
            Some(record) => record.clone(),
            None => {
                return Err(RegistryError::UnknownIdentifier);
            },
        };
        updated.set_current_value(new_value);
        let ghost after = updated@;
        self.records.insert(id, updated);
        assert(self@ =~= before.insert(id as int, after));
        Ok(())
    }

    /// A copy of the record stored under `id`. The copy is the caller's own:
    /// nothing done to it reaches the store.
    pub fn get(&self, id: i32) -> (result: Result<AssetData, RegistryError>)
        ensures
            match result {
                Ok(record) => self@.contains_key(id as int) && record@ == self@[id as int],
                Err(error) => error == RegistryError::UnknownIdentifier && !self@.contains_key(
                    id as int,
                ),
            },
    {
        match self.records.get(&id) {
            Some(record) => Ok(record.clone()),
            None => Err(RegistryError::UnknownIdentifier),
        }
    }

    /// How many records the store holds.
    pub fn len(&self) -> (count: usize)
        ensures
            count == self@.len(),
            self@.dom().finite(),
    {
        proof {
            self.lemma_view_counts_records();
        }
        self.records.len()
    }

    /// The store's view has as many entries as the map that backs it.
    proof fn lemma_view_counts_records(&self)
        ensures
            self@.dom().finite(),
            self@.len() == self.records@.len(),
    {
        let keys = self.records@.dom();
        let widen = |k: i32| k as int;
        assert(self@.dom() =~= keys.map(widen)) by {
            assert forall|id: int| self@.dom().contains(id) implies keys.map(widen).contains(
                id,
            ) by {
                assert(keys.contains(id as i32) && widen(id as i32) == id);
            }
        }
        assert(vstd::relations::injective_on(widen, keys));
        vstd::set_lib::lemma_map_size(keys, self@.dom(), widen);
    }
}

} // verus!
