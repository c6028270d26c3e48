//! The asset registry: the one authority that allocates identifiers, mints
//! records, updates their values and hands their bearer units on.

use crate::counter::IdentifierCounter;
use crate::error::RegistryError;
use crate::model::{
    lemma_duplicate_never_surfaces, lemma_step_preserves_well_formed, Operation, RegistryState,
};
use crate::record::AssetData;
use crate::store::AssetStore;
use scrypto::math::Decimal;
use vstd::prelude::*;

verus! {

/// What the authorization layer says of the caller of one operation: which of
/// the two capabilities that gate the registry's mutating operations the
/// caller holds.
#[derive(Clone, Copy, Debug, PartialEq, Eq, Structural)]
pub struct Capabilities {
    /// The caller may mint.
    pub minter: bool,
    /// The caller may update the value of a record.
    pub updater: bool,
}

/// What a holder answered when a unit was offered to it.
#[derive(Clone, Copy, Debug, PartialEq, Eq, Structural)]
pub enum DepositOutcome {
    /// The holder took the unit.
    Accepted,
    /// The holder refused the unit.
    Rejected,
}

/// Possession of one minted record. A unit cannot be copied and cannot be made
/// but by a mint: whoever has it has the record's single unit, until it is
/// handed to a holder.
#[derive(Debug)]
pub struct BearerUnit {
    unique_identifier: i32,
}

impl View for BearerUnit {
    type V = int;

    /// The identifier of the record that the unit stands for.
    closed spec fn view(&self) -> int {
        self.unique_identifier as int
    }
}

impl BearerUnit {
    /// The identifier of the record that the unit stands for.
    pub fn unique_identifier(&self) -> (id: i32)
        ensures
            id as int == self@,
    {
        self.unique_identifier
    }
}

/// An operation that was refused after the caller had handed in a unit: the
/// reason, and the unit, which goes back to the caller.
#[derive(Debug)]
pub struct Rejection {
    pub error: RegistryError,
    pub unit: BearerUnit,
}

/// The registry. It owns the identifier counter and the store of the records
/// it has minted, and shares neither.
pub struct AssetCollection {
    store: AssetStore,
    counter: IdentifierCounter,
}

impl View for AssetCollection {
    type V = RegistryState;

    closed spec fn view(&self) -> RegistryState {
        RegistryState { next_identifier: self.counter@, records: self.store@ }
    }
}

impl AssetCollection {
    /// A fresh registry: no record, and 1 as the first identifier. Each call
    /// gives a registry of its own.
    pub fn instantiate_asset_collection() -> (registry: Self)
        ensures
            registry@ == RegistryState::initial(),
            registry@.well_formed(),
    {
        AssetCollection { store: AssetStore::new(), counter: IdentifierCounter::new() }
    }

    /// The identifier that the next successful mint will return.
    pub fn next_identifier(&self) -> (next: i32)
        ensures
            next as int == self@.next_identifier,
    {
        self.counter.next()
    }

    /// Mints a record of the given classification and value under the next
    /// identifier, and returns its bearer unit. A caller without the minter
    /// capability is refused. Should the store already hold the identifier,
    /// which a well-formed registry excludes, the mint fails with
    /// `DuplicateIdentifier`. A mint that fails changes nothing.
    ///
    /// The counter is a machine integer: an authorized mint needs an
    /// identifier left after the one it issues.
    pub fn mint_asset(
        &mut self,
        caller: &Capabilities,
        asset_type: String,
        initial_value: Decimal,
    ) -> (result: Result<BearerUnit, RegistryError>)
        requires
            caller.minter ==> old(self)@.next_identifier < i32::MAX,
        ensures
            !caller.minter ==> result == Err::<BearerUnit, RegistryError>(
                RegistryError::Unauthorized,
            ) && final(self)@ == old(self)@,
            caller.minter && old(self)@.records.contains_key(old(self)@.next_identifier)
                ==> result == Err::<BearerUnit, RegistryError>(RegistryError::DuplicateIdentifier)
                && final(self)@ == old(self)@,
            caller.minter && !old(self)@.records.contains_key(old(self)@.next_identifier)
                ==> result is Ok && result->Ok_0@ == old(self)@.next_identifier && final(self)@
                == old(self)@.mint(asset_type@, initial_value),
            old(self)@.well_formed() ==> final(self)@.well_formed() && (caller.minter
                ==> result is Ok),
            ({
                let op = (Operation::Mint {
                    authorized: caller.minter,
                    asset_type: asset_type@,
                    initial_value,
                });
                &&& final(self)@ == old(self)@.step(op)
                &&& result is Ok ==> old(self)@.identifier_issued(op) == Some(result->Ok_0@)
                &&& result is Err ==> old(self)@.failure(op) == Some(result->Err_0)
            }),
    {
        if !caller.minter {
            return Err(RegistryError::Unauthorized);
        }
        proof {
            if self@.well_formed() {
                let op = Operation::Mint {
                    authorized: true,
                    asset_type: asset_type@,
                    initial_value,
                };
                lemma_duplicate_never_surfaces(self@, op);
                lemma_step_preserves_well_formed(self@, op);
            }
        }
        let asset_data = AssetData::new(asset_type, self.counter.next(), initial_value);
        match self.store.insert(self.counter.next(), asset_data) {
            Ok(()) => {
                let unique_identifier: i32 = self.counter.allocate();
                Ok(BearerUnit { unique_identifier })
            },
            Err(error) => Err(error),
        }
    }

    /// Replaces the value of the record that `unit` stands for, and hands the
    /// unit back. The unit comes back on failure too, inside the rejection: a
    /// caller without the updater capability gets `Unauthorized`, a unit whose
    /// identifier this registry does not hold gets `UnknownIdentifier`, and in
    /// both cases nothing changes.
    pub fn update_asset_value(
        &mut self,
        caller: &Capabilities,
        unit: BearerUnit,
        new_value: Decimal,
    ) -> (result: Result<BearerUnit, Rejection>)
        ensures
            !caller.updater ==> result == Err::<BearerUnit, Rejection>(
                Rejection { error: RegistryError::Unauthorized, unit },
            ) && final(self)@ == old(self)@,
            caller.updater && !old(self)@.records.contains_key(unit@) ==> result == Err::<
                BearerUnit,
                Rejection,
            >(Rejection { error: RegistryError::UnknownIdentifier, unit }) && final(self)@
                == old(self)@,
            caller.updater && old(self)@.records.contains_key(unit@) ==> result == Ok::<
                BearerUnit,
                Rejection,
            >(unit) && final(self)@ == old(self)@.update(unit@, new_value),
            old(self)@.well_formed() ==> final(self)@.well_formed(),
            ({
                let op = (Operation::Update { authorized: caller.updater, id: unit@, new_value });
                &&& final(self)@ == old(self)@.step(op)
                &&& result is Ok ==> old(self)@.failure(op) is None
                &&& result is Err ==> old(self)@.failure(op) == Some(result->Err_0.error)
            }),
    {
        if !caller.updater {
            return Err(Rejection { error: RegistryError::Unauthorized, unit });
        }
        proof {
            if self@.well_formed() {
                lemma_step_preserves_well_formed(
                    self@,
                    Operation::Update { authorized: true, id: unit@, new_value },
                );
            }
        }
        match self.store.update_field(unit.unique_identifier, new_value) {
            Ok(()) => Ok(unit),
            Err(error) => Err(Rejection { error, unit }),
        }
    }

    /// A copy of the record stored under `id`. Anyone may read; an
    /// identifier that was never issued gets `UnknownIdentifier`. The registry
    /// is not changed.
    pub fn get_asset_data(&self, id: i32) -> (result: Result<AssetData, RegistryError>)
        ensures
            self@.records.contains_key(id as int) ==> result is Ok && result->Ok_0@
                == self@.records[id as int],
            !self@.records.contains_key(id as int) ==> result == Err::<
                AssetData,
                RegistryError,
            >(RegistryError::UnknownIdentifier),
            self@.well_formed() ==> (result is Ok <==> self@.issued(id as int)),
            ({
                let op = (Operation::Query { id: id as int });
                &&& result is Ok ==> self@.failure(op) is None
                &&& result is Err ==> self@.failure(op) == Some(result->Err_0)
            }),
    {
        self.store.get(id)
    }

    /// Concludes the hand-over of a unit to a holder, given the holder's
    /// answer to the deposit. Where the holder took the unit, the unit is gone
    /// from the caller. Where it refused, the call fails with
    /// `DepositRejected` and the unit goes back to the caller inside the
    /// rejection. The registry is not changed either way.
    pub fn transfer_token(&self, deposit: DepositOutcome, unit: BearerUnit) -> (result: Result<
        (),
        Rejection,
    >)
        ensures
            deposit == DepositOutcome::Accepted ==> result == Ok::<(), Rejection>(()),
            deposit == DepositOutcome::Rejected ==> result == Err::<(), Rejection>(
                Rejection { error: RegistryError::DepositRejected, unit },
            ),
            ({
                let op = (Operation::Transfer {
                    id: unit@,
                    accepted: deposit == DepositOutcome::Accepted,
                });
                &&& result is Ok ==> self@.failure(op) is None
                &&& result is Err ==> self@.failure(op) == Some(result->Err_0.error)
            }),
    {
        match deposit {
            DepositOutcome::Accepted => Ok(()),
            DepositOutcome::Rejected => Err(
                Rejection { error: RegistryError::DepositRejected, unit },
            ),
        }
    }
}

} // verus!
