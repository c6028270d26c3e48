//! The registry as a mathematical state machine, and the laws that hold of it.
//!
//! The executable registry states its contracts over `RegistryState` and the
//! functions `mint` and `update` defined here. `step` puts them together into
//! one transition per operation, so that the laws can speak of any sequence of
//! operations.

use crate::error::RegistryError;
use crate::record::AssetDataView;
use scrypto::math::Decimal;
use vstd::prelude::*;

verus! {

/// What a registry is: the identifier that the next mint will issue, and the
/// records minted so far.
pub struct RegistryState {
    pub next_identifier: int,
    pub records: Map<int, AssetDataView>,
}

/// One call on a registry, with everything that decides its effect.
pub enum Operation {
    /// A mint by a caller who holds the minter capability or not.
    Mint { authorized: bool, asset_type: Seq<char>, initial_value: Decimal },
    /// A value update through the unit of the record `id`.
    Update { authorized: bool, id: int, new_value: Decimal },
    /// A read of the record `id`.
    Query { id: int },
    /// The hand-over of the unit of the record `id` to a holder that accepts
    /// it or not.
    Transfer { id: int, accepted: bool },
}

impl RegistryState {
    /// A registry that has minted nothing.
    pub open spec fn initial() -> RegistryState {
        RegistryState { next_identifier: 1, records: Map::empty() }
    }

    /// Whether `id` has been issued by a mint.
    pub open spec fn issued(self, id: int) -> bool {
        1 <= id < self.next_identifier
    }

    /// The registry's invariant: the records are exactly those of the
    /// identifiers issued so far, which are 1, 2, ... up to but excluding
    /// `next_identifier`, and each record carries the identifier it is stored
    /// under.
    pub open spec fn well_formed(self) -> bool {
        &&& self.next_identifier >= 1
        &&& forall|id: int| #[trigger] self.records.contains_key(id) <==> self.issued(id)
        &&& forall|id: int| #[trigger]
            self.records.contains_key(id) ==> self.records[id].unique_identifier == id
    }

    /// The state after a successful mint: the record enters under the next
    /// identifier, and the counter advances by one.
    pub open spec fn mint(self, asset_type: Seq<char>, initial_value: Decimal) -> RegistryState {
        RegistryState {
            next_identifier: self.next_identifier + 1,
            records: self.records.insert(
                self.next_identifier,
                AssetDataView {
                    asset_type,
                    unique_identifier: self.next_identifier,
                    current_value: initial_value,
                },
            ),
        }
    }

    /// The state after an update of the record `id`: its value is replaced. A
    /// state that holds no such record stays as it is.
    pub open spec fn update(self, id: int, new_value: Decimal) -> RegistryState {
        if self.records.contains_key(id) {
            RegistryState {
                next_identifier: self.next_identifier,
                records: self.records.insert(id, self.records[id].with_value(new_value)),
            }
        } else {
            self
        }
    }

    /// The state after one operation. Only an authorized mint and an
    /// authorized update change anything; a mint that finds its identifier
    /// taken changes nothing.
    pub open spec fn step(self, op: Operation) -> RegistryState {
        match op {
            Operation::Mint { authorized, asset_type, initial_value } => if authorized
                && !self.records.contains_key(self.next_identifier) {
                self.mint(asset_type, initial_value)
            } else {
                self
            },
            Operation::Update { authorized, id, new_value } => if authorized {
                self.update(id, new_value)
            } else {
                self
            },
            Operation::Query { id } => self,
            Operation::Transfer { id, accepted } => self,
        }
    }

    /// The error with which an operation fails in this state, if it fails.
    pub open spec fn failure(self, op: Operation) -> Option<RegistryError> {
        match op {
            Operation::Mint { authorized, asset_type, initial_value } => if !authorized {
                Some(RegistryError::Unauthorized)
            } else if self.records.contains_key(self.next_identifier) {
                Some(RegistryError::DuplicateIdentifier)
            } else {
                None
            },
            Operation::Update { authorized, id, new_value } => if !authorized {
                Some(RegistryError::Unauthorized)
            } else if !self.records.contains_key(id) {
                Some(RegistryError::UnknownIdentifier)
            } else {
                None
            },
            Operation::Query { id } => if self.records.contains_key(id) {
                None
            } else {
                Some(RegistryError::UnknownIdentifier)
            },
            Operation::Transfer { id, accepted } => if accepted {
                None
            } else {
                Some(RegistryError::DepositRejected)
            },
        }
    }

    /// The identifier that an operation hands out in this state: that of the
    /// new record for a mint that succeeds, none for anything else.
    pub open spec fn identifier_issued(self, op: Operation) -> Option<int> {
        match op {
            Operation::Mint { authorized, asset_type, initial_value } => if authorized
                && !self.records.contains_key(self.next_identifier) {
                Some(self.next_identifier)
            } else {
                None
            },
            _ => None,
        }
    }

    /// The state after a sequence of operations, applied in order.
    pub open spec fn run(self, ops: Seq<Operation>) -> RegistryState
        decreases ops.len(),
    {
        if ops.len() == 0 {
            self
        } else {
            self.run(ops.drop_last()).step(ops.last())
        }
    }

    /// The identifiers handed out by a sequence of operations, in call order.
    pub open spec fn identifiers_issued(self, ops: Seq<Operation>) -> Seq<int>
        decreases ops.len(),
    {
        if ops.len() == 0 {
            Seq::empty()
        } else {
            let earlier = self.identifiers_issued(ops.drop_last());
            match self.run(ops.drop_last()).identifier_issued(ops.last()) {
                Some(id) => earlier.push(id),
                None => earlier,
            }
        }
    }
}

/// A fresh registry is well formed.
pub proof fn lemma_initial_well_formed()
    ensures
        RegistryState::initial().well_formed(),
        RegistryState::initial().records.dom().finite(),
        RegistryState::initial().records.len() == 0,
{
}

/// Every operation keeps the invariant.
pub proof fn lemma_step_preserves_well_formed(state: RegistryState, op: Operation)
    requires
        state.well_formed(),
    ensures
        state.step(op).well_formed(),
{
}

/// On a well-formed registry the next identifier is free: no operation fails
/// with `DuplicateIdentifier`, and an authorized mint succeeds.
pub proof fn lemma_duplicate_never_surfaces(state: RegistryState, op: Operation)
    requires
        state.well_formed(),
    ensures
        state.failure(op) != Some(RegistryError::DuplicateIdentifier),
        !state.records.contains_key(state.next_identifier),
        op matches Operation::Mint { authorized, .. } && authorized ==> state.failure(op) is None
            && state.identifier_issued(op) == Some(state.next_identifier),
{
    assert(!state.issued(state.next_identifier));
}

/// Every sequence of operations keeps the invariant, and the counter never
/// goes back.
pub proof fn lemma_run_preserves_well_formed(state: RegistryState, ops: Seq<Operation>)
    requires
        state.well_formed(),
    ensures
        state.run(ops).well_formed(),
        state.run(ops).next_identifier >= state.next_identifier,
    decreases ops.len(),
{
    if ops.len() > 0 {
        lemma_run_preserves_well_formed(state, ops.drop_last());
        lemma_step_preserves_well_formed(state.run(ops.drop_last()), ops.last());
    }
}

/// The counter is strictly greater than every identifier under which a record
/// is held, and the identifiers held are exactly 1, 2, ... with no gap.
pub proof fn lemma_identifiers_gap_free(state: RegistryState, id: int)
    requires
        state.well_formed(),
    ensures
        state.records.contains_key(id) ==> 1 <= id < state.next_identifier,
        1 <= id < state.next_identifier ==> state.records.contains_key(id)
            && state.records[id].unique_identifier == id,
{
}

/// The identifiers handed out by any sequence of operations on a registry are
/// consecutive, starting at the registry's counter, whatever updates, queries,
/// transfers and refused calls stand between the mints; and the counter has
/// advanced by exactly the number of identifiers handed out.
pub proof fn lemma_identifiers_consecutive(state: RegistryState, ops: Seq<Operation>)
    ensures
        state.run(ops).next_identifier == state.next_identifier + state.identifiers_issued(
            ops,
        ).len(),
        forall|k: int|
            0 <= k < state.identifiers_issued(ops).len() ==> #[trigger] state.identifiers_issued(
                ops,
            )[k] == state.next_identifier + k,
    decreases ops.len(),
{
    if ops.len() > 0 {
        lemma_identifiers_consecutive(state, ops.drop_last());
    }
}

/// On a fresh registry the mints that succeed return 1, 2, 3, ... in call
/// order, without gap or repeat, however they are interleaved with other
/// operations.
pub proof fn lemma_fresh_registry_issues_one_two_three(ops: Seq<Operation>)
    ensures
        RegistryState::initial().identifiers_issued(ops) == Seq::new(
            RegistryState::initial().identifiers_issued(ops).len(),
            |k: int| k + 1,
        ),
{
    lemma_identifiers_consecutive(RegistryState::initial(), ops);
    assert(RegistryState::initial().identifiers_issued(ops) =~= Seq::new(
        RegistryState::initial().identifiers_issued(ops).len(),
        |k: int| k + 1,
    ));
}

/// Right after a mint, the record stored under the identifier that the mint
/// returned carries the classification and the value that were passed in, and
/// that identifier. Records minted before are untouched.
pub proof fn lemma_minted_record_readable(
    state: RegistryState,
    asset_type: Seq<char>,
    initial_value: Decimal,
)
    requires
        state.well_formed(),
    ensures
        state.mint(asset_type, initial_value).records.contains_key(state.next_identifier),
        state.mint(asset_type, initial_value).records[state.next_identifier] == (AssetDataView {
            asset_type,
            unique_identifier: state.next_identifier,
            current_value: initial_value,
        }),
        forall|id: int| #[trigger]
            state.records.contains_key(id) ==> state.mint(asset_type, initial_value).records[id]
                == state.records[id],
{
}

/// An update changes neither the classification nor the identifier of the
/// record it is applied to, sets its value, and touches no other record and
/// not the counter.
pub proof fn lemma_update_changes_value_only(state: RegistryState, id: int, new_value: Decimal)
    requires
        state.records.contains_key(id),
    ensures
        state.update(id, new_value).next_identifier == state.next_identifier,
        state.update(id, new_value).records.dom() == state.records.dom(),
        state.update(id, new_value).records[id].asset_type == state.records[id].asset_type,
        state.update(id, new_value).records[id].unique_identifier
            == state.records[id].unique_identifier,
        state.update(id, new_value).records[id].current_value == new_value,
        forall|other: int|
            other != id && #[trigger] state.records.contains_key(other) ==> state.update(
                id,
                new_value,
            ).records[other] == state.records[other],
{
    assert(state.update(id, new_value).records.dom() =~= state.records.dom());
}

/// Applying the same update twice leaves the registry as applying it once.
pub proof fn lemma_update_idempotent(state: RegistryState, id: int, new_value: Decimal)
    ensures
        state.update(id, new_value).update(id, new_value) == state.update(id, new_value),
{
    if state.records.contains_key(id) {
        assert(state.update(id, new_value).update(id, new_value).records =~= state.update(
            id,
            new_value,
        ).records);
    }
}

/// An update or a query that names an identifier never issued fails with
/// `UnknownIdentifier`, and the registry is left as it was.
pub proof fn lemma_unissued_identifier_unknown(
    state: RegistryState,
    id: int,
    new_value: Decimal,
)
    requires
        state.well_formed(),
        !state.issued(id),
    ensures
        !state.records.contains_key(id),
        state.failure(Operation::Update { authorized: true, id, new_value }) == Some(
            RegistryError::UnknownIdentifier,
        ),
        state.failure(Operation::Query { id }) == Some(RegistryError::UnknownIdentifier),
        state.step(Operation::Update { authorized: true, id, new_value }) == state,
        state.step(Operation::Query { id }) == state,
{
}

/// A mint without the minter capability fails with `Unauthorized` and leaves
/// the registry as it was, so that the next authorized mint receives the
/// identifier it would have received had the refused call never been made.
pub proof fn lemma_refused_mint_keeps_counter(
    state: RegistryState,
    refused_type: Seq<char>,
    refused_value: Decimal,
    asset_type: Seq<char>,
    initial_value: Decimal,
)
    ensures
        state.failure(
            Operation::Mint {
                authorized: false,
                asset_type: refused_type,
                initial_value: refused_value,
            },
        ) == Some(RegistryError::Unauthorized),
        state.step(
            Operation::Mint {
                authorized: false,
                asset_type: refused_type,
                initial_value: refused_value,
            },
        ) == state,
        state.step(
            Operation::Mint {
                authorized: false,
                asset_type: refused_type,
                initial_value: refused_value,
            },
        ).identifier_issued(Operation::Mint { authorized: true, asset_type, initial_value })
            == state.identifier_issued(
            Operation::Mint { authorized: true, asset_type, initial_value },
        ),
{
}

/// An operation that fails leaves the registry as it was.
pub proof fn lemma_failure_changes_nothing(state: RegistryState, op: Operation)
    requires
        state.failure(op) is Some,
    ensures
        state.step(op) == state,
        state.identifier_issued(op) is None,
{
}

} // verus!
