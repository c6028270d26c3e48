//! The token record: one per minted asset.

use scrypto::math::Decimal;
use vstd::prelude::*;

verus! {

/// `scrypto::math::Decimal`, a fixed-scale decimal number and a `Copy` type.
/// The library never looks inside a value of it: a value is stored, copied and
/// handed back, and nothing is claimed of what it holds.
#[verifier::external_type_specification]
#[verifier::external_body]
pub struct ExDecimal(Decimal);

/// What a token record is, as a mathematical value.
pub struct AssetDataView {
    pub asset_type: Seq<char>,
    pub unique_identifier: int,
    pub current_value: Decimal,
}

impl AssetDataView {
    /// The same record with another value; classification and identifier stay.
    pub open spec fn with_value(self, value: Decimal) -> AssetDataView {
        AssetDataView { current_value: value, ..self }
    }
}

/// The durable record of one minted asset. Its classification and its
/// identifier are fixed when it is created; only its value can change, and
/// only through the store that holds it.
#[derive(Debug)]
pub struct AssetData {
    asset_type: String,
    unique_identifier: i32,
    current_value: Decimal,
}

impl View for AssetData {
    type V = AssetDataView;

    closed spec fn view(&self) -> AssetDataView {
        AssetDataView {
            asset_type: self.asset_type@,
            unique_identifier: self.unique_identifier as int,
            current_value: self.current_value,
        }
    }
}

impl Clone for AssetData {
    fn clone(&self) -> (copy: Self)
        ensures
            copy@ == self@,
    {
        AssetData {
            asset_type: self.asset_type.clone(),
            unique_identifier: self.unique_identifier,
            current_value: self.current_value,
        }
    }
}

impl AssetData {
    /// A record with the given classification, identifier and value.
    pub fn new(asset_type: String, unique_identifier: i32, current_value: Decimal) -> (record: Self)
        ensures
            record@ == (AssetDataView {
                asset_type: asset_type@,
                unique_identifier: unique_identifier as int,
                current_value,
            }),
    {
        AssetData { asset_type, unique_identifier, current_value }
    }

    /// The classification of the asset.
    pub fn asset_type(&self) -> (asset_type: &String)
        ensures
            asset_type@ == self@.asset_type,
    {
        &self.asset_type
    }

    /// The identifier under which the asset was minted.
    pub fn unique_identifier(&self) -> (id: i32)
        ensures
            id as int == self@.unique_identifier,
    {
        self.unique_identifier
    }

    /// The value that the asset has now.
    pub fn current_value(&self) -> (value: Decimal)
        ensures
            value == self@.current_value,
    {
        self.current_value
    }

    /// Replaces the value and nothing else.
    pub(crate) fn set_current_value(&mut self, value: Decimal)
        ensures
            final(self)@ == old(self)@.with_value(value),
    {
        self.current_value = value;
    }
}

} // verus!
