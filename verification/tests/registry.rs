use asset_registry::{
    AssetCollection, AssetData, BearerUnit, Capabilities, DepositOutcome, RegistryError,
};
use scrypto::math::Decimal;

const ANYONE: Capabilities = Capabilities { minter: true, updater: true };
const NOBODY: Capabilities = Capabilities { minter: false, updater: false };
const MINTER_ONLY: Capabilities = Capabilities { minter: true, updater: false };
const UPDATER_ONLY: Capabilities = Capabilities { minter: false, updater: true };

fn decimal(text: &str) -> Decimal {
    Decimal::try_from(text).unwrap()
}

fn mint(registry: &mut AssetCollection, asset_type: &str, value: Decimal) -> BearerUnit {
    assert!(registry.next_identifier() < i32::MAX);
    registry.mint_asset(&ANYONE, asset_type.to_string(), value).unwrap()
}

fn read(registry: &AssetCollection, id: i32) -> AssetData {
    registry.get_asset_data(id).unwrap()
}

#[test]
fn fresh_registry_starts_at_one_and_holds_nothing() {
    let registry = AssetCollection::instantiate_asset_collection();
    assert_eq!(registry.next_identifier(), 1);
    assert_eq!(registry.get_asset_data(1).unwrap_err(), RegistryError::UnknownIdentifier);
    assert_eq!(registry.get_asset_data(0).unwrap_err(), RegistryError::UnknownIdentifier);
}

#[test]
fn registries_are_independent() {
    let mut first = AssetCollection::instantiate_asset_collection();
    let mut second = AssetCollection::instantiate_asset_collection();
    assert_eq!(mint(&mut first, "land", Decimal::from(1)).unique_identifier(), 1);
    assert_eq!(mint(&mut first, "land", Decimal::from(2)).unique_identifier(), 2);
    assert_eq!(second.next_identifier(), 1);
    assert_eq!(mint(&mut second, "gold", Decimal::from(3)).unique_identifier(), 1);
    assert_eq!(read(&first, 1).asset_type(), "land");
    assert_eq!(read(&second, 1).asset_type(), "gold");
    assert_eq!(second.get_asset_data(2).unwrap_err(), RegistryError::UnknownIdentifier);
}

#[test]
fn successive_mints_return_one_two_three() {
    let mut registry = AssetCollection::instantiate_asset_collection();
    for expected in 1..=50 {
        let unit = mint(&mut registry, "bond", Decimal::from(expected));
        assert_eq!(unit.unique_identifier(), expected);
        assert_eq!(registry.next_identifier(), expected + 1);
    }
}

#[test]
fn identifiers_stay_sequential_between_updates_queries_and_refusals() {
    let mut registry = AssetCollection::instantiate_asset_collection();
    let first = mint(&mut registry, "a", Decimal::from(10));
    assert_eq!(first.unique_identifier(), 1);
    let first = registry.update_asset_value(&ANYONE, first, Decimal::from(11)).unwrap();
    assert_eq!(read(&registry, 1).current_value(), Decimal::from(11));
    assert!(registry.get_asset_data(7).is_err());
    assert!(registry.mint_asset(&NOBODY, "x".to_string(), Decimal::from(0)).is_err());
    let second = mint(&mut registry, "b", Decimal::from(20));
    assert_eq!(second.unique_identifier(), 2);
    assert!(registry.transfer_token(DepositOutcome::Accepted, first).is_ok());
    let rejection = registry.transfer_token(DepositOutcome::Rejected, second).unwrap_err();
    assert!(registry.update_asset_value(&NOBODY, rejection.unit, Decimal::from(1)).is_err());
    let third = mint(&mut registry, "c", Decimal::from(30));
    assert_eq!(third.unique_identifier(), 3);
    assert_eq!(registry.next_identifier(), 4);
}

#[test]
fn discarded_unit_does_not_free_its_identifier() {
    let mut registry = AssetCollection::instantiate_asset_collection();
    let unit = mint(&mut registry, "a", Decimal::from(1));
    drop(unit);
    assert_eq!(mint(&mut registry, "b", Decimal::from(2)).unique_identifier(), 2);
    assert_eq!(read(&registry, 1).asset_type(), "a");
}

#[test]
fn record_read_after_mint_carries_the_arguments() {
    let mut registry = AssetCollection::instantiate_asset_collection();
    let _ = mint(&mut registry, "vehicle", decimal("12.5"));
    let unit = mint(&mut registry, "real_estate", decimal("160"));
    let record = read(&registry, unit.unique_identifier());
    assert_eq!(record.asset_type(), "real_estate");
    assert_eq!(record.unique_identifier(), 2);
    assert_eq!(record.unique_identifier(), unit.unique_identifier());
    assert_eq!(record.current_value(), decimal("160"));
    let earlier = read(&registry, 1);
    assert_eq!(earlier.asset_type(), "vehicle");
    assert_eq!(earlier.unique_identifier(), 1);
    assert_eq!(earlier.current_value(), decimal("12.5"));
}

#[test]
fn mint_keeps_empty_type_and_extreme_values() {
    let mut registry = AssetCollection::instantiate_asset_collection();
    let _ = mint(&mut registry, "", Decimal::MAX);
    let _ = mint(&mut registry, "debt", Decimal::MIN);
    let _ = mint(&mut registry, "nothing", Decimal::ZERO);
    assert_eq!(read(&registry, 1).asset_type(), "");
    assert_eq!(read(&registry, 1).current_value(), Decimal::MAX);
    assert_eq!(read(&registry, 2).current_value(), Decimal::MIN);
    assert_eq!(read(&registry, 3).current_value(), Decimal::ZERO);
}

#[test]
fn update_changes_the_value_and_nothing_else() {
    let mut registry = AssetCollection::instantiate_asset_collection();
    let first = mint(&mut registry, "art", Decimal::from(50));
    let second = mint(&mut registry, "wine", Decimal::from(7));
    let second = registry.update_asset_value(&ANYONE, second, decimal("7.25")).unwrap();
    assert_eq!(second.unique_identifier(), 2);
    let record = read(&registry, 2);
    assert_eq!(record.asset_type(), "wine");
    assert_eq!(record.unique_identifier(), 2);
    assert_eq!(record.current_value(), decimal("7.25"));
    let untouched = read(&registry, first.unique_identifier());
    assert_eq!(untouched.asset_type(), "art");
    assert_eq!(untouched.current_value(), Decimal::from(50));
    assert_eq!(registry.next_identifier(), 3);
}

#[test]
fn same_update_twice_equals_once() {
    let mut registry = AssetCollection::instantiate_asset_collection();
    let unit = mint(&mut registry, "art", Decimal::from(50));
    let unit = registry.update_asset_value(&ANYONE, unit, Decimal::from(75)).unwrap();
    let once = read(&registry, 1);
    let unit = registry.update_asset_value(&ANYONE, unit, Decimal::from(75)).unwrap();
    let twice = read(&registry, 1);
    assert_eq!(unit.unique_identifier(), 1);
    assert_eq!(once.asset_type(), twice.asset_type());
    assert_eq!(once.unique_identifier(), twice.unique_identifier());
    assert_eq!(once.current_value(), twice.current_value());
    assert_eq!(twice.current_value(), Decimal::from(75));
}

#[test]
fn later_update_replaces_earlier_one() {
    let mut registry = AssetCollection::instantiate_asset_collection();
    let unit = mint(&mut registry, "art", Decimal::from(50));
    let unit = registry.update_asset_value(&ANYONE, unit, Decimal::from(75)).unwrap();
    let _ = registry.update_asset_value(&ANYONE, unit, Decimal::from(60)).unwrap();
    assert_eq!(read(&registry, 1).current_value(), Decimal::from(60));
}

#[test]
fn update_with_foreign_unit_fails_and_returns_the_unit() {
    let mut issuer = AssetCollection::instantiate_asset_collection();
    let _ = mint(&mut issuer, "a", Decimal::from(1));
    let foreign = mint(&mut issuer, "b", Decimal::from(2));
    let mut registry = AssetCollection::instantiate_asset_collection();
    let _ = mint(&mut registry, "only", Decimal::from(9));
    let rejection = registry.update_asset_value(&ANYONE, foreign, Decimal::from(5)).unwrap_err();
    assert_eq!(rejection.error, RegistryError::UnknownIdentifier);
    assert_eq!(rejection.unit.unique_identifier(), 2);
    assert_eq!(registry.next_identifier(), 2);
    assert_eq!(read(&registry, 1).current_value(), Decimal::from(9));
    assert_eq!(registry.get_asset_data(2).unwrap_err(), RegistryError::UnknownIdentifier);
    let back = issuer.update_asset_value(&ANYONE, rejection.unit, Decimal::from(5)).unwrap();
    assert_eq!(back.unique_identifier(), 2);
    assert_eq!(read(&issuer, 2).current_value(), Decimal::from(5));
}

#[test]
fn query_of_unissued_identifier_fails() {
    let mut registry = AssetCollection::instantiate_asset_collection();
    let _ = mint(&mut registry, "a", Decimal::from(1));
    for id in [0, -1, 2, 3, i32::MAX, i32::MIN] {
        assert_eq!(registry.get_asset_data(id).unwrap_err(), RegistryError::UnknownIdentifier);
    }
    assert_eq!(registry.next_identifier(), 2);
    assert_eq!(read(&registry, 1).current_value(), Decimal::from(1));
}

#[test]
fn query_returns_a_copy() {
    let mut registry = AssetCollection::instantiate_asset_collection();
    let unit = mint(&mut registry, "a", Decimal::from(1));
    let snapshot = read(&registry, 1);
    let _ = registry.update_asset_value(&ANYONE, unit, Decimal::from(2)).unwrap();
    assert_eq!(snapshot.current_value(), Decimal::from(1));
    assert_eq!(read(&registry, 1).current_value(), Decimal::from(2));
    let copy = snapshot.clone();
    assert_eq!(copy.asset_type(), "a");
    assert_eq!(copy.unique_identifier(), 1);
    assert_eq!(copy.current_value(), Decimal::from(1));
}

#[test]
fn unauthorized_mint_fails_and_keeps_the_counter() {
    let mut registry = AssetCollection::instantiate_asset_collection();
    let refused = registry.mint_asset(&NOBODY, "a".to_string(), Decimal::from(1));
    assert_eq!(refused.unwrap_err(), RegistryError::Unauthorized);
    assert_eq!(registry.next_identifier(), 1);
    assert!(registry.get_asset_data(1).is_err());
    let refused = registry.mint_asset(&UPDATER_ONLY, "a".to_string(), Decimal::from(1));
    assert_eq!(refused.unwrap_err(), RegistryError::Unauthorized);
    assert_eq!(registry.next_identifier(), 1);
    let unit = mint(&mut registry, "b", Decimal::from(2));
    assert_eq!(unit.unique_identifier(), 1);
    assert_eq!(read(&registry, 1).asset_type(), "b");
}

#[test]
fn minter_capability_alone_is_enough_to_mint() {
    let mut registry = AssetCollection::instantiate_asset_collection();
    let unit = registry.mint_asset(&MINTER_ONLY, "a".to_string(), Decimal::from(1)).unwrap();
    assert_eq!(unit.unique_identifier(), 1);
}

#[test]
fn unauthorized_update_fails_and_keeps_the_value() {
    let mut registry = AssetCollection::instantiate_asset_collection();
    let unit = mint(&mut registry, "a", Decimal::from(1));
    let rejection = registry.update_asset_value(&MINTER_ONLY, unit, Decimal::from(2)).unwrap_err();
    assert_eq!(rejection.error, RegistryError::Unauthorized);
    assert_eq!(rejection.unit.unique_identifier(), 1);
    assert_eq!(read(&registry, 1).current_value(), Decimal::from(1));
    let unit = registry.update_asset_value(&UPDATER_ONLY, rejection.unit, Decimal::from(2)).unwrap();
    assert_eq!(unit.unique_identifier(), 1);
    assert_eq!(read(&registry, 1).current_value(), Decimal::from(2));
}

#[test]
fn authorization_comes_before_the_identifier() {
    let mut issuer = AssetCollection::instantiate_asset_collection();
    let foreign = mint(&mut issuer, "a", Decimal::from(1));
    let mut registry = AssetCollection::instantiate_asset_collection();
    let rejection = registry.update_asset_value(&NOBODY, foreign, Decimal::from(2)).unwrap_err();
    assert_eq!(rejection.error, RegistryError::Unauthorized);
    assert_eq!(rejection.unit.unique_identifier(), 1);
}

#[test]
fn accepted_transfer_consumes_the_unit() {
    let mut registry = AssetCollection::instantiate_asset_collection();
    let unit = mint(&mut registry, "a", Decimal::from(1));
    assert!(registry.transfer_token(DepositOutcome::Accepted, unit).is_ok());
    assert_eq!(read(&registry, 1).current_value(), Decimal::from(1));
    assert_eq!(registry.next_identifier(), 2);
}

#[test]
fn rejected_transfer_returns_the_unit() {
    let mut registry = AssetCollection::instantiate_asset_collection();
    let _ = mint(&mut registry, "a", Decimal::from(1));
    let unit = mint(&mut registry, "b", Decimal::from(2));
    let rejection = registry.transfer_token(DepositOutcome::Rejected, unit).unwrap_err();
    assert_eq!(rejection.error, RegistryError::DepositRejected);
    assert_eq!(rejection.unit.unique_identifier(), 2);
    let unit = registry.update_asset_value(&ANYONE, rejection.unit, Decimal::from(3)).unwrap();
    assert_eq!(read(&registry, 2).current_value(), Decimal::from(3));
    assert!(registry.transfer_token(DepositOutcome::Accepted, unit).is_ok());
}

#[test]
fn mint_update_query_transfer_scenario() {
    let mut registry = AssetCollection::instantiate_asset_collection();

    let first = mint(&mut registry, "real_estate", Decimal::from(160));
    assert_eq!(first.unique_identifier(), 1);
    assert_eq!(read(&registry, 1).current_value(), Decimal::from(160));

    let first = registry.update_asset_value(&ANYONE, first, decimal("200.0")).unwrap();
    let record = read(&registry, 1);
    assert_eq!(record.asset_type(), "real_estate");
    assert_eq!(record.unique_identifier(), 1);
    assert_eq!(record.current_value(), decimal("200.0"));
    assert_eq!(record.current_value(), Decimal::from(200));

    let second = mint(&mut registry, "art", Decimal::from(50));
    assert_eq!(second.unique_identifier(), 2);

    assert!(registry.transfer_token(DepositOutcome::Accepted, first).is_ok());

    let rejection = registry.transfer_token(DepositOutcome::Rejected, second).unwrap_err();
    assert_eq!(rejection.error, RegistryError::DepositRejected);
    let retained: BearerUnit = rejection.unit;
    assert_eq!(retained.unique_identifier(), 2);
    assert_eq!(read(&registry, 2).asset_type(), "art");
    assert_eq!(read(&registry, 2).current_value(), Decimal::from(50));
}
