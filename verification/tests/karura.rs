use basilisk::fixed_point::FixedU128;
use basilisk::karura::{
    AccountIdToMultiLocation, AssetLocation, CurrencyIdConvert, Fungibility, Junction, Junctions,
    KaruraSpotPriceProviderStub, MultiAsset, MultiLocation, NetworkId, XcmAssetId, CORE_ASSET_ID,
    KARURA_PARA_ID,
};

fn core_location() -> MultiLocation {
    MultiLocation::new(1, Junctions::X2(Junction::Parachain(KARURA_PARA_ID), Junction::GeneralIndex(0)))
}

#[test]
fn core_asset_to_location() {
    assert_eq!(CurrencyIdConvert::convert_asset_id(CORE_ASSET_ID, KARURA_PARA_ID, None), Some(core_location()));
    let other = AssetLocation(MultiLocation::new(1, Junctions::X1(Junction::Parachain(3000))));
    // the registry is not asked for the native asset
    assert_eq!(CurrencyIdConvert::convert_asset_id(CORE_ASSET_ID, KARURA_PARA_ID, Some(other)), Some(core_location()));
}

#[test]
fn registered_asset_to_location() {
    let loc = MultiLocation::new(1, Junctions::X2(Junction::Parachain(3000), Junction::GeneralIndex(5)));
    assert_eq!(CurrencyIdConvert::convert_asset_id(5, KARURA_PARA_ID, Some(AssetLocation(loc))), Some(loc));
    assert_eq!(CurrencyIdConvert::convert_asset_id(5, KARURA_PARA_ID, None), None);
}

#[test]
fn location_to_core_asset() {
    assert_eq!(CurrencyIdConvert::convert_location(core_location(), KARURA_PARA_ID, Some(9)), Some(CORE_ASSET_ID));
    // re-anchored form
    let local = MultiLocation::new(0, Junctions::X1(Junction::GeneralIndex(0)));
    assert_eq!(CurrencyIdConvert::convert_location(local, KARURA_PARA_ID, None), Some(CORE_ASSET_ID));
    // only the low 32 bits of the index are compared
    let wrapped = MultiLocation::new(0, Junctions::X1(Junction::GeneralIndex(1u128 << 32)));
    assert_eq!(CurrencyIdConvert::convert_location(wrapped, KARURA_PARA_ID, None), Some(CORE_ASSET_ID));
}

#[test]
fn location_to_registered_asset() {
    // another parachain's index 0 goes to the registry
    let foreign = MultiLocation::new(1, Junctions::X2(Junction::Parachain(3000), Junction::GeneralIndex(0)));
    assert_eq!(CurrencyIdConvert::convert_location(foreign, KARURA_PARA_ID, Some(9)), Some(9));
    assert_eq!(CurrencyIdConvert::convert_location(foreign, KARURA_PARA_ID, None), None);
    let nonzero = MultiLocation::new(0, Junctions::X1(Junction::GeneralIndex(1)));
    assert_eq!(CurrencyIdConvert::convert_location(nonzero, KARURA_PARA_ID, Some(4)), Some(4));
    let grandparent = MultiLocation::new(2, Junctions::X2(Junction::Parachain(KARURA_PARA_ID), Junction::GeneralIndex(0)));
    assert_eq!(CurrencyIdConvert::convert_location(grandparent, KARURA_PARA_ID, None), None);
}

#[test]
fn multi_asset_to_asset() {
    let concrete = MultiAsset { id: XcmAssetId::Concrete(core_location()), fun: Fungibility::Fungible(10) };
    assert_eq!(CurrencyIdConvert::convert_asset(concrete, KARURA_PARA_ID, None), Some(CORE_ASSET_ID));
    let abstract_asset = MultiAsset { id: XcmAssetId::Abstract(vec![1, 2]), fun: Fungibility::Fungible(10) };
    assert_eq!(CurrencyIdConvert::convert_asset(abstract_asset, KARURA_PARA_ID, Some(3)), None);
}

#[test]
fn core_asset_round_trip() {
    for para in [0u32, KARURA_PARA_ID, u32::MAX] {
        let loc = CurrencyIdConvert::convert_asset_id(CORE_ASSET_ID, para, None).unwrap();
        assert_eq!(CurrencyIdConvert::convert_location(loc, para, Some(77)), Some(CORE_ASSET_ID));
    }
}

#[test]
fn account_to_location() {
    let id = [4u8; 32];
    assert_eq!(
        AccountIdToMultiLocation::convert(id),
        MultiLocation::new(0, Junctions::X1(Junction::AccountId32 { network: NetworkId::Any, id }))
    );
}

#[test]
fn spot_price_stub() {
    assert!(KaruraSpotPriceProviderStub::pair_exists(1, 2));
    assert_eq!(KaruraSpotPriceProviderStub::spot_price(1, 2), Some(FixedU128::from_inner(462_962_963_000)));
}

#[test]
fn default_asset_location() {
    assert_eq!(AssetLocation::default(), AssetLocation(MultiLocation::here()));
    assert_eq!(MultiLocation::here(), MultiLocation::new(0, Junctions::Here));
}
