//! Conversions between asset ids, XCM locations and accounts in the Karura
//! test runtime, and its fixed spot price.

use vstd::prelude::*;
use crate::fixed_point::FixedU128;
use crate::liquidity_mining::{AccountId, AssetId, Balance};

verus! {

/// One unit of the native currency.
pub const UNITS: Balance = 1_000_000_000_000;

/// Parachain id of Karura.
pub const KARURA_PARA_ID: u32 = 2000;

/// Parachain id of Basilisk.
pub const BASILISK_PARA_ID: u32 = 2090;

/// Asset id of the native currency.
pub const CORE_ASSET_ID: AssetId = 0;

/// A consensus network.
#[derive(Clone, Copy, Debug, PartialEq, Eq)]
pub enum NetworkId {
    Any,
    Polkadot,
    Kusama,
}

/// One step of an XCM location.
#[derive(Clone, Copy, Debug, PartialEq, Eq)]
pub enum Junction {
    Parachain(u32),
    AccountId32 { network: NetworkId, id: [u8; 32] },
    AccountIndex64 { network: NetworkId, index: u64 },
    PalletInstance(u8),
    GeneralIndex(u128),
    OnlyChild,
}

/// The interior of an XCM location: up to eight junctions.
#[derive(Clone, Copy, Debug, PartialEq, Eq)]
pub enum Junctions {
    Here,
    X1(Junction),
    X2(Junction, Junction),
    X3(Junction, Junction, Junction),
    X4(Junction, Junction, Junction, Junction),
    X5(Junction, Junction, Junction, Junction, Junction),
    X6(Junction, Junction, Junction, Junction, Junction, Junction),
    X7(Junction, Junction, Junction, Junction, Junction, Junction, Junction),
    X8(Junction, Junction, Junction, Junction, Junction, Junction, Junction, Junction),
}

/// An XCM location: `parents` steps up, then down through `interior`.
#[derive(Clone, Copy, Debug, PartialEq, Eq)]
pub struct MultiLocation {
    pub parents: u8,
    pub interior: Junctions,
}

impl MultiLocation {
    /// The location `parents` steps up and then down through `interior`.
    pub fn new(parents: u8, interior: Junctions) -> (r: MultiLocation)
        ensures
            r == (MultiLocation { parents, interior }),
    {
        MultiLocation { parents, interior }
    }

    /// The location of the current consensus system.
    pub fn here() -> (r: MultiLocation)
        ensures
            r == (MultiLocation { parents: 0, interior: Junctions::Here }),
    {
        MultiLocation { parents: 0, interior: Junctions::Here }
    }
}

/// Identity of an XCM asset.
#[derive(Debug, PartialEq, Eq)]
pub enum XcmAssetId {
    Concrete(MultiLocation),
    Abstract(Vec<u8>),
}

/// Amount or instance of an XCM asset.
#[derive(Clone, Copy, Debug, PartialEq, Eq)]
pub enum Fungibility {
    Fungible(u128),
    NonFungible(u128),
}

/// An XCM asset.
#[derive(Debug, PartialEq, Eq)]
pub struct MultiAsset {
    pub id: XcmAssetId,
    pub fun: Fungibility,
}

/// Native location of an asset in the asset registry.
#[derive(Clone, Copy, Debug, PartialEq, Eq)]
pub struct AssetLocation(pub MultiLocation);

impl Default for AssetLocation {
    /// The location of the current consensus system.
    fn default() -> (r: AssetLocation)
        ensures
            r == AssetLocation(MultiLocation { parents: 0, interior: Junctions::Here }),
    {
        AssetLocation(MultiLocation::here())
    }
}

/// Location of the native asset of parachain `para_id`, as seen from a
/// sibling.
pub open spec fn core_asset_location(para_id: u32) -> MultiLocation {
    MultiLocation {
        parents: 1,
        interior: Junctions::X2(Junction::Parachain(para_id), Junction::GeneralIndex(0)),
    }
}

/// Location of asset `id` on parachain `para_id`; `registered` is the
/// asset registry's location for it.
pub open spec fn location_of_asset(
    id: AssetId,
    para_id: u32,
    registered: Option<AssetLocation>,
) -> Option<MultiLocation> {
    if id == CORE_ASSET_ID {
        Some(core_asset_location(para_id))
    } else {
        match registered {
            Some(loc) => Some(loc.0),
            None => None,
        }
    }
}

/// Asset at `location` for parachain `para_id`: the native asset for its
/// canonical and its re-anchored location (a general index whose low 32 bits
/// are zero), else `registered`, the asset registry's asset for the location.
pub open spec fn asset_of_location(
    location: MultiLocation,
    para_id: u32,
    registered: Option<AssetId>,
) -> Option<AssetId> {
    match location.interior {
        Junctions::X2(Junction::Parachain(id), Junction::GeneralIndex(index)) if location.parents
            == 1 && id == para_id && index as u32 == CORE_ASSET_ID => Some(CORE_ASSET_ID),
        Junctions::X1(Junction::GeneralIndex(index)) if location.parents == 0 && index as u32
            == CORE_ASSET_ID => Some(CORE_ASSET_ID),
        _ => registered,
    }
}

/// Conversions between asset ids and XCM locations.
pub struct CurrencyIdConvert;

impl CurrencyIdConvert {
    /// Location of asset `id`, with `para_id` the parachain's own id and
    /// `registered` the asset registry's location for `id`.
    pub fn convert_asset_id(id: AssetId, para_id: u32, registered: Option<AssetLocation>) -> (r:
        Option<MultiLocation>)
        ensures
            r == location_of_asset(id, para_id, registered),
    {
        if id == CORE_ASSET_ID {
            Some(
                MultiLocation::new(
                    1,
                    Junctions::X2(Junction::Parachain(para_id), Junction::GeneralIndex(id as u128)),
                ),
            )
        } else {
            match registered {
                Some(loc) => Some(loc.0),
                None => None,
            }
        }
    }

    /// Asset at `location`, with `para_id` the parachain's own id and
    /// `registered` the asset registry's asset for the location.
    pub fn convert_location(location: MultiLocation, para_id: u32, registered: Option<AssetId>) -> (r:
        Option<AssetId>)
        ensures
            r == asset_of_location(location, para_id, registered),
    {
        match location.interior {
            Junctions::X2(Junction::Parachain(id), Junction::GeneralIndex(index)) => {
                if location.parents == 1 && id == para_id && index as u32 == CORE_ASSET_ID {
                    return Some(CORE_ASSET_ID);
                }
            },
            Junctions::X1(Junction::GeneralIndex(index)) => {
                if location.parents == 0 && index as u32 == CORE_ASSET_ID {
                    return Some(CORE_ASSET_ID);
                }
            },
            _ => {},
        }
        registered
    }

    /// Asset of an XCM asset: for a concrete one, the asset at its location
    /// (`registered` being the asset registry's asset for that location);
    /// none for an abstract one.
    pub fn convert_asset(asset: MultiAsset, para_id: u32, registered: Option<AssetId>) -> (r:
        Option<AssetId>)
        ensures
            r == match asset.id {
                XcmAssetId::Concrete(location) => asset_of_location(location, para_id, registered),
                XcmAssetId::Abstract(_) => None,
            },
    {
        match asset.id {
            XcmAssetId::Concrete(location) => Self::convert_location(location, para_id, registered),
            XcmAssetId::Abstract(_) => None,
        }
    }
}

/// Conversion of accounts to XCM locations.
pub struct AccountIdToMultiLocation;

impl AccountIdToMultiLocation {
    /// The location of `account` on any network, inside the current system.
    pub fn convert(account: AccountId) -> (r: MultiLocation)
        ensures
            r == (MultiLocation {
                parents: 0,
                interior: Junctions::X1(
                    Junction::AccountId32 { network: NetworkId::Any, id: account },
                ),
            }),
    {
        MultiLocation {
            parents: 0,
            interior: Junctions::X1(Junction::AccountId32 { network: NetworkId::Any, id: account }),
        }
    }
}

/// Spot prices of the Karura runtime: every pair exists at one fixed price.
pub struct KaruraSpotPriceProviderStub;

impl KaruraSpotPriceProviderStub {
    /// Every pair exists.
    pub fn pair_exists(_asset_a: AssetId, _asset_b: AssetId) -> (r: bool)
        ensures
            r,
    {
        true
    }

    /// The price of every pair: `462_962_963_000` raw.
    pub fn spot_price(_asset_a: AssetId, _asset_b: AssetId) -> (r: Option<FixedU128>)
        ensures
            r == Some(FixedU128 { inner: 462_962_963_000 }),
    {
        Some(FixedU128::from_inner(462_962_963_000))
    }
}

/// The native asset's location converts back to the native asset, whatever
/// the registry holds.
pub proof fn lemma_core_asset_round_trip(
    para_id: u32,
    registered_location: Option<AssetLocation>,
    registered_asset: Option<AssetId>,
)
    ensures
        location_of_asset(CORE_ASSET_ID, para_id, registered_location) == Some(
            core_asset_location(para_id),
        ),
        asset_of_location(core_asset_location(para_id), para_id, registered_asset) == Some(
            CORE_ASSET_ID,
        ),
{
    assert(0u128 as u32 == 0u32) by (bit_vector);
}

proof fn lemma_low_bits_zero(index: u128)
    ensures
        (index as u32 == 0u32) == (index % 0x1_0000_0000 == 0),
{
    assert((index as u32 == 0u32) == (index % 0x1_0000_0000 == 0)) by (bit_vector);
}

/// A general index on the parachain itself (seen from a sibling), or a bare
/// general index inside the current system, is the native asset exactly
/// when the low 32 bits of the index are zero; otherwise, and for an index
/// on another parachain, the registry's asset for the location is the answer.
pub proof fn lemma_general_index_to_asset(
    para_id: u32,
    other_para_id: u32,
    index: u128,
    registered: Option<AssetId>,
)
    requires
        other_para_id != para_id,
    ensures
        asset_of_location(
            MultiLocation {
                parents: 1,
                interior: Junctions::X2(Junction::Parachain(para_id), Junction::GeneralIndex(index)),
            },
            para_id,
            registered,
        ) == if index % 0x1_0000_0000 == 0 {
            Some(CORE_ASSET_ID)
        } else {
            registered
        },
        asset_of_location(
            MultiLocation { parents: 0, interior: Junctions::X1(Junction::GeneralIndex(index)) },
            para_id,
            registered,
        ) == if index % 0x1_0000_0000 == 0 {
            Some(CORE_ASSET_ID)
        } else {
            registered
        },
        asset_of_location(
            MultiLocation {
                parents: 1,
                interior: Junctions::X2(
                    Junction::Parachain(other_para_id),
                    Junction::GeneralIndex(index),
                ),
            },
            para_id,
            registered,
        ) == registered,
{
    lemma_low_bits_zero(index);
}

/// Locations more than one level up, or whose interior is neither one nor
/// two junctions, are left to the registry.
pub proof fn lemma_other_locations_to_asset(
    location: MultiLocation,
    para_id: u32,
    registered: Option<AssetId>,
)
    requires
        location.parents > 1 || !(location.interior is X1 || location.interior is X2),
    ensures
        asset_of_location(location, para_id, registered) == registered,
{
}

/// Every asset other than the native one has the location the registry
/// gives for it, and none when the registry has none.
pub proof fn lemma_asset_to_location(
    id: AssetId,
    para_id: u32,
    registered: Option<AssetLocation>,
)
    ensures
        id != CORE_ASSET_ID && registered is None ==> location_of_asset(id, para_id, registered)
            is None,
        id != CORE_ASSET_ID && registered is Some ==> location_of_asset(id, para_id, registered)
            == Some(registered->Some_0.0),
        id == CORE_ASSET_ID ==> location_of_asset(id, para_id, registered) == Some(
            MultiLocation {
                parents: 1,
                interior: Junctions::X2(Junction::Parachain(para_id), Junction::GeneralIndex(0)),
            },
        ),
{
}

} // verus!
