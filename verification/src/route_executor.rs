//! The trade route that the route-executor benchmarks sell along.

use vstd::prelude::*;
use crate::liquidity_mining::{AssetId, Balance};

verus! {

/// One unit of a benchmark asset.
pub const UNITS: Balance = 100_000_000_000;

/// Kind of pool a trade goes through.
#[derive(Clone, Copy, Debug, PartialEq, Eq, Structural)]
pub enum PoolType {
    XYK,
    LBP,
    Stableswap(AssetId),
    Omnipool,
}

/// One hop of a route: sell `asset_in` for `asset_out` in a pool of kind `pool`.
#[derive(Clone, Copy, Debug, PartialEq, Eq, Structural)]
pub struct Trade {
    pub pool: PoolType,
    pub asset_in: AssetId,
    pub asset_out: AssetId,
}

/// Hop `j` of the route from `main_asset_in` to `main_asset_out` through the
/// intermediate assets taken from the last to the first.
pub open spec fn route_hop(
    main_asset_in: AssetId,
    main_asset_out: AssetId,
    intermediate: Seq<AssetId>,
    j: int,
) -> Trade {
    let k = intermediate.len() as int;
    Trade {
        pool: PoolType::XYK,
        asset_in: if j == 0 { main_asset_in } else { intermediate[k - j] },
        asset_out: if j < k { intermediate[k - 1 - j] } else { main_asset_out },
    }
}

/// Route of XYK trades that sells `main_asset_in` for the last intermediate
/// asset, that for the one registered before it, and so on, and the first
/// intermediate asset for `main_asset_out`. Returns both main assets and the
/// trades; a pool is created for each trade's pair in turn.
pub fn generate_trades(
    main_asset_in: AssetId,
    main_asset_out: AssetId,
    intermediate_assets: Vec<AssetId>,
) -> (r: (AssetId, AssetId, Vec<Trade>))
    ensures
        r.0 == main_asset_in,
        r.1 == main_asset_out,
        r.2@.len() == intermediate_assets@.len() + 1,
        forall|j: int|
            0 <= j < r.2@.len() ==> #[trigger] r.2@[j] == route_hop(
                main_asset_in,
                main_asset_out,
                intermediate_assets@,
                j,
            ),
{
    let ghost all = intermediate_assets@;
    let k = intermediate_assets.len();
    let mut intermediate_assets = intermediate_assets;
    let mut trades: Vec<Trade> = Vec::new();
    let mut asset_in = main_asset_in;
    let mut n: usize = 0;
    while n < k
        invariant
            n <= k,
            k == all.len(),
            intermediate_assets@ == all.subrange(0, k - n),
            trades@.len() == n,
            asset_in == (if n == 0 { main_asset_in } else { all[k - n] }),
            forall|j: int|
                0 <= j < n ==> #[trigger] trades@[j] == route_hop(
                    main_asset_in,
                    main_asset_out,
                    all,
                    j,
                ),
        decreases k - n,
    {
        let asset_out = match intermediate_assets.pop() {
            Some(a) => a,
            None => {
                assert(false);
                return (main_asset_in, main_asset_out, trades);
            },
        };
        assert(intermediate_assets@ =~= all.subrange(0, k - n - 1));
        trades.push(Trade { pool: PoolType::XYK, asset_in, asset_out });
        asset_in = asset_out;
        n = n + 1;
    }
    trades.push(Trade { pool: PoolType::XYK, asset_in, asset_out: main_asset_out });
    (main_asset_in, main_asset_out, trades)
}

/// The route is connected: it starts by selling `main_asset_in`, each hop
/// buys what the next one sells, and it ends by buying `main_asset_out`.
pub proof fn lemma_route_is_connected(
    main_asset_in: AssetId,
    main_asset_out: AssetId,
    intermediate: Seq<AssetId>,
)
    ensures
        route_hop(main_asset_in, main_asset_out, intermediate, 0).asset_in == main_asset_in,
        route_hop(
            main_asset_in,
            main_asset_out,
            intermediate,
            intermediate.len() as int,
        ).asset_out == main_asset_out,
        forall|j: int|
            0 <= j < intermediate.len() ==> #[trigger] route_hop(
                main_asset_in,
                main_asset_out,
                intermediate,
                j,
            ).asset_out == route_hop(main_asset_in, main_asset_out, intermediate, j + 1).asset_in,
{
}

/// The route buys the intermediate assets in the reverse of the order they
/// were registered in, every hop through an XYK pool, and each hop after
/// the first sells what the one before it bought.
pub proof fn lemma_route_order(
    main_asset_in: AssetId,
    main_asset_out: AssetId,
    intermediate: Seq<AssetId>,
)
    ensures
        forall|j: int|
            0 <= j < intermediate.len() ==> #[trigger] route_hop(
                main_asset_in,
                main_asset_out,
                intermediate,
                j,
            ).asset_out == intermediate.reverse()[j],
        forall|j: int|
            1 <= j <= intermediate.len() ==> #[trigger] route_hop(
                main_asset_in,
                main_asset_out,
                intermediate,
                j,
            ).asset_in == intermediate.reverse()[j - 1],
        forall|j: int|
            0 <= j <= intermediate.len() ==> #[trigger] route_hop(
                main_asset_in,
                main_asset_out,
                intermediate,
                j,
            ).pool == PoolType::XYK,
{
}

} // verus!
