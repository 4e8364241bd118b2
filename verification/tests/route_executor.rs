use basilisk::route_executor::{generate_trades, PoolType, Trade, UNITS};

fn xyk(asset_in: u32, asset_out: u32) -> Trade {
    Trade { pool: PoolType::XYK, asset_in, asset_out }
}

#[test]
fn single_trade_without_intermediates() {
    assert_eq!(generate_trades(1, 2, vec![]), (1, 2, vec![xyk(1, 2)]));
}

#[test]
fn route_takes_intermediates_from_the_last() {
    let (a, b, trades) = generate_trades(100, 200, vec![10, 11, 12, 13]);
    assert_eq!((a, b), (100, 200));
    assert_eq!(
        trades,
        vec![xyk(100, 13), xyk(13, 12), xyk(12, 11), xyk(11, 10), xyk(10, 200)]
    );
}

#[test]
fn route_is_connected() {
    let (_, _, trades) = generate_trades(1, 2, vec![5, 6, 7]);
    assert_eq!(trades[0].asset_in, 1);
    assert_eq!(trades[trades.len() - 1].asset_out, 2);
    for w in trades.windows(2) {
        assert_eq!(w[0].asset_out, w[1].asset_in);
    }
}

#[test]
fn units() {
    assert_eq!(2000 * UNITS, 200_000_000_000_000);
}
