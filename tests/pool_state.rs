use resonance_bot::error::ResonanceError;
use resonance_bot::pool_state::{PoolState, POOL_DATA_MIN_LEN};

fn pool_blob(len: usize, price: u64, liquidity_x: u64, liquidity_y: u64) -> Vec<u8> {
    let mut data = vec![0xAAu8; len];
    data[8..16].copy_from_slice(&price.to_le_bytes());
    data[32..40].copy_from_slice(&liquidity_x.to_le_bytes());
    data[64..72].copy_from_slice(&liquidity_y.to_le_bytes());
    data
}

#[test]
fn parses_fields_at_their_offsets() {
    let data = pool_blob(80, 0x0102_0304_0506_0708, 1_000_000, u64::MAX);
    let pool = PoolState::from_account_info(&data).unwrap();
    assert_eq!(pool.current_price, 0x0102_0304_0506_0708);
    assert_eq!(pool.total_liquidity_x, 1_000_000);
    assert_eq!(pool.total_liquidity_y, u64::MAX);
    assert_eq!(pool.base_fee_rate, 30);
    assert_eq!(pool.bin_step, 25);
    assert_eq!(pool.active_bin_id, 0);
}

#[test]
fn longer_blob_is_accepted() {
    let data = pool_blob(200, 7, 8, 9);
    let pool = PoolState::from_account_info(&data).unwrap();
    assert_eq!((pool.current_price, pool.total_liquidity_x, pool.total_liquidity_y), (7, 8, 9));
}

#[test]
fn short_blob_is_malformed() {
    let data = pool_blob(POOL_DATA_MIN_LEN, 1, 2, 3);
    assert!(PoolState::from_account_info(&data[..79]).is_err());
    assert_eq!(
        PoolState::from_account_info(&data[..79]).unwrap_err(),
        ResonanceError::MalformedPoolData
    );
    assert_eq!(PoolState::from_account_info(&[]).unwrap_err(), ResonanceError::MalformedPoolData);
}
