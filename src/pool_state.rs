use vstd::prelude::*;

use crate::error::ResonanceError;

verus! {

/// Smallest pool state blob that holds every field read below.
pub const POOL_DATA_MIN_LEN: usize = 80;

/// Byte offset of the little-endian `u64` price.
pub const PRICE_OFFSET: usize = 8;

/// Byte offset of the little-endian `u64` base-token reserve.
pub const LIQUIDITY_X_OFFSET: usize = 32;

/// Byte offset of the little-endian `u64` quote-token reserve.
pub const LIQUIDITY_Y_OFFSET: usize = 64;

/// Fee, in basis points, charged by every pool of this layout.
pub const BASE_FEE_RATE_BP: u16 = 30;

/// Bin step of every pool of this layout.
pub const BIN_STEP: u16 = 25;

/// A read-only snapshot of one pool: its price (quote per base, fixed point),
/// its fee in basis points and its reserves on each side.
#[derive(Clone, Copy, Debug)]
pub struct PoolState {
    pub current_price: u64,
    pub base_fee_rate: u16,
    pub bin_step: u16,
    pub active_bin_id: i32,
    pub total_liquidity_x: u64,
    pub total_liquidity_y: u64,
}

/// The unsigned integer held little-endian in `data[off..off + 8]`.
pub open spec fn le_u64_at(data: Seq<u8>, off: int) -> int {
    data[off] + 0x100 * data[off + 1] + 0x1_0000 * data[off + 2] + 0x100_0000 * data[off + 3]
        + 0x1_0000_0000 * data[off + 4] + 0x100_0000_0000 * data[off + 5] + 0x1_0000_0000_0000
        * data[off + 6] + 0x100_0000_0000_0000 * data[off + 7]
}

/// The snapshot that a blob of sufficient length describes.
pub open spec fn parsed_pool(data: Seq<u8>) -> PoolState {
    PoolState {
        current_price: le_u64_at(data, PRICE_OFFSET as int) as u64,
        base_fee_rate: BASE_FEE_RATE_BP,
        bin_step: BIN_STEP,
        active_bin_id: 0,
        total_liquidity_x: le_u64_at(data, LIQUIDITY_X_OFFSET as int) as u64,
        total_liquidity_y: le_u64_at(data, LIQUIDITY_Y_OFFSET as int) as u64,
    }
}

/// Reads the little-endian `u64` at `data[off..off + 8]`.
fn read_u64_le(data: &[u8], off: usize) -> (r: u64)
    requires
        off + 8 <= data@.len(),
    ensures
        r == le_u64_at(data@, off as int),
{
    (data[off] as u64) + 0x100 * (data[off + 1] as u64) + 0x1_0000 * (data[off + 2] as u64)
        + 0x100_0000 * (data[off + 3] as u64) + 0x1_0000_0000 * (data[off + 4] as u64)
        + 0x100_0000_0000 * (data[off + 5] as u64) + 0x1_0000_0000_0000 * (data[off + 6] as u64)
        + 0x100_0000_0000_0000 * (data[off + 7] as u64)
}

impl PoolState {
    /// Parses a pool account's state blob. A blob shorter than
    /// `POOL_DATA_MIN_LEN` is malformed; otherwise the price and both reserves
    /// are read at their fixed offsets.
    pub fn from_account_info(data: &[u8]) -> (r: Result<PoolState, ResonanceError>)
        ensures
            data@.len() < POOL_DATA_MIN_LEN ==> r == Err::<PoolState, _>(
                ResonanceError::MalformedPoolData,
            ),
            data@.len() >= POOL_DATA_MIN_LEN ==> r == Ok::<_, ResonanceError>(parsed_pool(data@)),
    {
        if data.len() < POOL_DATA_MIN_LEN {
            return Err(ResonanceError::MalformedPoolData);
        }
        Ok(PoolState {
            current_price: read_u64_le(data, PRICE_OFFSET),
            base_fee_rate: BASE_FEE_RATE_BP,
            bin_step: BIN_STEP,
            active_bin_id: 0,
            total_liquidity_x: read_u64_le(data, LIQUIDITY_X_OFFSET),
            total_liquidity_y: read_u64_le(data, LIQUIDITY_Y_OFFSET),
            })
    }
}

} // verus!
