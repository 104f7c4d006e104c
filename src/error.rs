use vstd::prelude::*;

verus! {

/// Why an arbitrage attempt was refused or aborted. Every kind is terminal for
/// the attempt that raised it.
#[derive(Clone, Copy, Debug, PartialEq, Eq, Structural)]
pub enum ResonanceError {
    /// A pool account is not owned by the pool program.
    InvalidPoolOwner,
    /// A wrong program identity was supplied.
    InvalidProgram,
    /// The requested trade size is zero.
    InvalidAmount,
    /// The requested trade size exceeds the vault's single-trade cap.
    ExceedsMaxTrade,
    /// The vault's quote balance does not cover the requested trade size.
    InsufficientFunds,
    /// The prices are equal or unfavourable, or the sized trade is empty.
    NoArbitrageOpportunity,
    /// A swap call failed, or it did not increase the balance it pays into.
    SwapFailed,
    /// The realised profit is below the vault's threshold.
    ProfitNotRealized,
    /// A checked arithmetic operation overflowed or underflowed.
    ArithmeticOverflow,
    /// A pool state blob is shorter than its fixed layout.
    MalformedPoolData,
}

/// `r` is the failure `e`.
pub open spec fn fails_with<T>(r: Result<T, ResonanceError>, e: ResonanceError) -> bool {
    r == Err::<T, ResonanceError>(e)
}

} // verus!
