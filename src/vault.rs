use vstd::prelude::*;

use crate::saros_cpi::{seed_views, AccountKey};

verus! {

/// The persistent trading account: who may trigger trades, the trade limits,
/// and cumulative statistics that only ever grow.
#[derive(Clone, Copy, Debug)]
pub struct ArbitrageVault {
    pub authority: AccountKey,
    pub min_profit_threshold: u64,
    pub max_single_trade: u64,
    pub total_profits: u64,
    pub total_trades: u64,
    pub failed_trades: u64,
    pub bump: u8,
}

/// The seed prefix of a vault's own address: the bytes of "resonance-vault".
pub open spec fn vault_seed_prefix() -> Seq<u8> {
    seq![114u8, 101, 115, 111, 110, 97, 110, 99, 101, 45, 118, 97, 117, 108, 116]
}

/// The seeds that prove a vault is the owner of its own holdings.
pub open spec fn vault_signer_seeds(authority: Seq<u8>, bump: u8) -> Seq<Seq<u8>> {
    seq![vault_seed_prefix(), authority, seq![bump]]
}

/// `after` is `before` with one more trade and `profit` more in total profits.
pub open spec fn commits(before: ArbitrageVault, after: ArbitrageVault, profit: u64) -> bool {
    &&& after.total_profits == before.total_profits + profit
    &&& after.total_trades == before.total_trades + 1
    &&& after.authority == before.authority
    &&& after.min_profit_threshold == before.min_profit_threshold
    &&& after.max_single_trade == before.max_single_trade
    &&& after.failed_trades == before.failed_trades
    &&& after.bump == before.bump
}

/// The material that authorises one call on a vault's behalf.
#[derive(Clone, Copy, Debug)]
pub struct SigningContext {
    pub authority: AccountKey,
    pub bump: u8,
}

impl SigningContext {
    /// The vault's signer seeds: the prefix, the authority's key and the bump.
    pub fn signer_seeds(&self) -> (r: Vec<Vec<u8>>)
        ensures
            seed_views(r@) == vault_signer_seeds(self.authority@, self.bump),
    {
        let prefix: Vec<u8> = vec![114u8, 101, 115, 111, 110, 97, 110, 99, 101, 45, 118, 97, 117, 108, 116];
        let authority: Vec<u8> = vstd::slice::slice_to_vec(self.authority.as_slice());
        let bump: Vec<u8> = vec![self.bump];
        assert(prefix@ =~= vault_seed_prefix());
        assert(bump@ =~= seq![self.bump]);
        let r: Vec<Vec<u8>> = vec![prefix, authority, bump];
        assert(r@[0]@ == vault_seed_prefix() && r@[1]@ == self.authority@ && r@[2]@ == seq![self.bump]);
        assert(seed_views(r@) =~= vault_signer_seeds(self.authority@, self.bump));
        r
    }
}

impl ArbitrageVault {
    /// Bytes the vault's account reserves for its fields.
    pub const LEN: usize = 80;

    /// A fresh vault with the given limits and all statistics at zero.
    pub fn new(authority: AccountKey, min_profit_threshold: u64, max_single_trade: u64, bump: u8) -> (r:
        ArbitrageVault)
        ensures
            r.authority == authority,
            r.min_profit_threshold == min_profit_threshold,
            r.max_single_trade == max_single_trade,
            r.total_profits == 0,
            r.total_trades == 0,
            r.failed_trades == 0,
            r.bump == bump,
    {
        ArbitrageVault {
            authority,
            min_profit_threshold,
            max_single_trade,
            total_profits: 0,
            total_trades: 0,
            failed_trades: 0,
            bump,
        }
    }

    /// The context under which calls are made on this vault's behalf.
    pub fn signing_context(&self) -> (r: SigningContext)
        ensures
            r.authority == self.authority,
            r.bump == self.bump,
    {
        SigningContext { authority: self.authority, bump: self.bump }
    }
}

} // verus!
