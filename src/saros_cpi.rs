use vstd::prelude::*;

use anchor_lang::solana_program::pubkey::Pubkey;

verus! {

/// The 32 bytes of an account's public key.
pub type AccountKey = [u8; 32];

/// The pool program's public key.
pub open spec fn saros_program_id_bytes() -> Seq<u8> {
    seq![
        0u8, 54, 243, 134, 43, 7, 87, 225, 91, 39, 36, 34, 104, 250, 223, 93,
        117, 35, 114, 135, 101, 210, 85, 71, 148, 74, 214, 126, 86, 85, 91, 81,
    ]
}

/// Returns the pool program's public key.
pub fn saros_dlmm_program_id() -> (r: AccountKey)
    ensures
        r@ == saros_program_id_bytes(),
{
    let r: AccountKey = [
        0u8, 54, 243, 134, 43, 7, 87, 225, 91, 39, 36, 34, 104, 250, 223, 93,
        117, 35, 114, 135, 101, 210, 85, 71, 148, 74, 214, 126, 86, 85, 91, 81,
    ];
    assert(r@ =~= saros_program_id_bytes());
    r
}

/// The operation identifier that opens an exact-input swap call.
pub open spec fn swap_discriminator() -> Seq<u8> {
    seq![0xf8u8, 0xc6, 0x9e, 0x91, 0xe1, 0x75, 0x87, 0xc8]
}

/// The `n` low-order bytes of `x`, least significant first.
pub open spec fn le_bytes(x: int, n: nat) -> Seq<u8>
    decreases n,
{
    if n == 0 {
        seq![]
    } else {
        seq![(x % 256) as u8] + le_bytes(x / 256, (n - 1) as nat)
    }
}

/// Appends the eight little-endian bytes of `x` to `out`.
fn push_u64_le(out: &mut Vec<u8>, x: u64)
    ensures
        final(out)@ == old(out)@ + le_bytes(x as int, 8),
{
    let mut y: u64 = x;
    let mut i: usize = 0;
    while i < 8
        invariant
            i <= 8,
            out@ + le_bytes(y as int, (8 - i) as nat) == old(out)@ + le_bytes(x as int, 8),
        decreases 8 - i,
    {
        let ghost before = out@;
        assert(le_bytes(y as int, (8 - i) as nat) == seq![(y % 256) as u8] + le_bytes(
            (y / 256) as int,
            (8 - i - 1) as nat,
        ));
        out.push((y % 256) as u8);
        assert(out@ + le_bytes((y / 256) as int, (8 - i - 1) as nat) =~= before + le_bytes(
            y as int,
            (8 - i) as nat,
        ));
        y = y / 256;
        i = i + 1;
    }
    assert(le_bytes(y as int, 0) =~= Seq::<u8>::empty());
    assert(out@ =~= out@ + le_bytes(y as int, 0));
}

/// One leg of a swap: the input amount, the least acceptable output, and the
/// direction (`true`: spend quote to buy base; `false`: sell base for quote).
#[derive(Clone, Copy, Debug, PartialEq, Eq, Structural)]
pub struct SwapParams {
    pub amount_in: u64,
    pub minimum_amount_out: u64,
    pub swap_for_y: bool,
}

/// The call payload for a swap leg: the operation identifier, both amounts
/// little-endian, and a one-byte direction flag.
pub open spec fn swap_instruction_data(p: SwapParams) -> Seq<u8> {
    swap_discriminator() + le_bytes(p.amount_in as int, 8) + le_bytes(
        p.minimum_amount_out as int,
        8,
    ) + seq![
        if p.swap_for_y {
            1u8
        } else {
            0u8
        },
    ]
}

impl SwapParams {
    /// Encodes this leg as the pool program's swap call payload.
    pub fn build_instruction_data(&self) -> (r: Vec<u8>)
        ensures
            r@ == swap_instruction_data(*self),
            r@.len() == 25,
    {
        let mut data: Vec<u8> = Vec::new();
        data.push(0xf8);
        data.push(0xc6);
        data.push(0x9e);
        data.push(0x91);
        data.push(0xe1);
        data.push(0x75);
        data.push(0x87);
        data.push(0xc8);
        assert(data@ =~= swap_discriminator());
        push_u64_le(&mut data, self.amount_in);
        push_u64_le(&mut data, self.minimum_amount_out);
        data.push(
            if self.swap_for_y {
                1
            } else {
                0
            },
        );
        assert(data@ =~= swap_instruction_data(*self));
        proof {
            lemma_le_bytes_len(self.amount_in as int, 8);
            lemma_le_bytes_len(self.minimum_amount_out as int, 8);
        }
        data
    }
}

proof fn lemma_le_bytes_len(x: int, n: nat)
    ensures
        le_bytes(x, n).len() == n,
    decreases n,
{
    if n > 0 {
        lemma_le_bytes_len(x / 256, (n - 1) as nat);
    }
}

/// One account of a call: its key and whether it signs and may be written.
#[derive(Clone, Copy, Debug)]
pub struct AccountMeta {
    pub pubkey: AccountKey,
    pub is_signer: bool,
    pub is_writable: bool,
}

impl AccountMeta {
    /// A writable account.
    pub fn new(pubkey: AccountKey, is_signer: bool) -> (r: AccountMeta)
        ensures
            r == (AccountMeta { pubkey, is_signer, is_writable: true }),
    {
        AccountMeta { pubkey, is_signer, is_writable: true }
    }

    /// A read-only account.
    pub fn new_readonly(pubkey: AccountKey, is_signer: bool) -> (r: AccountMeta)
        ensures
            r == (AccountMeta { pubkey, is_signer, is_writable: false }),
    {
        AccountMeta { pubkey, is_signer, is_writable: false }
    }
}

/// The accounts that one swap leg touches: the pool and its bin arrays and
/// reserves, the caller's holdings on both sides, both mints and token
/// programs, the signing user, and the pool program's event authority and id.
#[derive(Clone, Copy, Debug)]
pub struct SarosSwapAccounts {
    pub pair: AccountKey,
    pub bin_array_lower: AccountKey,
    pub bin_array_upper: AccountKey,
    pub user_vault_x: AccountKey,
    pub user_vault_y: AccountKey,
    pub token_vault_x: AccountKey,
    pub token_vault_y: AccountKey,
    pub token_mint_x: AccountKey,
    pub token_mint_y: AccountKey,
    pub token_program_x: AccountKey,
    pub token_program_y: AccountKey,
    pub user: AccountKey,
    pub event_authority: AccountKey,
    pub program: AccountKey,
}

/// A writable account that does not sign.
pub open spec fn writable(pubkey: AccountKey) -> AccountMeta {
    AccountMeta { pubkey, is_signer: false, is_writable: true }
}

/// A read-only account that does not sign.
pub open spec fn readonly(pubkey: AccountKey) -> AccountMeta {
    AccountMeta { pubkey, is_signer: false, is_writable: false }
}

/// The account list of a swap call, in the order the pool program reads it.
/// Only the user signs; mints, token programs, the user, the event authority
/// and the program are read-only.
pub open spec fn swap_account_metas(a: SarosSwapAccounts) -> Seq<AccountMeta> {
    seq![
        writable(a.pair),
        writable(a.bin_array_lower),
        writable(a.bin_array_upper),
        readonly(a.token_mint_x),
        readonly(a.token_mint_y),
        writable(a.token_vault_x),
        writable(a.token_vault_y),
        writable(a.user_vault_x),
        writable(a.user_vault_y),
        readonly(a.token_program_x),
        readonly(a.token_program_y),
        AccountMeta { pubkey: a.user, is_signer: true, is_writable: false },
        readonly(a.event_authority),
        readonly(a.program),
    ]
}

impl SarosSwapAccounts {
    /// Lists the accounts of a swap call in the pool program's order.
    pub fn get_account_metas(&self) -> (r: Vec<AccountMeta>)
        ensures
            r@ == swap_account_metas(*self),
    {
        let r = vec![
            AccountMeta::new(self.pair, false),
            AccountMeta::new(self.bin_array_lower, false),
            AccountMeta::new(self.bin_array_upper, false),
            AccountMeta::new_readonly(self.token_mint_x, false),
            AccountMeta::new_readonly(self.token_mint_y, false),
            AccountMeta::new(self.token_vault_x, false),
            AccountMeta::new(self.token_vault_y, false),
            AccountMeta::new(self.user_vault_x, false),
            AccountMeta::new(self.user_vault_y, false),
            AccountMeta::new_readonly(self.token_program_x, false),
            AccountMeta::new_readonly(self.token_program_y, false),
            AccountMeta::new_readonly(self.user, true),
            AccountMeta::new_readonly(self.event_authority, false),
            AccountMeta::new_readonly(self.program, false),
        ];
        assert(r@ =~= swap_account_metas(*self));
        r
    }
}

/// A swap call ready to be issued: the program it goes to, its accounts and
/// its payload.
#[derive(Debug)]
pub struct SwapInstruction {
    pub program_id: AccountKey,
    pub accounts: Vec<AccountMeta>,
    pub data: Vec<u8>,
}

/// Builds the pool program call for one swap leg over the given accounts.
pub fn build_swap_instruction(accounts: &SarosSwapAccounts, swap_params: SwapParams) -> (r:
    SwapInstruction)
    ensures
        r.program_id@ == saros_program_id_bytes(),
        r.accounts@ == swap_account_metas(*accounts),
        r.data@ == swap_instruction_data(swap_params),
{
    SwapInstruction {
        program_id: saros_dlmm_program_id(),
        accounts: accounts.get_account_metas(),
        data: swap_params.build_instruction_data(),
    }
}

/// What `Pubkey::try_find_program_address` returns for these seeds and this
/// program id, as key bytes and bump seed.
pub uninterp spec fn program_address_of(seeds: Seq<Seq<u8>>, program_id: Seq<u8>) -> Option<
    (Seq<u8>, u8),
>;

/// The byte sequences of a list of seeds.
pub open spec fn seed_views(seeds: Seq<Vec<u8>>) -> Seq<Seq<u8>> {
    seeds.map_values(|s: Vec<u8>| s@)
}

/// A derived address and bump seed, with the key as a byte sequence.
pub open spec fn key_and_bump_view(r: Option<(AccountKey, u8)>) -> Option<(Seq<u8>, u8)> {
    match r {
        Some((k, b)) => Some((k@, b)),
        None => None,
    }
}

/// Relies on `Pubkey::try_find_program_address` (solana-program): the search
/// for a bump seed that puts the derived address off the curve. Its result
/// depends on the seeds and the program id alone, and it returns `None`
/// rather than panicking when no bump seed fits.
#[verifier::external_body]
fn find_program_address(seeds: &Vec<Vec<u8>>, program_id: &AccountKey) -> (r: Option<
    (AccountKey, u8),
>)
    ensures
        key_and_bump_view(r) == program_address_of(seed_views(seeds@), program_id@),
{
    let refs: Vec<&[u8]> = seeds.iter().map(|s| s.as_slice()).collect();
    let program = Pubkey::new_from_array(*program_id);
    Pubkey::try_find_program_address(&refs, &program).map(|(k, b)| (k.to_bytes(), b))
}

/// The seed prefix of a pool's bin-array accounts.
pub open spec fn bin_array_prefix() -> Seq<u8> {
    seq![98u8, 105, 110, 95, 97, 114, 114, 97, 121]
}

/// The seeds of a bin array: the prefix, the pool's key, and the array index
/// as eight little-endian two's-complement bytes.
pub open spec fn bin_array_seeds(pair: Seq<u8>, bin_array_index: i64) -> Seq<Seq<u8>> {
    seq![bin_array_prefix(), pair, le_bytes(bin_array_index as u64 as int, 8)]
}

/// Derives the address and bump seed of a pool's bin array under the pool
/// program, or `None` where no bump seed gives an address off the curve.
pub fn derive_bin_array_pda(pair: &AccountKey, bin_array_index: i64) -> (r: Option<(AccountKey, u8)>)
    ensures
        key_and_bump_view(r) == program_address_of(
            bin_array_seeds(pair@, bin_array_index),
            saros_program_id_bytes(),
        ),
{
    let prefix: Vec<u8> = vec![98u8, 105, 110, 95, 97, 114, 114, 97, 121];
    let pair_bytes: Vec<u8> = vstd::slice::slice_to_vec(pair.as_slice());
    let mut index_bytes: Vec<u8> = Vec::new();
    push_u64_le(&mut index_bytes, bin_array_index as u64);
    let seeds: Vec<Vec<u8>> = vec![prefix, pair_bytes, index_bytes];
    assert(seed_views(seeds@) =~= bin_array_seeds(pair@, bin_array_index));
    let program = saros_dlmm_program_id();
    find_program_address(&seeds, &program)
}

} // verus!
