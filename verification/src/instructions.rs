//! Byte-exact encoding of the pool program's instructions.
//!
//! Each operation is a single-byte discriminator followed by its
//! parameters in a canonical length-prefix-free encoding, together with
//! a fixed, ordered list of account references tagged writable and
//! signer.  The vault, liquidity-position and log-authority addresses
//! are derived from fixed seed schemes; the identifiers of the pool
//! program and its companion programs are injected, so the encoder
//! works against alternate deployments.

use vstd::prelude::*;
use vstd::bytes::*;
use crate::addr::Address;
use crate::errors::EncodeError;
use crate::quote::Side;

verus! {

// ---------------------------------------------------------------------
// Derived addresses.
// ---------------------------------------------------------------------

/// The derived address and bump seed that the chain's address-derivation
/// scheme yields for a program and a list of seeds, if any bump yields
/// an address off the signing curve.
pub uninterp spec fn pda_of(program: Seq<u8>, seeds: Seq<Seq<u8>>) -> Option<(Seq<u8>, u8)>;

/// Relies on `solana_program::pubkey::Pubkey::try_find_program_address`:
/// the derived address and bump seed are a deterministic function of
/// the seeds and the program address alone, the returned address is 32
/// bytes, and `None` is returned when no bump seed yields a valid
/// derived address.
#[verifier::external_body]
fn find_pda(program_id: &Address, seeds: &Vec<Vec<u8>>) -> (r: Option<(Address, u8)>)
    requires
        program_id@.len() == 32,
    ensures
        match r {
            Some(p) => p.0@.len() == 32 && Some((p.0@, p.1)) == pda_of(
                program_id@,
                seeds.deep_view(),
            ),
            None => pda_of(program_id@, seeds.deep_view()) is None,
        },
{
    let mut key = [0u8; 32];
    key.copy_from_slice(program_id.bytes.as_slice());
    let program = solana_program::pubkey::Pubkey::new_from_array(key);
    let seed_slices: Vec<&[u8]> = seeds.iter().map(|s| s.as_slice()).collect();
    solana_program::pubkey::Pubkey::try_find_program_address(seed_slices.as_slice(), &program)
        .map(|(addr, bump)| (Address { bytes: addr.to_bytes().to_vec() }, bump))
}

/// Seeds of a pool vault's derived address: the tag `"vault"`, the pool
/// address, the mint address.
pub open spec fn spec_vault_seeds(pool: Seq<u8>, mint: Seq<u8>) -> Seq<Seq<u8>> {
    seq![seq![118u8, 97u8, 117u8, 108u8, 116u8], pool, mint]
}

/// Seeds of a liquidity position's derived address: the tag
/// `"lp_position"`, the pool address, the trader address.
pub open spec fn spec_lp_position_seeds(pool: Seq<u8>, trader: Seq<u8>) -> Seq<Seq<u8>> {
    seq![
        seq![108u8, 112u8, 95u8, 112u8, 111u8, 115u8, 105u8, 116u8, 105u8, 111u8, 110u8],
        pool,
        trader,
    ]
}

/// Seeds of the log authority's derived address: the tag `"log"`.
pub open spec fn spec_log_seeds() -> Seq<Seq<u8>> {
    seq![seq![108u8, 111u8, 103u8]]
}

/// Builds the vault seed list for `(pool, mint)`.
fn vault_seeds(pool: &Address, mint: &Address) -> (r: Vec<Vec<u8>>)
    ensures
        r.deep_view() == spec_vault_seeds(pool@, mint@),
{
    let mut tag: Vec<u8> = Vec::new();
    tag.push(118);
    tag.push(97);
    tag.push(117);
    tag.push(108);
    tag.push(116);
    let mut v: Vec<Vec<u8>> = Vec::new();
    v.push(tag);
    v.push(pool.clone().bytes);
    v.push(mint.clone().bytes);
    proof {
        assert(v.deep_view() =~~= spec_vault_seeds(pool@, mint@));
    }
    v
}

/// Builds the liquidity-position seed list for `(pool, trader)`.
fn lp_position_seeds(pool: &Address, trader: &Address) -> (r: Vec<Vec<u8>>)
    ensures
        r.deep_view() == spec_lp_position_seeds(pool@, trader@),
{
    let mut tag: Vec<u8> = Vec::new();
    tag.push(108);
    tag.push(112);
    tag.push(95);
    tag.push(112);
    tag.push(111);
    tag.push(115);
    tag.push(105);
    tag.push(116);
    tag.push(105);
    tag.push(111);
    tag.push(110);
    let mut v: Vec<Vec<u8>> = Vec::new();
    v.push(tag);
    v.push(pool.clone().bytes);
    v.push(trader.clone().bytes);
    proof {
        assert(v.deep_view() =~~= spec_lp_position_seeds(pool@, trader@));
    }
    v
}

/// Builds the log-authority seed list.
fn log_seeds() -> (r: Vec<Vec<u8>>)
    ensures
        r.deep_view() == spec_log_seeds(),
{
    let mut tag: Vec<u8> = Vec::new();
    tag.push(108);
    tag.push(111);
    tag.push(103);
    let mut v: Vec<Vec<u8>> = Vec::new();
    v.push(tag);
    proof {
        assert(v.deep_view() =~~= spec_log_seeds());
    }
    v
}

/// Derives the pool's vault address for a mint, with its bump seed.
pub fn get_vault_address(plasma_program_id: &Address, pool: &Address, mint: &Address) -> (r:
    Option<(Address, u8)>)
    requires
        plasma_program_id.wf(),
    ensures
        match r {
            Some(p) => p.0.wf() && Some((p.0@, p.1)) == pda_of(
                plasma_program_id@,
                spec_vault_seeds(pool@, mint@),
            ),
            None => pda_of(plasma_program_id@, spec_vault_seeds(pool@, mint@)) is None,
        },
{
    let seeds = vault_seeds(pool, mint);
    find_pda(plasma_program_id, &seeds)
}

/// Derives a trader's liquidity-position address, with its bump seed.
pub fn get_lp_position_address(plasma_program_id: &Address, pool: &Address, trader: &Address) -> (r:
    Option<(Address, u8)>)
    requires
        plasma_program_id.wf(),
    ensures
        match r {
            Some(p) => p.0.wf() && Some((p.0@, p.1)) == pda_of(
                plasma_program_id@,
                spec_lp_position_seeds(pool@, trader@),
            ),
            None => pda_of(plasma_program_id@, spec_lp_position_seeds(pool@, trader@)) is None,
        },
{
    let seeds = lp_position_seeds(pool, trader);
    find_pda(plasma_program_id, &seeds)
}

/// Derives the pool program's log authority address.
pub fn get_log_authority(plasma_program_id: &Address) -> (r: Option<Address>)
    requires
        plasma_program_id.wf(),
    ensures
        match r {
            Some(a) => a.wf() && (pda_of(plasma_program_id@, spec_log_seeds()) matches Some(p)
                && a@ == p.0),
            None => pda_of(plasma_program_id@, spec_log_seeds()) is None,
        },
{
    let seeds = log_seeds();
    match find_pda(plasma_program_id, &seeds) {
        Some(p) => Some(p.0),
        None => None,
    }
}

// ---------------------------------------------------------------------
// Instructions and account references.
// ---------------------------------------------------------------------

/// One account reference of an instruction, tagged writable and signer.
#[derive(Debug)]
pub struct AccountRef {
    pub key: Address,
    pub is_writable: bool,
    pub is_signer: bool,
}

/// Mathematical model of [`AccountRef`].
pub struct AccountRefModel {
    pub key: Seq<u8>,
    pub is_writable: bool,
    pub is_signer: bool,
}

impl View for AccountRef {
    type V = AccountRefModel;

    open spec fn view(&self) -> AccountRefModel {
        AccountRefModel { key: self.key@, is_writable: self.is_writable, is_signer: self.is_signer }
    }
}

/// A submittable instruction: the pool program to invoke, the ordered
/// account references, and the opaque data payload.
#[derive(Debug)]
pub struct PoolInstruction {
    pub program_id: Address,
    pub accounts: Vec<AccountRef>,
    pub data: Vec<u8>,
}

/// Mathematical model of [`PoolInstruction`].
pub struct InstructionModel {
    pub program_id: Seq<u8>,
    pub accounts: Seq<AccountRefModel>,
    pub data: Seq<u8>,
}

impl View for PoolInstruction {
    type V = InstructionModel;

    open spec fn view(&self) -> InstructionModel {
        InstructionModel {
            program_id: self.program_id@,
            accounts: self.accounts@.map_values(|a: AccountRef| a@),
            data: self.data@,
        }
    }
}

/// An account-reference model, briefly.
pub open spec fn spec_meta(key: Seq<u8>, is_writable: bool, is_signer: bool) -> AccountRefModel {
    AccountRefModel { key, is_writable, is_signer }
}

/// Builds one account reference.
fn meta(key: &Address, is_writable: bool, is_signer: bool) -> (r: AccountRef)
    ensures
        r@ == spec_meta(key@, is_writable, is_signer),
{
    AccountRef { key: key.clone(), is_writable, is_signer }
}

/// The process-wide program identifiers an encoder call runs against:
/// the pool program itself, the token program, and the system program.
#[derive(Debug)]
pub struct ProgramConfig {
    pub program_id: Address,
    pub token_program_id: Address,
    pub system_program_id: Address,
}

/// Mathematical model of [`ProgramConfig`].
pub struct ProgramConfigModel {
    pub program_id: Seq<u8>,
    pub token_program_id: Seq<u8>,
    pub system_program_id: Seq<u8>,
}

impl View for ProgramConfig {
    type V = ProgramConfigModel;

    open spec fn view(&self) -> ProgramConfigModel {
        ProgramConfigModel {
            program_id: self.program_id@,
            token_program_id: self.token_program_id@,
            system_program_id: self.system_program_id@,
        }
    }
}

impl ProgramConfig {
    /// A well-formed configuration holds three 32-byte addresses.
    pub open spec fn wf(&self) -> bool {
        &&& self.program_id.wf()
        &&& self.token_program_id.wf()
        &&& self.system_program_id.wf()
    }
}

// ---------------------------------------------------------------------
// Operation parameters and their canonical byte encodings.
// ---------------------------------------------------------------------

/// The share allocation of one protocol fee recipient, as supplied when
/// a pool is initialized.
#[derive(Debug)]
pub struct ProtocolFeeRecipientParams {
    /// Address that will collect this share of the protocol fees.
    pub recipient: Address,
    /// Basis-point allocation of the protocol fees.
    pub shares: u64,
}

/// Mathematical model of [`ProtocolFeeRecipientParams`].
pub struct ProtocolFeeRecipientParamsModel {
    pub recipient: Seq<u8>,
    pub shares: u64,
}

impl View for ProtocolFeeRecipientParams {
    type V = ProtocolFeeRecipientParamsModel;

    open spec fn view(&self) -> ProtocolFeeRecipientParamsModel {
        ProtocolFeeRecipientParamsModel { recipient: self.recipient@, shares: self.shares }
    }
}

/// Parameters of the initialize-pool operation.
#[derive(Debug)]
pub struct InitializePoolParams {
    /// Fee charged to takers, in basis points, that accrues to the
    /// liquidity providers.
    pub lp_fee_in_bps: u64,
    /// Percentage of the taker fee that accrues to the protocol.
    pub protocol_fee_allocation_in_pct: u64,
    /// Exactly three fee-recipient slots.
    pub fee_recipients_params: Vec<ProtocolFeeRecipientParams>,
    /// Number of slots over which newly minted shares vest; rounded
    /// down to a multiple of the leader slot window by the program.
    pub num_slots_to_vest_lp_shares: Option<u64>,
}

/// Mathematical model of [`InitializePoolParams`].
pub struct InitializePoolParamsModel {
    pub lp_fee_in_bps: u64,
    pub protocol_fee_allocation_in_pct: u64,
    pub fee_recipients_params: Seq<ProtocolFeeRecipientParamsModel>,
    pub num_slots_to_vest_lp_shares: Option<u64>,
}

impl View for InitializePoolParams {
    type V = InitializePoolParamsModel;

    open spec fn view(&self) -> InitializePoolParamsModel {
        InitializePoolParamsModel {
            lp_fee_in_bps: self.lp_fee_in_bps,
            protocol_fee_allocation_in_pct: self.protocol_fee_allocation_in_pct,
            fee_recipients_params: self.fee_recipients_params@.map_values(
                |p: ProtocolFeeRecipientParams| p@,
            ),
            num_slots_to_vest_lp_shares: self.num_slots_to_vest_lp_shares,
        }
    }
}

impl InitializePoolParams {
    /// A well-formed value has exactly three recipient slots with
    /// 32-byte addresses.
    pub open spec fn wf(&self) -> bool {
        &&& self.fee_recipients_params@.len() == 3
        &&& forall|i: int|
            0 <= i < 3 ==> (#[trigger] self.fee_recipients_params@[i]).recipient@.len() == 32
    }
}

/// Parameters of the add-liquidity operation.
#[derive(Clone, Copy, Debug, PartialEq, Eq, Structural)]
pub struct AddLiquidityParams {
    /// Base-token amount the provider wants to deposit.
    pub desired_base_amount_in: u64,
    /// Quote-token amount the provider wants to deposit.
    pub desired_quote_amount_in: u64,
    /// Share count for the pool's first deposit, absent afterwards.
    pub initial_lp_shares: Option<u64>,
}

/// Trade-size mode of a swap: either the input or the output amount is
/// fixed, and the other side carries the slippage bound.  The bound is
/// carried through to the program, not enforced here.
#[derive(Clone, Copy, Debug, PartialEq, Eq, Structural)]
pub enum SwapType {
    /// Fixed input amount, minimum acceptable output.
    ExactIn { amount_in: u64, min_amount_out: u64 },
    /// Fixed output amount, maximum acceptable input.
    ExactOut { amount_out: u64, max_amount_in: u64 },
}

/// Parameters of the swap operation.
#[derive(Clone, Copy, Debug, PartialEq, Eq, Structural)]
pub struct SwapParams {
    /// Trade direction relative to the base token.
    pub side: Side,
    /// Trade-size mode and amounts.
    pub swap_type: SwapType,
}

/// A liquidity provider's position in one pool: created once, mutated
/// by liquidity operations, never deleted.
#[derive(Clone, Copy, Debug)]
pub struct LpPosition {
    /// Reward-factor snapshot at the provider's last interaction, used
    /// for pro-rata fee accrual.
    pub reward_factor_snapshot: i128,
    /// Current share count.
    pub lp_shares: u64,
    /// The subset of the shares that is withdrawable now; the rest is
    /// still vesting.
    pub withdrawable_lp_shares: u64,
    /// Fees accrued to the position and not yet collected.
    pub uncollected_fees: u64,
    /// Fees already collected from the position.
    pub collected_fees: u64,
    /// Shares awaiting vesting: the slot they were minted at and their
    /// count.
    pub pending_shares_to_vest: (u64, u64),
}

impl Default for ProtocolFeeRecipientParams {
    /// The empty slot: the all-zero address with no shares.
    fn default() -> (r: Self)
        ensures
            r.recipient@ == Seq::new(32, |i: int| 0u8),
            r.shares == 0,
    {
        ProtocolFeeRecipientParams { recipient: Address::zeroed(), shares: 0 }
    }
}

impl Default for AddLiquidityParams {
    /// All amounts zero, no initial share count.
    fn default() -> (r: Self)
        ensures
            r == (AddLiquidityParams {
                desired_base_amount_in: 0,
                desired_quote_amount_in: 0,
                initial_lp_shares: None,
            }),
    {
        AddLiquidityParams {
            desired_base_amount_in: 0,
            desired_quote_amount_in: 0,
            initial_lp_shares: None,
        }
    }
}

impl Default for InitializePoolParams {
    /// No fees, three empty recipient slots, no vesting window.
    fn default() -> (r: Self)
        ensures
            r.wf(),
            r.lp_fee_in_bps == 0,
            r.protocol_fee_allocation_in_pct == 0,
            r.num_slots_to_vest_lp_shares is None,
    {
        let mut fee_recipients_params: Vec<ProtocolFeeRecipientParams> = Vec::new();
        fee_recipients_params.push(ProtocolFeeRecipientParams::default());
        fee_recipients_params.push(ProtocolFeeRecipientParams::default());
        fee_recipients_params.push(ProtocolFeeRecipientParams::default());
        InitializePoolParams {
            lp_fee_in_bps: 0,
            protocol_fee_allocation_in_pct: 0,
            fee_recipients_params,
            num_slots_to_vest_lp_shares: None,
        }
    }
}

/// Wire size of a liquidity position, in bytes.
pub const LP_POSITION_LEN: u64 = 64;

/// The two's-complement bit pattern of a signed 128-bit value, as an
/// unsigned value.
pub open spec fn spec_i128_as_u128(x: i128) -> u128 {
    if x >= 0 {
        x as u128
    } else {
        (x + 0x100000000000000000000000000000000) as u128
    }
}

/// The signed 128-bit value carried by an unsigned two's-complement bit
/// pattern.
pub open spec fn spec_u128_as_i128(u: u128) -> i128 {
    if u < 0x80000000000000000000000000000000 {
        u as i128
    } else {
        (u - 0x100000000000000000000000000000000) as i128
    }
}

/// Reinterprets a signed 128-bit value as its unsigned bit pattern.
fn i128_to_unsigned(x: i128) -> (r: u128)
    ensures
        r == spec_i128_as_u128(x),
{
    if x >= 0 {
        x as u128
    } else {
        let neg: i128 = -(x + 1);
        u128::MAX - (neg as u128)
    }
}

/// Reinterprets an unsigned two's-complement bit pattern as signed.
fn u128_to_signed(u: u128) -> (r: i128)
    ensures
        r == spec_u128_as_i128(u),
{
    if u <= i128::MAX as u128 {
        u as i128
    } else {
        let neg: u128 = u128::MAX - u;
        -(neg as i128) - 1
    }
}

/// Wire bytes of a liquidity position: the reward-factor snapshot as a
/// little-endian 128-bit word, then six little-endian 64-bit words.
pub open spec fn spec_lp_position_bytes(p: LpPosition) -> Seq<u8> {
    spec_u128_to_le_bytes(spec_i128_as_u128(p.reward_factor_snapshot)) + spec_u64_to_le_bytes(
        p.lp_shares,
    ) + spec_u64_to_le_bytes(p.withdrawable_lp_shares) + spec_u64_to_le_bytes(p.uncollected_fees)
        + spec_u64_to_le_bytes(p.collected_fees) + spec_u64_to_le_bytes(p.pending_shares_to_vest.0)
        + spec_u64_to_le_bytes(p.pending_shares_to_vest.1)
}

/// A liquidity position read from the first 64 bytes of `b`.
pub open spec fn spec_decode_lp_position(b: Seq<u8>) -> LpPosition {
    LpPosition {
        reward_factor_snapshot: spec_u128_as_i128(spec_u128_from_le_bytes(b.subrange(0, 16))),
        lp_shares: spec_u64_from_le_bytes(b.subrange(16, 24)),
        withdrawable_lp_shares: spec_u64_from_le_bytes(b.subrange(24, 32)),
        uncollected_fees: spec_u64_from_le_bytes(b.subrange(32, 40)),
        collected_fees: spec_u64_from_le_bytes(b.subrange(40, 48)),
        pending_shares_to_vest: (
            spec_u64_from_le_bytes(b.subrange(48, 56)),
            spec_u64_from_le_bytes(b.subrange(56, 64)),
        ),
    }
}

/// Encodes a liquidity position into its 64 wire bytes.
pub fn encode_lp_position(p: &LpPosition) -> (r: Vec<u8>)
    ensures
        r@ == spec_lp_position_bytes(*p),
        r@.len() == LP_POSITION_LEN,
{
    let mut out: Vec<u8> = Vec::new();
    let reward_bits = u128_to_le_bytes(i128_to_unsigned(p.reward_factor_snapshot));
    crate::layout::append_bytes(&mut out, &reward_bits);
    crate::layout::append_u64(&mut out, p.lp_shares);
    crate::layout::append_u64(&mut out, p.withdrawable_lp_shares);
    crate::layout::append_u64(&mut out, p.uncollected_fees);
    crate::layout::append_u64(&mut out, p.collected_fees);
    crate::layout::append_u64(&mut out, p.pending_shares_to_vest.0);
    crate::layout::append_u64(&mut out, p.pending_shares_to_vest.1);
    proof {
        lemma_auto_spec_u64_to_from_le_bytes();
        lemma_auto_spec_u128_to_from_le_bytes();
        assert(out@ =~= spec_lp_position_bytes(*p));
    }
    out
}

/// Decodes a liquidity position from a raw buffer, which must be
/// exactly 64 bytes.
pub fn decode_lp_position(bytes: &Vec<u8>) -> (r: Result<LpPosition, crate::errors::DecodeError>)
    ensures
        bytes@.len() != LP_POSITION_LEN ==> r == Err::<LpPosition, crate::errors::DecodeError>(
            crate::errors::DecodeError::Truncated,
        ),
        bytes@.len() == LP_POSITION_LEN ==> r == Ok::<LpPosition, crate::errors::DecodeError>(
            spec_decode_lp_position(bytes@),
        ),
{
    if bytes.len() != 64 {
        return Err(crate::errors::DecodeError::Truncated);
    }
    let reward_slice = vstd::slice::slice_subrange(bytes.as_slice(), 0, 16);
    let reward_factor_snapshot = u128_to_signed(u128_from_le_bytes(reward_slice));
    Ok(
        LpPosition {
            reward_factor_snapshot,
            lp_shares: crate::layout::read_u64(bytes, 16),
            withdrawable_lp_shares: crate::layout::read_u64(bytes, 24),
            uncollected_fees: crate::layout::read_u64(bytes, 32),
            collected_fees: crate::layout::read_u64(bytes, 40),
            pending_shares_to_vest: (
                crate::layout::read_u64(bytes, 48),
                crate::layout::read_u64(bytes, 56),
            ),
        },
    )
}

/// Decoding the encoded form of any liquidity position restores every
/// field, the sign of the reward factor included.
pub proof fn lemma_lp_position_round_trip(p: LpPosition)
    ensures
        spec_decode_lp_position(spec_lp_position_bytes(p)) == p,
{
    lemma_auto_spec_u64_to_from_le_bytes();
    lemma_auto_spec_u128_to_from_le_bytes();
    let b = spec_lp_position_bytes(p);
    assert(b.subrange(0, 16) =~= spec_u128_to_le_bytes(spec_i128_as_u128(p.reward_factor_snapshot)));
    assert(b.subrange(16, 24) =~= spec_u64_to_le_bytes(p.lp_shares));
    assert(b.subrange(24, 32) =~= spec_u64_to_le_bytes(p.withdrawable_lp_shares));
    assert(b.subrange(32, 40) =~= spec_u64_to_le_bytes(p.uncollected_fees));
    assert(b.subrange(40, 48) =~= spec_u64_to_le_bytes(p.collected_fees));
    assert(b.subrange(48, 56) =~= spec_u64_to_le_bytes(p.pending_shares_to_vest.0));
    assert(b.subrange(56, 64) =~= spec_u64_to_le_bytes(p.pending_shares_to_vest.1));
}

/// Canonical encoding of an optional 64-bit word: a presence byte,
/// then the value's little-endian bytes if present.
pub open spec fn spec_option_u64_bytes(v: Option<u64>) -> Seq<u8> {
    match v {
        None => seq![0u8],
        Some(x) => seq![1u8] + spec_u64_to_le_bytes(x),
    }
}

/// Wire bytes of one fee-recipient parameter slot.
pub open spec fn spec_fee_recipient_params_bytes(p: ProtocolFeeRecipientParamsModel) -> Seq<u8> {
    p.recipient + spec_u64_to_le_bytes(p.shares)
}

/// Wire bytes of the initialize-pool parameters.
pub open spec fn spec_initialize_pool_params_bytes(p: InitializePoolParamsModel) -> Seq<u8> {
    spec_u64_to_le_bytes(p.lp_fee_in_bps) + spec_u64_to_le_bytes(p.protocol_fee_allocation_in_pct)
        + spec_fee_recipient_params_bytes(p.fee_recipients_params[0])
        + spec_fee_recipient_params_bytes(p.fee_recipients_params[1])
        + spec_fee_recipient_params_bytes(p.fee_recipients_params[2]) + spec_option_u64_bytes(
        p.num_slots_to_vest_lp_shares,
    )
}

/// Wire bytes of the add-liquidity parameters.
pub open spec fn spec_add_liquidity_params_bytes(p: AddLiquidityParams) -> Seq<u8> {
    spec_u64_to_le_bytes(p.desired_base_amount_in) + spec_u64_to_le_bytes(
        p.desired_quote_amount_in,
    ) + spec_option_u64_bytes(p.initial_lp_shares)
}

/// Wire byte of a trade direction.
pub open spec fn spec_side_bytes(s: Side) -> Seq<u8> {
    match s {
        Side::Buy => seq![0u8],
        Side::Sell => seq![1u8],
    }
}

/// Wire bytes of a trade-size mode: a variant byte, then the two
/// amounts.
pub open spec fn spec_swap_type_bytes(t: SwapType) -> Seq<u8> {
    match t {
        SwapType::ExactIn { amount_in, min_amount_out } => seq![0u8] + spec_u64_to_le_bytes(
            amount_in,
        ) + spec_u64_to_le_bytes(min_amount_out),
        SwapType::ExactOut { amount_out, max_amount_in } => seq![1u8] + spec_u64_to_le_bytes(
            amount_out,
        ) + spec_u64_to_le_bytes(max_amount_in),
    }
}

/// Wire bytes of the swap parameters.
pub open spec fn spec_swap_params_bytes(p: SwapParams) -> Seq<u8> {
    spec_side_bytes(p.side) + spec_swap_type_bytes(p.swap_type)
}

/// Appends the canonical bytes of an optional 64-bit word.
fn append_option_u64(out: &mut Vec<u8>, v: &Option<u64>)
    ensures
        final(out)@ == old(out)@ + spec_option_u64_bytes(*v),
{
    match v {
        None => {
            out.push(0);
            assert(out@ =~= old(out)@ + spec_option_u64_bytes(None));
        },
        Some(x) => {
            out.push(1);
            crate::layout::append_u64(out, *x);
            assert(out@ =~= old(out)@ + spec_option_u64_bytes(Some(*x)));
        },
    }
}

/// Encodes the initialize-pool parameters.
pub fn encode_initialize_pool_params(p: &InitializePoolParams) -> (r: Vec<u8>)
    requires
        p.wf(),
    ensures
        r@ == spec_initialize_pool_params_bytes(p@),
{
    let mut out: Vec<u8> = Vec::new();
    crate::layout::append_u64(&mut out, p.lp_fee_in_bps);
    crate::layout::append_u64(&mut out, p.protocol_fee_allocation_in_pct);
    let mut i: usize = 0;
    while i < 3
        invariant
            p.wf(),
            i <= 3,
            out@ == spec_u64_to_le_bytes(p.lp_fee_in_bps) + spec_u64_to_le_bytes(
                p.protocol_fee_allocation_in_pct,
            ) + prefix_recipients(p@, i as int),
        decreases 3 - i,
    {
        crate::layout::append_bytes(&mut out, &p.fee_recipients_params[i].recipient.bytes);
        crate::layout::append_u64(&mut out, p.fee_recipients_params[i].shares);
        proof {
            assert(prefix_recipients(p@, i as int + 1) =~= prefix_recipients(p@, i as int)
                + spec_fee_recipient_params_bytes(p@.fee_recipients_params[i as int]));
            assert(out@ =~= spec_u64_to_le_bytes(p.lp_fee_in_bps) + spec_u64_to_le_bytes(
                p.protocol_fee_allocation_in_pct,
            ) + prefix_recipients(p@, i as int + 1));
        }
        i += 1;
    }
    append_option_u64(&mut out, &p.num_slots_to_vest_lp_shares);
    proof {
        assert(prefix_recipients(p@, 0) == Seq::<u8>::empty());
        assert(prefix_recipients(p@, 1) == prefix_recipients(p@, 0)
            + spec_fee_recipient_params_bytes(p@.fee_recipients_params[0]));
        assert(prefix_recipients(p@, 2) == prefix_recipients(p@, 1)
            + spec_fee_recipient_params_bytes(p@.fee_recipients_params[1]));
        assert(prefix_recipients(p@, 3) == prefix_recipients(p@, 2)
            + spec_fee_recipient_params_bytes(p@.fee_recipients_params[2]));
        assert(prefix_recipients(p@, 3) =~= spec_fee_recipient_params_bytes(
            p@.fee_recipients_params[0],
        ) + spec_fee_recipient_params_bytes(p@.fee_recipients_params[1])
            + spec_fee_recipient_params_bytes(p@.fee_recipients_params[2]));
        assert(out@ =~= spec_initialize_pool_params_bytes(p@));
    }
    out
}

/// The concatenated wire bytes of the first `n` fee-recipient slots.
pub open spec fn prefix_recipients(p: InitializePoolParamsModel, n: int) -> Seq<u8>
    decreases n,
{
    if n <= 0 {
        Seq::empty()
    } else {
        prefix_recipients(p, n - 1) + spec_fee_recipient_params_bytes(
            p.fee_recipients_params[n - 1],
        )
    }
}

/// Encodes the add-liquidity parameters.
pub fn encode_add_liquidity_params(p: &AddLiquidityParams) -> (r: Vec<u8>)
    ensures
        r@ == spec_add_liquidity_params_bytes(*p),
{
    let mut out: Vec<u8> = Vec::new();
    crate::layout::append_u64(&mut out, p.desired_base_amount_in);
    crate::layout::append_u64(&mut out, p.desired_quote_amount_in);
    append_option_u64(&mut out, &p.initial_lp_shares);
    assert(out@ =~= spec_add_liquidity_params_bytes(*p));
    out
}

/// Encodes the swap parameters.
pub fn encode_swap_params(p: &SwapParams) -> (r: Vec<u8>)
    ensures
        r@ == spec_swap_params_bytes(*p),
{
    let mut out: Vec<u8> = Vec::new();
    match p.side {
        Side::Buy => out.push(0),
        Side::Sell => out.push(1),
    }
    match p.swap_type {
        SwapType::ExactIn { amount_in, min_amount_out } => {
            out.push(0);
            crate::layout::append_u64(&mut out, amount_in);
            crate::layout::append_u64(&mut out, min_amount_out);
        },
        SwapType::ExactOut { amount_out, max_amount_in } => {
            out.push(1);
            crate::layout::append_u64(&mut out, amount_out);
            crate::layout::append_u64(&mut out, max_amount_in);
        },
    }
    assert(out@ =~= spec_swap_params_bytes(*p));
    out
}

// ---------------------------------------------------------------------
// The instruction builders.
// ---------------------------------------------------------------------

/// The initialize-pool instruction: its fixed account list and its
/// payload, or nothing if a required derived address does not exist.
pub open spec fn spec_initialize_pool_instruction(
    cfg: ProgramConfigModel,
    pool: Seq<u8>,
    creator: Seq<u8>,
    base_mint: Seq<u8>,
    quote_mint: Seq<u8>,
    params: InitializePoolParamsModel,
) -> Option<InstructionModel> {
    match (
        pda_of(cfg.program_id, spec_vault_seeds(pool, base_mint)),
        pda_of(cfg.program_id, spec_vault_seeds(pool, quote_mint)),
        pda_of(cfg.program_id, spec_log_seeds()),
    ) {
        (Some(bv), Some(qv), Some(log)) => Some(
            InstructionModel {
                program_id: cfg.program_id,
                accounts: seq![
                    spec_meta(cfg.program_id, false, false),
                    spec_meta(log.0, false, false),
                    spec_meta(pool, true, false),
                    spec_meta(creator, true, true),
                    spec_meta(base_mint, false, false),
                    spec_meta(quote_mint, false, false),
                    spec_meta(bv.0, true, false),
                    spec_meta(qv.0, true, false),
                    spec_meta(cfg.system_program_id, false, false),
                    spec_meta(cfg.token_program_id, false, false),
                ],
                data: seq![6u8] + spec_initialize_pool_params_bytes(params),
            },
        ),
        _ => None,
    }
}

/// Builds the initialize-pool instruction.
pub fn initialize_pool(
    cfg: &ProgramConfig,
    pool_key: &Address,
    pool_creator: &Address,
    base_mint: &Address,
    quote_mint: &Address,
    params: &InitializePoolParams,
) -> (r: Result<PoolInstruction, EncodeError>)
    requires
        cfg.wf(),
        params.wf(),
    ensures
        ({
            let s = spec_initialize_pool_instruction(
                cfg@,
                pool_key@,
                pool_creator@,
                base_mint@,
                quote_mint@,
                params@,
            );
            match r {
                Ok(ix) => Some(ix@) == s,
                Err(e) => e == EncodeError::DerivationFailed && s is None,
            }
        }),
{
    let base_vault = match get_vault_address(&cfg.program_id, pool_key, base_mint) {
        Some(p) => p.0,
        None => {
            return Err(EncodeError::DerivationFailed);
        },
    };
    let quote_vault = match get_vault_address(&cfg.program_id, pool_key, quote_mint) {
        Some(p) => p.0,
        None => {
            return Err(EncodeError::DerivationFailed);
        },
    };
    let log_authority = match get_log_authority(&cfg.program_id) {
        Some(a) => a,
        None => {
            return Err(EncodeError::DerivationFailed);
        },
    };
    let mut accounts: Vec<AccountRef> = Vec::new();
    accounts.push(meta(&cfg.program_id, false, false));
    accounts.push(meta(&log_authority, false, false));
    accounts.push(meta(pool_key, true, false));
    accounts.push(meta(pool_creator, true, true));
    accounts.push(meta(base_mint, false, false));
    accounts.push(meta(quote_mint, false, false));
    accounts.push(meta(&base_vault, true, false));
    accounts.push(meta(&quote_vault, true, false));
    accounts.push(meta(&cfg.system_program_id, false, false));
    accounts.push(meta(&cfg.token_program_id, false, false));
    let mut data: Vec<u8> = Vec::new();
    data.push(6);
    let payload = encode_initialize_pool_params(params);
    crate::layout::append_bytes(&mut data, &payload);
    let ix = PoolInstruction { program_id: cfg.program_id.clone(), accounts, data };
    proof {
        let s = spec_initialize_pool_instruction(
            cfg@,
            pool_key@,
            pool_creator@,
            base_mint@,
            quote_mint@,
            params@,
        );
        assert(ix@.data =~= s->Some_0.data);
        assert(ix@.accounts =~= s->Some_0.accounts);
        assert(ix@ =~~= s->Some_0);
    }
    Ok(ix)
}

/// The initialize-liquidity-position instruction.
pub open spec fn spec_initialize_lp_position_instruction(
    cfg: ProgramConfigModel,
    pool: Seq<u8>,
    payer: Seq<u8>,
    owner: Seq<u8>,
) -> Option<InstructionModel> {
    match (
        pda_of(cfg.program_id, spec_log_seeds()),
        pda_of(cfg.program_id, spec_lp_position_seeds(pool, owner)),
    ) {
        (Some(log), Some(lp)) => Some(
            InstructionModel {
                program_id: cfg.program_id,
                accounts: seq![
                    spec_meta(cfg.program_id, false, false),
                    spec_meta(log.0, false, false),
                    spec_meta(pool, true, false),
                    spec_meta(payer, true, true),
                    spec_meta(owner, false, false),
                    spec_meta(lp.0, true, false),
                    spec_meta(cfg.system_program_id, false, false),
                ],
                data: seq![5u8],
            },
        ),
        _ => None,
    }
}

/// Builds the initialize-liquidity-position instruction.
pub fn initialize_lp_position(
    cfg: &ProgramConfig,
    pool_key: &Address,
    payer: &Address,
    lp_position_owner: &Address,
) -> (r: Result<PoolInstruction, EncodeError>)
    requires
        cfg.wf(),
    ensures
        ({
            let s = spec_initialize_lp_position_instruction(
                cfg@,
                pool_key@,
                payer@,
                lp_position_owner@,
            );
            match r {
                Ok(ix) => Some(ix@) == s,
                Err(e) => e == EncodeError::DerivationFailed && s is None,
            }
        }),
{
    let log_authority = match get_log_authority(&cfg.program_id) {
        Some(a) => a,
        None => {
            return Err(EncodeError::DerivationFailed);
        },
    };
    let lp_position = match get_lp_position_address(&cfg.program_id, pool_key, lp_position_owner) {
        Some(p) => p.0,
        None => {
            return Err(EncodeError::DerivationFailed);
        },
    };
    let mut accounts: Vec<AccountRef> = Vec::new();
    accounts.push(meta(&cfg.program_id, false, false));
    accounts.push(meta(&log_authority, false, false));
    accounts.push(meta(pool_key, true, false));
    accounts.push(meta(payer, true, true));
    accounts.push(meta(lp_position_owner, false, false));
    accounts.push(meta(&lp_position, true, false));
    accounts.push(meta(&cfg.system_program_id, false, false));
    let mut data: Vec<u8> = Vec::new();
    data.push(5);
    let ix = PoolInstruction { program_id: cfg.program_id.clone(), accounts, data };
    proof {
        let s = spec_initialize_lp_position_instruction(cfg@, pool_key@, payer@, lp_position_owner@);
        assert(ix@.data =~= s->Some_0.data);
        assert(ix@.accounts =~= s->Some_0.accounts);
        assert(ix@ =~~= s->Some_0);
    }
    Ok(ix)
}

/// The add-liquidity instruction.
pub open spec fn spec_add_liquidity_instruction(
    cfg: ProgramConfigModel,
    pool: Seq<u8>,
    trader: Seq<u8>,
    base_mint: Seq<u8>,
    base_account: Seq<u8>,
    quote_mint: Seq<u8>,
    quote_account: Seq<u8>,
    params: AddLiquidityParams,
) -> Option<InstructionModel> {
    match (
        pda_of(cfg.program_id, spec_log_seeds()),
        pda_of(cfg.program_id, spec_lp_position_seeds(pool, trader)),
        pda_of(cfg.program_id, spec_vault_seeds(pool, base_mint)),
        pda_of(cfg.program_id, spec_vault_seeds(pool, quote_mint)),
    ) {
        (Some(log), Some(lp), Some(bv), Some(qv)) => Some(
            InstructionModel {
                program_id: cfg.program_id,
                accounts: seq![
                    spec_meta(cfg.program_id, false, false),
                    spec_meta(log.0, false, false),
                    spec_meta(pool, true, false),
                    spec_meta(trader, false, true),
                    spec_meta(lp.0, true, false),
                    spec_meta(base_account, true, false),
                    spec_meta(quote_account, true, false),
                    spec_meta(bv.0, true, false),
                    spec_meta(qv.0, true, false),
                    spec_meta(cfg.token_program_id, false, false),
                ],
                data: seq![1u8] + spec_add_liquidity_params_bytes(params),
            },
        ),
        _ => None,
    }
}

/// Builds the add-liquidity instruction.
pub fn add_liquidity(
    cfg: &ProgramConfig,
    pool_key: &Address,
    trader: &Address,
    base_mint: &Address,
    base_mint_account_key: &Address,
    quote_mint: &Address,
    quote_mint_account_key: &Address,
    params: AddLiquidityParams,
) -> (r: Result<PoolInstruction, EncodeError>)
    requires
        cfg.wf(),
    ensures
        ({
            let s = spec_add_liquidity_instruction(
                cfg@,
                pool_key@,
                trader@,
                base_mint@,
                base_mint_account_key@,
                quote_mint@,
                quote_mint_account_key@,
                params,
            );
            match r {
                Ok(ix) => Some(ix@) == s,
                Err(e) => e == EncodeError::DerivationFailed && s is None,
            }
        }),
{
    let log_authority = match get_log_authority(&cfg.program_id) {
        Some(a) => a,
        None => {
            return Err(EncodeError::DerivationFailed);
        },
    };
    let lp_position = match get_lp_position_address(&cfg.program_id, pool_key, trader) {
        Some(p) => p.0,
        None => {
            return Err(EncodeError::DerivationFailed);
        },
    };
    let base_vault = match get_vault_address(&cfg.program_id, pool_key, base_mint) {
        Some(p) => p.0,
        None => {
            return Err(EncodeError::DerivationFailed);
        },
    };
    let quote_vault = match get_vault_address(&cfg.program_id, pool_key, quote_mint) {
        Some(p) => p.0,
        None => {
            return Err(EncodeError::DerivationFailed);
        },
    };
    let mut accounts: Vec<AccountRef> = Vec::new();
    accounts.push(meta(&cfg.program_id, false, false));
    accounts.push(meta(&log_authority, false, false));
    accounts.push(meta(pool_key, true, false));
    accounts.push(meta(trader, false, true));
    accounts.push(meta(&lp_position, true, false));
    accounts.push(meta(base_mint_account_key, true, false));
    accounts.push(meta(quote_mint_account_key, true, false));
    accounts.push(meta(&base_vault, true, false));
    accounts.push(meta(&quote_vault, true, false));
    accounts.push(meta(&cfg.token_program_id, false, false));
    let mut data: Vec<u8> = Vec::new();
    data.push(1);
    let payload = encode_add_liquidity_params(&params);
    crate::layout::append_bytes(&mut data, &payload);
    let ix = PoolInstruction { program_id: cfg.program_id.clone(), accounts, data };
    proof {
        let s = spec_add_liquidity_instruction(
            cfg@,
            pool_key@,
            trader@,
            base_mint@,
            base_mint_account_key@,
            quote_mint@,
            quote_mint_account_key@,
            params,
        );
        assert(ix@.data =~= s->Some_0.data);
        assert(ix@.accounts =~= s->Some_0.accounts);
        assert(ix@ =~~= s->Some_0);
    }
    Ok(ix)
}

/// The transfer-liquidity instruction.
pub open spec fn spec_transfer_liquidity_instruction(
    cfg: ProgramConfigModel,
    pool: Seq<u8>,
    src: Seq<u8>,
    dst: Seq<u8>,
) -> Option<InstructionModel> {
    match (
        pda_of(cfg.program_id, spec_log_seeds()),
        pda_of(cfg.program_id, spec_lp_position_seeds(pool, src)),
        pda_of(cfg.program_id, spec_lp_position_seeds(pool, dst)),
    ) {
        (Some(log), Some(src_lp), Some(dst_lp)) => Some(
            InstructionModel {
                program_id: cfg.program_id,
                accounts: seq![
                    spec_meta(cfg.program_id, false, false),
                    spec_meta(log.0, false, false),
                    spec_meta(pool, true, false),
                    spec_meta(src, true, true),
                    spec_meta(src_lp.0, true, false),
                    spec_meta(dst_lp.0, true, false),
                ],
                data: seq![9u8],
            },
        ),
        _ => None,
    }
}

/// Builds the transfer-liquidity instruction.
pub fn transfer_liquidity(cfg: &ProgramConfig, pool_key: &Address, src: &Address, dst: &Address)
    -> (r: Result<PoolInstruction, EncodeError>)
    requires
        cfg.wf(),
    ensures
        ({
            let s = spec_transfer_liquidity_instruction(cfg@, pool_key@, src@, dst@);
            match r {
                Ok(ix) => Some(ix@) == s,
                Err(e) => e == EncodeError::DerivationFailed && s is None,
            }
        }),
{
    let log_authority = match get_log_authority(&cfg.program_id) {
        Some(a) => a,
        None => {
            return Err(EncodeError::DerivationFailed);
        },
    };
    let src_lp = match get_lp_position_address(&cfg.program_id, pool_key, src) {
        Some(p) => p.0,
        None => {
            return Err(EncodeError::DerivationFailed);
        },
    };
    let dst_lp = match get_lp_position_address(&cfg.program_id, pool_key, dst) {
        Some(p) => p.0,
        None => {
            return Err(EncodeError::DerivationFailed);
        },
    };
    let mut accounts: Vec<AccountRef> = Vec::new();
    accounts.push(meta(&cfg.program_id, false, false));
    accounts.push(meta(&log_authority, false, false));
    accounts.push(meta(pool_key, true, false));
    accounts.push(meta(src, true, true));
    accounts.push(meta(&src_lp, true, false));
    accounts.push(meta(&dst_lp, true, false));
    let mut data: Vec<u8> = Vec::new();
    data.push(9);
    let ix = PoolInstruction { program_id: cfg.program_id.clone(), accounts, data };
    proof {
        let s = spec_transfer_liquidity_instruction(cfg@, pool_key@, src@, dst@);
        assert(ix@.data =~= s->Some_0.data);
        assert(ix@.accounts =~= s->Some_0.accounts);
        assert(ix@ =~~= s->Some_0);
    }
    Ok(ix)
}

/// The remove-liquidity instruction; its payload carries the share
/// count to burn.
pub open spec fn spec_remove_liquidity_instruction(
    cfg: ProgramConfigModel,
    pool: Seq<u8>,
    trader: Seq<u8>,
    base_mint: Seq<u8>,
    quote_mint: Seq<u8>,
    base_account: Seq<u8>,
    quote_account: Seq<u8>,
    shares: u64,
) -> Option<InstructionModel> {
    match (
        pda_of(cfg.program_id, spec_log_seeds()),
        pda_of(cfg.program_id, spec_lp_position_seeds(pool, trader)),
        pda_of(cfg.program_id, spec_vault_seeds(pool, base_mint)),
        pda_of(cfg.program_id, spec_vault_seeds(pool, quote_mint)),
    ) {
        (Some(log), Some(lp), Some(bv), Some(qv)) => Some(
            InstructionModel {
                program_id: cfg.program_id,
                accounts: seq![
                    spec_meta(cfg.program_id, false, false),
                    spec_meta(log.0, false, false),
                    spec_meta(pool, true, false),
                    spec_meta(trader, false, true),
                    spec_meta(lp.0, true, false),
                    spec_meta(base_account, true, false),
                    spec_meta(quote_account, true, false),
                    spec_meta(bv.0, true, false),
                    spec_meta(qv.0, true, false),
                    spec_meta(cfg.token_program_id, false, false),
                ],
                data: seq![2u8] + spec_u64_to_le_bytes(shares),
            },
        ),
        _ => None,
    }
}

/// Builds the remove-liquidity instruction.
pub fn remove_liquidity(
    cfg: &ProgramConfig,
    pool_key: &Address,
    trader: &Address,
    base_mint: &Address,
    quote_mint: &Address,
    base_account_key: &Address,
    quote_account_key: &Address,
    shares: u64,
) -> (r: Result<PoolInstruction, EncodeError>)
    requires
        cfg.wf(),
    ensures
        ({
            let s = spec_remove_liquidity_instruction(
                cfg@,
                pool_key@,
                trader@,
                base_mint@,
                quote_mint@,
                base_account_key@,
                quote_account_key@,
                shares,
            );
            match r {
                Ok(ix) => Some(ix@) == s,
                Err(e) => e == EncodeError::DerivationFailed && s is None,
            }
        }),
{
    let log_authority = match get_log_authority(&cfg.program_id) {
        Some(a) => a,
        None => {
            return Err(EncodeError::DerivationFailed);
        },
    };
    let lp_position = match get_lp_position_address(&cfg.program_id, pool_key, trader) {
        Some(p) => p.0,
        None => {
            return Err(EncodeError::DerivationFailed);
        },
    };
    let base_vault = match get_vault_address(&cfg.program_id, pool_key, base_mint) {
        Some(p) => p.0,
        None => {
            return Err(EncodeError::DerivationFailed);
        },
    };
    let quote_vault = match get_vault_address(&cfg.program_id, pool_key, quote_mint) {
        Some(p) => p.0,
        None => {
            return Err(EncodeError::DerivationFailed);
        },
    };
    let mut accounts: Vec<AccountRef> = Vec::new();
    accounts.push(meta(&cfg.program_id, false, false));
    accounts.push(meta(&log_authority, false, false));
    accounts.push(meta(pool_key, true, false));
    accounts.push(meta(trader, false, true));
    accounts.push(meta(&lp_position, true, false));
    accounts.push(meta(base_account_key, true, false));
    accounts.push(meta(quote_account_key, true, false));
    accounts.push(meta(&base_vault, true, false));
    accounts.push(meta(&quote_vault, true, false));
    accounts.push(meta(&cfg.token_program_id, false, false));
    let mut data: Vec<u8> = Vec::new();
    data.push(2);
    crate::layout::append_u64(&mut data, shares);
    let ix = PoolInstruction { program_id: cfg.program_id.clone(), accounts, data };
    proof {
        let s = spec_remove_liquidity_instruction(
            cfg@,
            pool_key@,
            trader@,
            base_mint@,
            quote_mint@,
            base_account_key@,
            quote_account_key@,
            shares,
        );
        assert(ix@.data =~= s->Some_0.data);
        assert(ix@.accounts =~= s->Some_0.accounts);
        assert(ix@ =~~= s->Some_0);
    }
    Ok(ix)
}

/// The swap instruction; the direction and the slippage bound travel in
/// the payload, untouched by the encoder.
pub open spec fn spec_swap_instruction(
    cfg: ProgramConfigModel,
    pool: Seq<u8>,
    trader: Seq<u8>,
    base_mint: Seq<u8>,
    quote_mint: Seq<u8>,
    base_account: Seq<u8>,
    quote_account: Seq<u8>,
    params: SwapParams,
) -> Option<InstructionModel> {
    match (
        pda_of(cfg.program_id, spec_log_seeds()),
        pda_of(cfg.program_id, spec_vault_seeds(pool, base_mint)),
        pda_of(cfg.program_id, spec_vault_seeds(pool, quote_mint)),
    ) {
        (Some(log), Some(bv), Some(qv)) => Some(
            InstructionModel {
                program_id: cfg.program_id,
                accounts: seq![
                    spec_meta(cfg.program_id, false, false),
                    spec_meta(log.0, false, false),
                    spec_meta(pool, true, false),
                    spec_meta(trader, false, true),
                    spec_meta(base_account, true, false),
                    spec_meta(quote_account, true, false),
                    spec_meta(bv.0, true, false),
                    spec_meta(qv.0, true, false),
                    spec_meta(cfg.token_program_id, false, false),
                ],
                data: seq![0u8] + spec_swap_params_bytes(params),
            },
        ),
        _ => None,
    }
}

/// Builds the swap instruction.
pub fn swap(
    cfg: &ProgramConfig,
    pool_key: &Address,
    trader: &Address,
    base_mint: &Address,
    quote_mint: &Address,
    base_account_key: &Address,
    quote_account_key: &Address,
    params: SwapParams,
) -> (r: Result<PoolInstruction, EncodeError>)
    requires
        cfg.wf(),
    ensures
        ({
            let s = spec_swap_instruction(
                cfg@,
                pool_key@,
                trader@,
                base_mint@,
                quote_mint@,
                base_account_key@,
                quote_account_key@,
                params,
            );
            match r {
                Ok(ix) => Some(ix@) == s,
                Err(e) => e == EncodeError::DerivationFailed && s is None,
            }
        }),
{
    let log_authority = match get_log_authority(&cfg.program_id) {
        Some(a) => a,
        None => {
            return Err(EncodeError::DerivationFailed);
        },
    };
    let base_vault = match get_vault_address(&cfg.program_id, pool_key, base_mint) {
        Some(p) => p.0,
        None => {
            return Err(EncodeError::DerivationFailed);
        },
    };
    let quote_vault = match get_vault_address(&cfg.program_id, pool_key, quote_mint) {
        Some(p) => p.0,
        None => {
            return Err(EncodeError::DerivationFailed);
        },
    };
    let mut accounts: Vec<AccountRef> = Vec::new();
    accounts.push(meta(&cfg.program_id, false, false));
    accounts.push(meta(&log_authority, false, false));
    accounts.push(meta(pool_key, true, false));
    accounts.push(meta(trader, false, true));
    accounts.push(meta(base_account_key, true, false));
    accounts.push(meta(quote_account_key, true, false));
    accounts.push(meta(&base_vault, true, false));
    accounts.push(meta(&quote_vault, true, false));
    accounts.push(meta(&cfg.token_program_id, false, false));
    let mut data: Vec<u8> = Vec::new();
    data.push(0);
    let payload = encode_swap_params(&params);
    crate::layout::append_bytes(&mut data, &payload);
    let ix = PoolInstruction { program_id: cfg.program_id.clone(), accounts, data };
    proof {
        let s = spec_swap_instruction(
            cfg@,
            pool_key@,
            trader@,
            base_mint@,
            quote_mint@,
            base_account_key@,
            quote_account_key@,
            params,
        );
        assert(ix@.data =~= s->Some_0.data);
        assert(ix@.accounts =~= s->Some_0.accounts);
        assert(ix@ =~~= s->Some_0);
    }
    Ok(ix)
}

/// The swap instruction's fixed schema: whenever the derived addresses
/// exist, the account list has exactly nine entries in the documented
/// order with the documented writable and signer flags, and the payload
/// is the swap discriminator followed by the parameter bytes.  With the
/// builder's exact contract this also pins the encoding: two calls on
/// one argument tuple yield byte-identical output.
pub proof fn lemma_swap_instruction_schema(
    cfg: ProgramConfigModel,
    pool: Seq<u8>,
    trader: Seq<u8>,
    base_mint: Seq<u8>,
    quote_mint: Seq<u8>,
    base_account: Seq<u8>,
    quote_account: Seq<u8>,
    params: SwapParams,
)
    ensures
        spec_swap_instruction(cfg, pool, trader, base_mint, quote_mint, base_account, quote_account, params)
            matches Some(ix) ==> {
            &&& ix.program_id == cfg.program_id
            &&& ix.accounts.len() == 9
            &&& ix.accounts[0] == spec_meta(cfg.program_id, false, false)
            &&& ix.accounts[1] == spec_meta(
                pda_of(cfg.program_id, spec_log_seeds())->Some_0.0,
                false,
                false,
            )
            &&& ix.accounts[2] == spec_meta(pool, true, false)
            &&& ix.accounts[3] == spec_meta(trader, false, true)
            &&& ix.accounts[4] == spec_meta(base_account, true, false)
            &&& ix.accounts[5] == spec_meta(quote_account, true, false)
            &&& ix.accounts[6] == spec_meta(
                pda_of(cfg.program_id, spec_vault_seeds(pool, base_mint))->Some_0.0,
                true,
                false,
            )
            &&& ix.accounts[7] == spec_meta(
                pda_of(cfg.program_id, spec_vault_seeds(pool, quote_mint))->Some_0.0,
                true,
                false,
            )
            &&& ix.accounts[8] == spec_meta(cfg.token_program_id, false, false)
            &&& ix.data == seq![0u8] + spec_swap_params_bytes(params)
        },
{
}

} // verus!
