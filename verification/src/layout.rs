//! Fixed wire layout of the pool account.
//!
//! The on-chain program stores a pool as a fixed 624-byte buffer: an
//! 8-byte discriminator tag, a 528-byte header, and a 96-byte automated
//! market maker payload that this adapter treats as opaque.  Every field
//! sits at a fixed offset; the encode and decode pair below is the
//! explicit statement of that layout, so the contract does not depend on
//! any one language's in-memory struct rules.

use vstd::prelude::*;
use vstd::bytes::*;
use crate::addr::Address;
use crate::errors::DecodeError;

verus! {

/// Total wire size of a pool account, in bytes.
pub const POOL_LEN: u64 = 624;

/// Wire size of the pool header, in bytes.
pub const HEADER_LEN: u64 = 528;

/// The 8-byte tag that identifies a pool account.
pub open spec fn spec_pool_discriminator() -> Seq<u8> {
    seq![116u8, 210u8, 187u8, 119u8, 196u8, 196u8, 52u8, 137u8]
}

/// Builds the 8-byte pool-account tag.
pub fn pool_discriminator() -> (r: Vec<u8>)
    ensures
        r@ == spec_pool_discriminator(),
{
    let mut v: Vec<u8> = Vec::new();
    v.push(116);
    v.push(210);
    v.push(187);
    v.push(119);
    v.push(196);
    v.push(196);
    v.push(52);
    v.push(137);
    assert(v@ =~= spec_pool_discriminator());
    v
}

/// Per-token parameters of one side of the pool.
#[derive(Debug)]
pub struct TokenParams {
    /// Number of decimals of the token.
    pub decimals: u32,
    /// Bump seed of the derived address of the pool's vault for this token.
    pub vault_bump: u32,
    /// Address of the token mint.
    pub mint_key: Address,
    /// Address of the pool's vault for this token.
    pub vault_key: Address,
}

/// Mathematical model of [`TokenParams`].
pub struct TokenParamsModel {
    pub decimals: u32,
    pub vault_bump: u32,
    pub mint_key: Seq<u8>,
    pub vault_key: Seq<u8>,
}

impl View for TokenParams {
    type V = TokenParamsModel;

    open spec fn view(&self) -> TokenParamsModel {
        TokenParamsModel {
            decimals: self.decimals,
            vault_bump: self.vault_bump,
            mint_key: self.mint_key@,
            vault_key: self.vault_key@,
        }
    }
}

/// One protocol fee recipient's bookkeeping.
#[derive(Debug)]
pub struct ProtocolFeeRecipient {
    /// Address that may collect this share of the protocol fees.
    pub recipient: Address,
    /// Basis-point allocation of the protocol fees.
    pub shares: u64,
    /// Quote-token fees accumulated for this recipient so far.
    pub total_accumulated_quote_fees: u64,
    /// Quote-token fees this recipient has already collected.
    pub collected_quote_fees: u64,
}

/// Mathematical model of [`ProtocolFeeRecipient`].
pub struct ProtocolFeeRecipientModel {
    pub recipient: Seq<u8>,
    pub shares: u64,
    pub total_accumulated_quote_fees: u64,
    pub collected_quote_fees: u64,
}

impl View for ProtocolFeeRecipient {
    type V = ProtocolFeeRecipientModel;

    open spec fn view(&self) -> ProtocolFeeRecipientModel {
        ProtocolFeeRecipientModel {
            recipient: self.recipient@,
            shares: self.shares,
            total_accumulated_quote_fees: self.total_accumulated_quote_fees,
            collected_quote_fees: self.collected_quote_fees,
        }
    }
}

/// The fixed table of up to three protocol fee recipients.
#[derive(Debug)]
pub struct ProtocolFeeRecipients {
    /// Exactly three recipient slots; unused slots are zeroed.
    pub recipients: Vec<ProtocolFeeRecipient>,
    /// Reserved bytes; they round-trip unchanged.
    pub padding: Vec<u8>,
}

/// Mathematical model of [`ProtocolFeeRecipients`].
pub struct ProtocolFeeRecipientsModel {
    pub recipients: Seq<ProtocolFeeRecipientModel>,
    pub padding: Seq<u8>,
}

impl View for ProtocolFeeRecipients {
    type V = ProtocolFeeRecipientsModel;

    open spec fn view(&self) -> ProtocolFeeRecipientsModel {
        ProtocolFeeRecipientsModel {
            recipients: self.recipients@.map_values(|r: ProtocolFeeRecipient| r@),
            padding: self.padding@,
        }
    }
}

/// The fixed-offset header of a pool account.
#[derive(Debug)]
pub struct PoolHeader {
    /// 8-byte tag identifying a pool account.
    pub discriminator: Vec<u8>,
    /// Monotonically increasing sequence number.
    pub sequence_number: u64,
    /// Parameters of the base token side.
    pub base_params: TokenParams,
    /// Parameters of the quote token side.
    pub quote_params: TokenParams,
    /// Protocol fee bookkeeping.
    pub fee_recipients: ProtocolFeeRecipients,
    /// Counter of executed swaps.
    pub swap_sequence_number: u64,
    /// Reserved bytes; they round-trip unchanged.
    pub padding: Vec<u8>,
}

/// Mathematical model of [`PoolHeader`].
pub struct PoolHeaderModel {
    pub discriminator: Seq<u8>,
    pub sequence_number: u64,
    pub base_params: TokenParamsModel,
    pub quote_params: TokenParamsModel,
    pub fee_recipients: ProtocolFeeRecipientsModel,
    pub swap_sequence_number: u64,
    pub padding: Seq<u8>,
}

impl View for PoolHeader {
    type V = PoolHeaderModel;

    open spec fn view(&self) -> PoolHeaderModel {
        PoolHeaderModel {
            discriminator: self.discriminator@,
            sequence_number: self.sequence_number,
            base_params: self.base_params@,
            quote_params: self.quote_params@,
            fee_recipients: self.fee_recipients@,
            swap_sequence_number: self.swap_sequence_number,
            padding: self.padding@,
        }
    }
}

/// A whole pool account: the header plus the opaque market-maker payload.
#[derive(Debug)]
pub struct PoolAccount {
    /// The fixed-offset header.
    pub header: PoolHeader,
    /// The 96-byte market-maker state that follows the header; opaque to
    /// this adapter.
    pub amm: Vec<u8>,
}

/// Mathematical model of [`PoolAccount`].
pub struct PoolAccountModel {
    pub header: PoolHeaderModel,
    pub amm: Seq<u8>,
}

impl View for PoolAccount {
    type V = PoolAccountModel;

    open spec fn view(&self) -> PoolAccountModel {
        PoolAccountModel { header: self.header@, amm: self.amm@ }
    }
}

/// Well-formedness of a token-parameters model: both addresses hold 32
/// bytes.
pub open spec fn token_params_model_wf(t: TokenParamsModel) -> bool {
    &&& t.mint_key.len() == 32
    &&& t.vault_key.len() == 32
}

/// Well-formedness of a fee-recipient model.
pub open spec fn fee_recipient_model_wf(r: ProtocolFeeRecipientModel) -> bool {
    r.recipient.len() == 32
}

/// Well-formedness of the fee-recipient table model.
pub open spec fn fee_recipients_model_wf(rs: ProtocolFeeRecipientsModel) -> bool {
    &&& rs.recipients.len() == 3
    &&& forall|i: int| 0 <= i < 3 ==> fee_recipient_model_wf(#[trigger] rs.recipients[i])
    &&& rs.padding.len() == 96
}

/// Well-formedness of a header model: every field has its wire size.
pub open spec fn header_model_wf(h: PoolHeaderModel) -> bool {
    &&& h.discriminator.len() == 8
    &&& token_params_model_wf(h.base_params)
    &&& token_params_model_wf(h.quote_params)
    &&& fee_recipients_model_wf(h.fee_recipients)
    &&& h.padding.len() == 96
}

/// Well-formedness of a pool-account model.
pub open spec fn account_model_wf(a: PoolAccountModel) -> bool {
    &&& header_model_wf(a.header)
    &&& a.amm.len() == 96
}

impl TokenParams {
    /// A well-formed value has 32-byte addresses.
    pub open spec fn wf(&self) -> bool {
        token_params_model_wf(self@)
    }
}

impl ProtocolFeeRecipients {
    /// A well-formed table has exactly three recipients and its reserved
    /// bytes.
    pub open spec fn wf(&self) -> bool {
        fee_recipients_model_wf(self@)
    }
}

impl PoolHeader {
    /// A well-formed header has every field at its wire size.
    pub open spec fn wf(&self) -> bool {
        header_model_wf(self@)
    }
}

impl PoolAccount {
    /// A well-formed account has a well-formed header and the 96-byte
    /// payload.
    pub open spec fn wf(&self) -> bool {
        account_model_wf(self@)
    }
}

impl Default for ProtocolFeeRecipient {
    /// The empty slot: the all-zero address with no shares and no fees.
    fn default() -> (r: Self)
        ensures
            r.recipient@ == Seq::new(32, |i: int| 0u8),
            r.shares == 0,
            r.total_accumulated_quote_fees == 0,
            r.collected_quote_fees == 0,
    {
        ProtocolFeeRecipient {
            recipient: Address::zeroed(),
            shares: 0,
            total_accumulated_quote_fees: 0,
            collected_quote_fees: 0,
        }
    }
}

impl Default for ProtocolFeeRecipients {
    /// Three empty slots and zeroed reserved bytes.
    fn default() -> (r: Self)
        ensures
            r.wf(),
            forall|i: int| 0 <= i < 3 ==> (#[trigger] r@.recipients[i]).shares == 0,
    {
        let mut recipients: Vec<ProtocolFeeRecipient> = Vec::new();
        recipients.push(ProtocolFeeRecipient::default());
        recipients.push(ProtocolFeeRecipient::default());
        recipients.push(ProtocolFeeRecipient::default());
        let mut padding: Vec<u8> = Vec::new();
        let mut i: usize = 0;
        while i < 96
            invariant
                i <= 96,
                padding@.len() == i,
            decreases 96 - i,
        {
            padding.push(0);
            i += 1;
        }
        ProtocolFeeRecipients { recipients, padding }
    }
}

// ---------------------------------------------------------------------
// Encoding: wire bytes of each structure.
// ---------------------------------------------------------------------

/// Wire bytes of per-token parameters: two little-endian 32-bit words,
/// then the mint and vault addresses.
pub open spec fn spec_token_params_bytes(t: TokenParamsModel) -> Seq<u8> {
    spec_u32_to_le_bytes(t.decimals) + spec_u32_to_le_bytes(t.vault_bump) + t.mint_key
        + t.vault_key
}

/// Wire bytes of one fee recipient: the address, then three
/// little-endian 64-bit words.
pub open spec fn spec_fee_recipient_bytes(r: ProtocolFeeRecipientModel) -> Seq<u8> {
    r.recipient + spec_u64_to_le_bytes(r.shares) + spec_u64_to_le_bytes(
        r.total_accumulated_quote_fees,
    ) + spec_u64_to_le_bytes(r.collected_quote_fees)
}

/// Wire bytes of the fee-recipient table: the three slots, then the
/// reserved bytes.
pub open spec fn spec_fee_recipients_bytes(rs: ProtocolFeeRecipientsModel) -> Seq<u8> {
    spec_fee_recipient_bytes(rs.recipients[0]) + spec_fee_recipient_bytes(rs.recipients[1])
        + spec_fee_recipient_bytes(rs.recipients[2]) + rs.padding
}

/// Wire bytes of the pool header, 528 bytes in all.
pub open spec fn spec_header_bytes(h: PoolHeaderModel) -> Seq<u8> {
    h.discriminator + spec_u64_to_le_bytes(h.sequence_number) + spec_token_params_bytes(
        h.base_params,
    ) + spec_token_params_bytes(h.quote_params) + spec_fee_recipients_bytes(h.fee_recipients)
        + spec_u64_to_le_bytes(h.swap_sequence_number) + h.padding
}

/// Wire bytes of a whole pool account, 624 bytes in all.
pub open spec fn spec_account_bytes(a: PoolAccountModel) -> Seq<u8> {
    spec_header_bytes(a.header) + a.amm
}

/// The encoded header of a well-formed model is exactly 528 bytes.
pub proof fn lemma_header_bytes_len(h: PoolHeaderModel)
    requires
        header_model_wf(h),
    ensures
        spec_header_bytes(h).len() == HEADER_LEN,
{
    lemma_auto_spec_u32_to_from_le_bytes();
    lemma_auto_spec_u64_to_from_le_bytes();
}

/// The encoded form of a well-formed account model is exactly 624 bytes.
pub proof fn lemma_account_bytes_len(a: PoolAccountModel)
    requires
        account_model_wf(a),
    ensures
        spec_account_bytes(a).len() == POOL_LEN,
{
    lemma_header_bytes_len(a.header);
}

// ---------------------------------------------------------------------
// Decoding: each field read from its fixed offset.
// ---------------------------------------------------------------------

/// Token parameters read from `b` at byte offset `off`.
pub open spec fn spec_decode_token_params(b: Seq<u8>, off: int) -> TokenParamsModel {
    TokenParamsModel {
        decimals: spec_u32_from_le_bytes(b.subrange(off, off + 4)),
        vault_bump: spec_u32_from_le_bytes(b.subrange(off + 4, off + 8)),
        mint_key: b.subrange(off + 8, off + 40),
        vault_key: b.subrange(off + 40, off + 72),
    }
}

/// One fee recipient read from `b` at byte offset `off`.
pub open spec fn spec_decode_fee_recipient(b: Seq<u8>, off: int) -> ProtocolFeeRecipientModel {
    ProtocolFeeRecipientModel {
        recipient: b.subrange(off, off + 32),
        shares: spec_u64_from_le_bytes(b.subrange(off + 32, off + 40)),
        total_accumulated_quote_fees: spec_u64_from_le_bytes(b.subrange(off + 40, off + 48)),
        collected_quote_fees: spec_u64_from_le_bytes(b.subrange(off + 48, off + 56)),
    }
}

/// The header read from the first 528 bytes of `b`.
pub open spec fn spec_decode_header(b: Seq<u8>) -> PoolHeaderModel {
    PoolHeaderModel {
        discriminator: b.subrange(0, 8),
        sequence_number: spec_u64_from_le_bytes(b.subrange(8, 16)),
        base_params: spec_decode_token_params(b, 16),
        quote_params: spec_decode_token_params(b, 88),
        fee_recipients: ProtocolFeeRecipientsModel {
            recipients: seq![
                spec_decode_fee_recipient(b, 160),
                spec_decode_fee_recipient(b, 216),
                spec_decode_fee_recipient(b, 272),
            ],
            padding: b.subrange(328, 424),
        },
        swap_sequence_number: spec_u64_from_le_bytes(b.subrange(424, 432)),
        padding: b.subrange(432, 528),
    }
}

/// A whole account read from a 624-byte buffer.
pub open spec fn spec_decode_account(b: Seq<u8>) -> PoolAccountModel {
    PoolAccountModel { header: spec_decode_header(b), amm: b.subrange(528, 624) }
}

// ---------------------------------------------------------------------
// The round trip: decoding an encoded header restores every field.
// ---------------------------------------------------------------------

/// Decoding the encoded form of any well-formed header model restores
/// the model exactly, whatever its field values.
pub proof fn lemma_header_round_trip(h: PoolHeaderModel)
    requires
        header_model_wf(h),
    ensures
        spec_decode_header(spec_header_bytes(h)) == h,
{
    lemma_auto_spec_u32_to_from_le_bytes();
    lemma_auto_spec_u64_to_from_le_bytes();
    let b = spec_header_bytes(h);
    assert(b.subrange(0, 8) =~= h.discriminator);
    assert(b.subrange(8, 16) =~= spec_u64_to_le_bytes(h.sequence_number));
    lemma_token_params_at(h, 16, h.base_params);
    lemma_token_params_at(h, 88, h.quote_params);
    lemma_fee_recipient_at(h, 160, h.fee_recipients.recipients[0]);
    lemma_fee_recipient_at(h, 216, h.fee_recipients.recipients[1]);
    lemma_fee_recipient_at(h, 272, h.fee_recipients.recipients[2]);
    assert(b.subrange(328, 424) =~= h.fee_recipients.padding);
    assert(b.subrange(424, 432) =~= spec_u64_to_le_bytes(h.swap_sequence_number));
    assert(b.subrange(432, 528) =~= h.padding);
    assert(spec_decode_header(b).fee_recipients.recipients =~= h.fee_recipients.recipients);
}

/// Helper: the token parameters encoded inside `spec_header_bytes(h)` at
/// offset `off` decode back to `t`.
proof fn lemma_token_params_at(h: PoolHeaderModel, off: int, t: TokenParamsModel)
    requires
        header_model_wf(h),
        off == 16 ==> t == h.base_params,
        off == 88 ==> t == h.quote_params,
        off == 16 || off == 88,
    ensures
        spec_decode_token_params(spec_header_bytes(h), off) == t,
{
    lemma_auto_spec_u32_to_from_le_bytes();
    lemma_auto_spec_u64_to_from_le_bytes();
    let b = spec_header_bytes(h);
    assert(b.subrange(off, off + 4) =~= spec_u32_to_le_bytes(t.decimals));
    assert(b.subrange(off + 4, off + 8) =~= spec_u32_to_le_bytes(t.vault_bump));
    assert(b.subrange(off + 8, off + 40) =~= t.mint_key);
    assert(b.subrange(off + 40, off + 72) =~= t.vault_key);
}

/// Helper: the fee recipient encoded inside `spec_header_bytes(h)` at
/// offset `off` decodes back to `r`.
proof fn lemma_fee_recipient_at(h: PoolHeaderModel, off: int, r: ProtocolFeeRecipientModel)
    requires
        header_model_wf(h),
        off == 160 ==> r == h.fee_recipients.recipients[0],
        off == 216 ==> r == h.fee_recipients.recipients[1],
        off == 272 ==> r == h.fee_recipients.recipients[2],
        off == 160 || off == 216 || off == 272,
    ensures
        spec_decode_fee_recipient(spec_header_bytes(h), off) == r,
{
    lemma_auto_spec_u32_to_from_le_bytes();
    lemma_auto_spec_u64_to_from_le_bytes();
    let b = spec_header_bytes(h);
    assert(b.subrange(off, off + 32) =~= r.recipient);
    assert(b.subrange(off + 32, off + 40) =~= spec_u64_to_le_bytes(r.shares));
    assert(b.subrange(off + 40, off + 48) =~= spec_u64_to_le_bytes(
        r.total_accumulated_quote_fees,
    ));
    assert(b.subrange(off + 48, off + 56) =~= spec_u64_to_le_bytes(r.collected_quote_fees));
}

/// Decoding the encoded form of a well-formed account restores it,
/// payload included.
pub proof fn lemma_account_round_trip(a: PoolAccountModel)
    requires
        account_model_wf(a),
    ensures
        spec_decode_account(spec_account_bytes(a)) == a,
{
    lemma_header_bytes_len(a.header);
    let b = spec_account_bytes(a);
    let hb = spec_header_bytes(a.header);
    assert(b.subrange(0, 528) =~= hb);
    assert(hb.subrange(0, 528) =~= hb);
    lemma_header_round_trip(a.header);
    lemma_decode_depends_on_prefix(b, hb);
    assert(b.subrange(528, 624) =~= a.amm);
}

/// Decoding the header reads only the first 528 bytes: two buffers with
/// the same 528-byte prefix decode to the same header.
pub proof fn lemma_decode_depends_on_prefix(b1: Seq<u8>, b2: Seq<u8>)
    requires
        b1.len() >= 528,
        b2.len() >= 528,
        b1.subrange(0, 528) == b2.subrange(0, 528),
    ensures
        spec_decode_header(b1) == spec_decode_header(b2),
{
    let p1 = b1.subrange(0, 528);
    let p2 = b2.subrange(0, 528);
    assert forall|lo: int, hi: int| 0 <= lo <= hi <= 528 implies b1.subrange(lo, hi)
        == b2.subrange(lo, hi) by {
        assert(b1.subrange(lo, hi) =~= p1.subrange(lo, hi));
        assert(b2.subrange(lo, hi) =~= p2.subrange(lo, hi));
    }
    assert(spec_decode_header(b1).fee_recipients.recipients =~= spec_decode_header(
        b2,
    ).fee_recipients.recipients);
}

// ---------------------------------------------------------------------
// Executable encode and decode.
// ---------------------------------------------------------------------

/// Appends a copy of `src` to `out`.
pub(crate) fn append_bytes(out: &mut Vec<u8>, src: &Vec<u8>)
    ensures
        final(out)@ == old(out)@ + src@,
{
    let n = src.len();
    let mut i: usize = 0;
    while i < n
        invariant
            n == src@.len(),
            i <= n,
            out@ == old(out)@ + src@.subrange(0, i as int),
        decreases n - i,
    {
        out.push(src[i]);
        assert(out@ =~= old(out)@ + src@.subrange(0, i + 1));
        i += 1;
    }
    assert(out@ =~= old(out)@ + src@);
}

/// Appends the 8 little-endian bytes of `v` to `out`.
pub(crate) fn append_u64(out: &mut Vec<u8>, v: u64)
    ensures
        final(out)@ == old(out)@ + spec_u64_to_le_bytes(v),
{
    let bytes = u64_to_le_bytes(v);
    append_bytes(out, &bytes);
}

/// Appends the 4 little-endian bytes of `v` to `out`.
fn append_u32(out: &mut Vec<u8>, v: u32)
    ensures
        final(out)@ == old(out)@ + spec_u32_to_le_bytes(v),
{
    let bytes = u32_to_le_bytes(v);
    append_bytes(out, &bytes);
}

/// Appends the wire bytes of token parameters to `out`.
fn append_token_params(out: &mut Vec<u8>, t: &TokenParams)
    ensures
        final(out)@ == old(out)@ + spec_token_params_bytes(t@),
{
    append_u32(out, t.decimals);
    append_u32(out, t.vault_bump);
    append_bytes(out, &t.mint_key.bytes);
    append_bytes(out, &t.vault_key.bytes);
    assert(out@ =~= old(out)@ + spec_token_params_bytes(t@));
}

/// Appends the wire bytes of one fee recipient to `out`.
fn append_fee_recipient(out: &mut Vec<u8>, r: &ProtocolFeeRecipient)
    ensures
        final(out)@ == old(out)@ + spec_fee_recipient_bytes(r@),
{
    append_bytes(out, &r.recipient.bytes);
    append_u64(out, r.shares);
    append_u64(out, r.total_accumulated_quote_fees);
    append_u64(out, r.collected_quote_fees);
    assert(out@ =~= old(out)@ + spec_fee_recipient_bytes(r@));
}

/// Encodes a pool header into its 528 wire bytes.
pub fn encode_header(h: &PoolHeader) -> (r: Vec<u8>)
    requires
        h.wf(),
    ensures
        r@ == spec_header_bytes(h@),
        r@.len() == HEADER_LEN,
{
    let mut out: Vec<u8> = Vec::new();
    append_bytes(&mut out, &h.discriminator);
    append_u64(&mut out, h.sequence_number);
    append_token_params(&mut out, &h.base_params);
    append_token_params(&mut out, &h.quote_params);
    append_fee_recipient(&mut out, &h.fee_recipients.recipients[0]);
    append_fee_recipient(&mut out, &h.fee_recipients.recipients[1]);
    append_fee_recipient(&mut out, &h.fee_recipients.recipients[2]);
    append_bytes(&mut out, &h.fee_recipients.padding);
    append_u64(&mut out, h.swap_sequence_number);
    append_bytes(&mut out, &h.padding);
    proof {
        assert(h.fee_recipients@.recipients[0] == h.fee_recipients.recipients@.map_values(
            |r: ProtocolFeeRecipient| r@,
        )[0]);
        assert(out@ =~= spec_header_bytes(h@));
        lemma_header_bytes_len(h@);
    }
    out
}

/// Encodes a whole pool account into its 624 wire bytes.
pub fn encode(acct: &PoolAccount) -> (r: Vec<u8>)
    requires
        acct.wf(),
    ensures
        r@ == spec_account_bytes(acct@),
        r@.len() == POOL_LEN,
{
    let mut out = encode_header(&acct.header);
    append_bytes(&mut out, &acct.amm);
    proof {
        lemma_account_bytes_len(acct@);
    }
    out
}

/// Byte-wise equality of two buffers.
fn bytes_eq(a: &Vec<u8>, b: &Vec<u8>) -> (r: bool)
    ensures
        r == (a@ == b@),
{
    if a.len() != b.len() {
        assert(a@.len() != b@.len());
        return false;
    }
    let n = a.len();
    let mut i: usize = 0;
    while i < n
        invariant
            n == a@.len(),
            n == b@.len(),
            i <= n,
            forall|j: int| 0 <= j < i ==> a@[j] == b@[j],
        decreases n - i,
    {
        if a[i] != b[i] {
            return false;
        }
        i += 1;
    }
    assert(a@ =~= b@);
    true
}

/// Copies `len` bytes of `b` starting at `off` into a fresh vector.
fn read_bytes(b: &Vec<u8>, off: usize, len: usize) -> (r: Vec<u8>)
    requires
        off + len <= b@.len(),
    ensures
        r@ == b@.subrange(off as int, off as int + len as int),
{
    let blen = b.len();
    assert(off + len <= blen);
    let mut out: Vec<u8> = Vec::new();
    let mut i: usize = 0;
    while i < len
        invariant
            off + len <= b@.len(),
            b@.len() <= usize::MAX,
            i <= len,
            out@ == b@.subrange(off as int, off as int + i as int),
        decreases len - i,
    {
        out.push(b[off + i]);
        assert(out@ =~= b@.subrange(off as int, off as int + i as int + 1));
        i += 1;
    }
    out
}

/// Reads a 32-byte address from `b` at offset `off`.
fn read_address(b: &Vec<u8>, off: usize) -> (r: Address)
    requires
        off + 32 <= b@.len(),
    ensures
        r@ == b@.subrange(off as int, off as int + 32),
        r.wf(),
{
    Address { bytes: read_bytes(b, off, 32) }
}

/// Reads a little-endian 64-bit word from `b` at offset `off`.
pub(crate) fn read_u64(b: &Vec<u8>, off: usize) -> (r: u64)
    requires
        off + 8 <= b@.len(),
    ensures
        r == spec_u64_from_le_bytes(b@.subrange(off as int, off as int + 8)),
{
    let blen = b.len();
    assert(off + 8 <= blen);
    let s = vstd::slice::slice_subrange(b.as_slice(), off, off + 8);
    u64_from_le_bytes(s)
}

/// Reads a little-endian 32-bit word from `b` at offset `off`.
fn read_u32(b: &Vec<u8>, off: usize) -> (r: u32)
    requires
        off + 4 <= b@.len(),
    ensures
        r == spec_u32_from_le_bytes(b@.subrange(off as int, off as int + 4)),
{
    let blen = b.len();
    assert(off + 4 <= blen);
    let s = vstd::slice::slice_subrange(b.as_slice(), off, off + 4);
    u32_from_le_bytes(s)
}

/// Reads token parameters from `b` at offset `off`.
fn read_token_params(b: &Vec<u8>, off: usize) -> (r: TokenParams)
    requires
        off + 72 <= b@.len(),
    ensures
        r@ == spec_decode_token_params(b@, off as int),
        r.wf(),
{
    let blen = b.len();
    assert(off + 72 <= blen);
    TokenParams {
        decimals: read_u32(b, off),
        vault_bump: read_u32(b, off + 4),
        mint_key: read_address(b, off + 8),
        vault_key: read_address(b, off + 40),
    }
}

/// Reads one fee recipient from `b` at offset `off`.
fn read_fee_recipient(b: &Vec<u8>, off: usize) -> (r: ProtocolFeeRecipient)
    requires
        off + 56 <= b@.len(),
    ensures
        r@ == spec_decode_fee_recipient(b@, off as int),
        fee_recipient_model_wf(r@),
{
    let blen = b.len();
    assert(off + 56 <= blen);
    ProtocolFeeRecipient {
        recipient: read_address(b, off),
        shares: read_u64(b, off + 32),
        total_accumulated_quote_fees: read_u64(b, off + 40),
        collected_quote_fees: read_u64(b, off + 48),
    }
}

/// Decodes a pool account from a raw buffer.
///
/// The buffer must be exactly 624 bytes and carry the pool tag; each
/// failure is reported distinctly.
pub fn decode(bytes: &Vec<u8>) -> (r: Result<PoolAccount, DecodeError>)
    ensures
        bytes@.len() != POOL_LEN ==> r == Err::<PoolAccount, DecodeError>(DecodeError::Truncated),
        bytes@.len() == POOL_LEN && bytes@.subrange(0, 8) != spec_pool_discriminator() ==> r
            == Err::<PoolAccount, DecodeError>(DecodeError::WrongDiscriminator),
        bytes@.len() == POOL_LEN && bytes@.subrange(0, 8) == spec_pool_discriminator() ==> (
        r matches Ok(acct) && acct.wf() && acct@ == spec_decode_account(bytes@)),
{
    if bytes.len() != 624 {
        return Err(DecodeError::Truncated);
    }
    let disc = read_bytes(bytes, 0, 8);
    let expected = pool_discriminator();
    if !bytes_eq(&disc, &expected) {
        return Err(DecodeError::WrongDiscriminator);
    }
    let header = PoolHeader {
        discriminator: disc,
        sequence_number: read_u64(bytes, 8),
        base_params: read_token_params(bytes, 16),
        quote_params: read_token_params(bytes, 88),
        fee_recipients: ProtocolFeeRecipients {
            recipients: {
                let mut rs: Vec<ProtocolFeeRecipient> = Vec::new();
                rs.push(read_fee_recipient(bytes, 160));
                rs.push(read_fee_recipient(bytes, 216));
                rs.push(read_fee_recipient(bytes, 272));
                rs
            },
            padding: read_bytes(bytes, 328, 96),
        },
        swap_sequence_number: read_u64(bytes, 424),
        padding: read_bytes(bytes, 432, 96),
    };
    let amm = read_bytes(bytes, 528, 96);
    let acct = PoolAccount { header, amm };
    proof {
        assert(acct@.header.fee_recipients.recipients =~= spec_decode_header(
            bytes@,
        ).fee_recipients.recipients);
    }
    Ok(acct)
}

} // verus!
