//! Caller-owned snapshots of pool state, and their refresh.
//!
//! The aggregator fetches raw account bytes out of band and hands them
//! to `refresh` as a batch keyed by address.  A snapshot bundles the
//! decoded pool header, the opaque market-maker payload, both vault
//! balances and the chain slot observed in the same batch; the slot
//! drives vesting-window arithmetic, so it must never be paired with a
//! payload from a different fetch.

use vstd::prelude::*;
use vstd::bytes::*;
use crate::addr::Address;
use crate::errors::{DecodeError, RefreshError};
use crate::layout::{
    spec_decode_header, spec_pool_discriminator, decode, PoolHeader,
    PoolHeaderModel, POOL_LEN,
};

verus! {

/// Wire size of a vault token account, in bytes.
pub const TOKEN_ACCOUNT_LEN: u64 = 165;

/// Wire size of the chain clock account, in bytes.
pub const CLOCK_LEN: u64 = 40;

/// The token balance stored in a token-account buffer: a little-endian
/// 64-bit word at byte offset 64.
pub open spec fn spec_token_account_amount(b: Seq<u8>) -> u64 {
    spec_u64_from_le_bytes(b.subrange(64, 72))
}

/// The slot stored in a clock-account buffer: a little-endian 64-bit
/// word at byte offset 0.
pub open spec fn spec_clock_slot(b: Seq<u8>) -> u64 {
    spec_u64_from_le_bytes(b.subrange(0, 8))
}

/// One fetched account: its address and its raw bytes.
#[derive(Debug)]
pub struct AccountEntry {
    pub address: Address,
    pub data: Vec<u8>,
}

/// A batch of fetched accounts, keyed by address.
#[derive(Debug)]
pub struct AccountBatch {
    pub entries: Vec<AccountEntry>,
}

/// The bytes stored in `entries` under `key`: the first entry with a
/// matching address wins.
pub open spec fn spec_lookup(entries: Seq<AccountEntry>, key: Seq<u8>) -> Option<Seq<u8>>
    decreases entries.len(),
{
    if entries.len() == 0 {
        None
    } else if entries[0].address@ == key {
        Some(entries[0].data@)
    } else {
        spec_lookup(entries.drop_first(), key)
    }
}

impl AccountBatch {
    /// Looks up the bytes fetched for `key`.
    pub fn get(&self, key: &Address) -> (r: Option<&Vec<u8>>)
        ensures
            match r {
                Some(d) => spec_lookup(self.entries@, key@) == Some(d@),
                None => spec_lookup(self.entries@, key@) is None,
            },
    {
        let n = self.entries.len();
        let mut i: usize = 0;
        proof {
            assert(self.entries@.skip(0) =~= self.entries@);
        }
        while i < n
            invariant
                n == self.entries@.len(),
                i <= n,
                spec_lookup(self.entries@, key@) == spec_lookup(
                    self.entries@.skip(i as int),
                    key@,
                ),
            decreases n - i,
        {
            let entry = &self.entries[i];
            proof {
                assert(self.entries@.skip(i as int)[0] == self.entries@[i as int]);
            }
            if entry.address.equals(key) {
                return Some(&entry.data);
            }
            proof {
                assert(self.entries@.skip(i as int).drop_first() =~= self.entries@.skip(
                    i as int + 1,
                ));
            }
            i += 1;
        }
        None
    }
}

/// A caller-owned snapshot of one pool, taken from a single batch.
#[derive(Debug)]
pub struct PoolSnapshot {
    /// The decoded pool header.
    pub header: PoolHeader,
    /// The opaque market-maker payload that follows the header.
    pub amm: Vec<u8>,
    /// Balance of the base-token vault in the same batch.
    pub base_vault_amount: u64,
    /// Balance of the quote-token vault in the same batch.
    pub quote_vault_amount: u64,
    /// The chain slot observed in the same batch.
    pub observed_slot: u64,
}

/// Mathematical model of [`PoolSnapshot`].
pub struct PoolSnapshotModel {
    pub header: PoolHeaderModel,
    pub amm: Seq<u8>,
    pub base_vault_amount: u64,
    pub quote_vault_amount: u64,
    pub observed_slot: u64,
}

impl View for PoolSnapshot {
    type V = PoolSnapshotModel;

    open spec fn view(&self) -> PoolSnapshotModel {
        PoolSnapshotModel {
            header: self.header@,
            amm: self.amm@,
            base_vault_amount: self.base_vault_amount,
            quote_vault_amount: self.quote_vault_amount,
            observed_slot: self.observed_slot,
        }
    }
}

impl PoolSnapshot {
    /// A well-formed snapshot has a well-formed header and the 96-byte
    /// payload.
    pub open spec fn wf(&self) -> bool {
        &&& crate::layout::header_model_wf(self.header@)
        &&& self.amm@.len() == 96
    }
}

/// The snapshot that a batch yields for the pool at `pool_key`, or the
/// error: the pool account is looked up and decoded, then both vault
/// accounts named by its header, then the clock account.  Every failure
/// leaves no partial result.
pub open spec fn spec_refresh(pool_key: Seq<u8>, clock_key: Seq<u8>, entries: Seq<AccountEntry>)
    -> Result<PoolSnapshotModel, RefreshError> {
    match spec_lookup(entries, pool_key) {
        None => Err(RefreshError::MissingAccount),
        Some(pb) => {
            if pb.len() != POOL_LEN {
                Err(RefreshError::Pool(DecodeError::Truncated))
            } else if pb.subrange(0, 8) != spec_pool_discriminator() {
                Err(RefreshError::Pool(DecodeError::WrongDiscriminator))
            } else {
                let h = spec_decode_header(pb);
                match spec_lookup(entries, h.base_params.vault_key) {
                    None => Err(RefreshError::MissingAccount),
                    Some(bb) => {
                        if bb.len() != TOKEN_ACCOUNT_LEN {
                            Err(RefreshError::MalformedTokenAccount)
                        } else {
                            match spec_lookup(entries, h.quote_params.vault_key) {
                                None => Err(RefreshError::MissingAccount),
                                Some(qb) => {
                                    if qb.len() != TOKEN_ACCOUNT_LEN {
                                        Err(RefreshError::MalformedTokenAccount)
                                    } else {
                                        match spec_lookup(entries, clock_key) {
                                            None => Err(RefreshError::MissingAccount),
                                            Some(cb) => {
                                                if cb.len() != CLOCK_LEN {
                                                    Err(RefreshError::MalformedClock)
                                                } else {
                                                    Ok(
                                                        PoolSnapshotModel {
                                                            header: h,
                                                            amm: pb.subrange(528, 624),
                                                            base_vault_amount:
                                                                spec_token_account_amount(bb),
                                                            quote_vault_amount:
                                                                spec_token_account_amount(qb),
                                                            observed_slot: spec_clock_slot(cb),
                                                        },
                                                    )
                                                }
                                            },
                                        }
                                    }
                                },
                            }
                        }
                    },
                }
            }
        },
    }
}

/// Builds a fresh snapshot of the pool at `pool_key` from a batch of
/// fetched accounts; all-or-nothing.
pub fn refresh_snapshot(pool_key: &Address, clock_key: &Address, batch: &AccountBatch) -> (r:
    Result<PoolSnapshot, RefreshError>)
    ensures
        match r {
            Ok(s) => s.wf() && spec_refresh(pool_key@, clock_key@, batch.entries@) == Ok::<PoolSnapshotModel, RefreshError>(s@),
            Err(e) => spec_refresh(pool_key@, clock_key@, batch.entries@) == Err::<
                PoolSnapshotModel,
                RefreshError,
            >(e),
        },
{
    let pool_bytes = match batch.get(pool_key) {
        Some(b) => b,
        None => {
            return Err(RefreshError::MissingAccount);
        },
    };
    let acct = match decode(pool_bytes) {
        Ok(a) => a,
        Err(e) => {
            return Err(RefreshError::Pool(e));
        },
    };
    let base_bytes = match batch.get(&acct.header.base_params.vault_key) {
        Some(b) => b,
        None => {
            return Err(RefreshError::MissingAccount);
        },
    };
    if base_bytes.len() != 165 {
        return Err(RefreshError::MalformedTokenAccount);
    }
    let quote_bytes = match batch.get(&acct.header.quote_params.vault_key) {
        Some(b) => b,
        None => {
            return Err(RefreshError::MissingAccount);
        },
    };
    if quote_bytes.len() != 165 {
        return Err(RefreshError::MalformedTokenAccount);
    }
    let clock_bytes = match batch.get(clock_key) {
        Some(b) => b,
        None => {
            return Err(RefreshError::MissingAccount);
        },
    };
    if clock_bytes.len() != 40 {
        return Err(RefreshError::MalformedClock);
    }
    let base_vault_amount = crate::layout::read_u64(base_bytes, 64);
    let quote_vault_amount = crate::layout::read_u64(quote_bytes, 64);
    let observed_slot = crate::layout::read_u64(clock_bytes, 0);
    Ok(
        PoolSnapshot {
            header: acct.header,
            amm: acct.amm,
            base_vault_amount,
            quote_vault_amount,
            observed_slot,
        },
    )
}

/// One pool as seen by the routing aggregator: the pool's address, the
/// clock account's address, and the latest snapshot.
#[derive(Debug)]
pub struct PoolAdapter {
    /// Address of the pool account.
    pub pool_key: Address,
    /// Address of the chain clock account.
    pub clock_key: Address,
    /// The snapshot taken by the most recent successful refresh.
    pub snapshot: PoolSnapshot,
}

impl PoolAdapter {
    /// A well-formed adapter holds 32-byte keys and a well-formed
    /// snapshot.
    pub open spec fn wf(&self) -> bool {
        &&& self.pool_key.wf()
        &&& self.clock_key.wf()
        &&& self.snapshot.wf()
    }

    /// Builds an adapter from the first fetched batch.
    pub fn new(pool_key: Address, clock_key: Address, batch: &AccountBatch) -> (r: Result<
        PoolAdapter,
        RefreshError,
    >)
        requires
            pool_key.wf(),
            clock_key.wf(),
        ensures
            match r {
                Ok(a) => a.wf() && a.pool_key@ == pool_key@ && a.clock_key@ == clock_key@
                    && spec_refresh(pool_key@, clock_key@, batch.entries@) == Ok::<PoolSnapshotModel, RefreshError>(a.snapshot@),
                Err(e) => spec_refresh(pool_key@, clock_key@, batch.entries@) == Err::<
                    PoolSnapshotModel,
                    RefreshError,
                >(e),
            },
    {
        let snapshot = refresh_snapshot(&pool_key, &clock_key, batch)?;
        Ok(PoolAdapter { pool_key, clock_key, snapshot })
    }

    /// Replaces the snapshot from a fresh batch; on any failure the
    /// previous snapshot is left untouched, field for field.
    pub fn refresh(&mut self, batch: &AccountBatch) -> (r: Result<(), RefreshError>)
        ensures
            match r {
                Ok(()) => {
                    &&& spec_refresh(old(self).pool_key@, old(self).clock_key@, batch.entries@)
                        matches Ok(m) && final(self).snapshot@ == m
                    &&& final(self).snapshot.wf()
                    &&& final(self).pool_key == old(self).pool_key
                    &&& final(self).clock_key == old(self).clock_key
                },
                Err(e) => *final(self) == *old(self) && spec_refresh(
                    old(self).pool_key@,
                    old(self).clock_key@,
                    batch.entries@,
                ) == Err::<PoolSnapshotModel, RefreshError>(e),
            },
    {
        match refresh_snapshot(&self.pool_key, &self.clock_key, batch) {
            Ok(s) => {
                self.snapshot = s;
                Ok(())
            },
            Err(e) => Err(e),
        }
    }

    /// Computes a quote against the current snapshot.
    pub fn quote<S: crate::quote::SwapSimulator>(
        &self,
        sim: &S,
        input_mint: &Address,
        amount_in: u64,
    ) -> (r: Result<crate::quote::QuoteResult, crate::errors::QuoteError>)
        ensures
            r == crate::quote::spec_quote(self.snapshot@, *sim, input_mint@, amount_in),
    {
        crate::quote::quote(&self.snapshot, sim, input_mint, amount_in)
    }

    /// The addresses that must be fetched together for the next refresh:
    /// the pool account, both vaults named by the current header, and
    /// the clock account.
    pub fn accounts_to_refresh(&self) -> (r: Vec<Address>)
        ensures
            r@.len() == 4,
            r@[0]@ == self.pool_key@,
            r@[1]@ == self.snapshot.header.base_params.vault_key@,
            r@[2]@ == self.snapshot.header.quote_params.vault_key@,
            r@[3]@ == self.clock_key@,
    {
        let mut v: Vec<Address> = Vec::new();
        v.push(self.pool_key.clone());
        v.push(self.snapshot.header.base_params.vault_key.clone());
        v.push(self.snapshot.header.quote_params.vault_key.clone());
        v.push(self.clock_key.clone());
        v
    }
}

/// Whether two fetched batches carry the same bytes: same length, and
/// entry for entry the same address and the same data.
pub open spec fn entries_agree(e1: Seq<AccountEntry>, e2: Seq<AccountEntry>) -> bool {
    &&& e1.len() == e2.len()
    &&& forall|i: int|
        0 <= i < e1.len() ==> (#[trigger] e1[i]).address@ == e2[i].address@ && e1[i].data@
            == e2[i].data@
}

/// Lookup reads only the bytes: batches that agree yield the same
/// result for every key.
proof fn lemma_lookup_agrees(e1: Seq<AccountEntry>, e2: Seq<AccountEntry>, key: Seq<u8>)
    requires
        entries_agree(e1, e2),
    ensures
        spec_lookup(e1, key) == spec_lookup(e2, key),
    decreases e1.len(),
{
    if e1.len() != 0 {
        assert(entries_agree(e1.drop_first(), e2.drop_first()));
        lemma_lookup_agrees(e1.drop_first(), e2.drop_first(), key);
    }
}

/// Refreshing is a pure function of the supplied bytes: two batches
/// that carry the same bytes give the same snapshot result.
pub proof fn lemma_refresh_deterministic(
    pool_key: Seq<u8>,
    clock_key: Seq<u8>,
    e1: Seq<AccountEntry>,
    e2: Seq<AccountEntry>,
)
    requires
        entries_agree(e1, e2),
    ensures
        spec_refresh(pool_key, clock_key, e1) == spec_refresh(pool_key, clock_key, e2),
{
    lemma_lookup_agrees(e1, e2, pool_key);
    lemma_lookup_agrees(e1, e2, clock_key);
    match spec_lookup(e1, pool_key) {
        None => {},
        Some(pb) => {
            let h = spec_decode_header(pb);
            lemma_lookup_agrees(e1, e2, h.base_params.vault_key);
            lemma_lookup_agrees(e1, e2, h.quote_params.vault_key);
        },
    }
}

} // verus!
