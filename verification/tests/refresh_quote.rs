//! End-to-end tests: decode a pool buffer, refresh a snapshot from a
//! fetched batch, and quote against it.

use plasma_adapter::addr::Address;
use plasma_adapter::errors::{ArithmeticError, DecodeError, QuoteError, RefreshError, SimulationError};
use plasma_adapter::layout::{
    encode, pool_discriminator, PoolAccount, PoolHeader, ProtocolFeeRecipient,
    ProtocolFeeRecipients, TokenParams,
};
use plasma_adapter::quote::{quote, LinearRateSimulator, Side};
use plasma_adapter::snapshot::{AccountBatch, AccountEntry, PoolAdapter, refresh_snapshot};

fn addr(b: u8) -> Address {
    Address::new(vec![b; 32])
}

fn sample_pool_account() -> PoolAccount {
    let recipient = |tag: u8| ProtocolFeeRecipient {
        recipient: addr(tag),
        shares: 3333,
        total_accumulated_quote_fees: 0,
        collected_quote_fees: 0,
    };
    PoolAccount {
        header: PoolHeader {
            discriminator: pool_discriminator(),
            sequence_number: 5,
            base_params: TokenParams {
                decimals: 9,
                vault_bump: 255,
                mint_key: addr(0xB1),  // M1, the base mint
                vault_key: addr(0xBA),
            },
            quote_params: TokenParams {
                decimals: 6,
                vault_bump: 254,
                mint_key: addr(0xC2),  // M2, the quote mint
                vault_key: addr(0xCA),
            },
            fee_recipients: ProtocolFeeRecipients {
                recipients: vec![recipient(1), recipient(2), recipient(3)],
                padding: vec![0; 96],
            },
            swap_sequence_number: 0,
            padding: vec![0; 96],
        },
        amm: vec![0; 96],
    }
}

fn token_account_bytes(amount: u64) -> Vec<u8> {
    let mut v = vec![0u8; 165];
    v[64..72].copy_from_slice(&amount.to_le_bytes());
    v
}

fn clock_bytes(slot: u64) -> Vec<u8> {
    let mut v = vec![0u8; 40];
    v[0..8].copy_from_slice(&slot.to_le_bytes());
    v
}

fn full_batch(pool_key: &Address, clock_key: &Address) -> AccountBatch {
    let acct = sample_pool_account();
    AccountBatch {
        entries: vec![
            AccountEntry { address: Address::new(pool_key.bytes.clone()), data: encode(&acct) },
            AccountEntry { address: addr(0xBA), data: token_account_bytes(1_000_000) },
            AccountEntry { address: addr(0xCA), data: token_account_bytes(500_000) },
            AccountEntry { address: Address::new(clock_key.bytes.clone()), data: clock_bytes(42) },
        ],
    }
}

#[test]
fn refresh_reads_header_vaults_and_slot() {
    let pool_key = addr(0xAA);
    let clock_key = addr(0xCC);
    let snap = refresh_snapshot(&pool_key, &clock_key, &full_batch(&pool_key, &clock_key)).unwrap();
    assert_eq!(snap.header.sequence_number, 5);
    assert_eq!(snap.header.base_params.mint_key.bytes, vec![0xB1; 32]);
    assert_eq!(snap.base_vault_amount, 1_000_000);
    assert_eq!(snap.quote_vault_amount, 500_000);
    assert_eq!(snap.observed_slot, 42);
    assert_eq!(snap.amm, vec![0; 96]);
}

#[test]
fn refresh_without_clock_fails_and_leaves_the_snapshot_untouched() {
    let pool_key = addr(0xAA);
    let clock_key = addr(0xCC);
    let good = full_batch(&pool_key, &clock_key);
    let mut adapter = PoolAdapter::new(
        Address::new(pool_key.bytes.clone()),
        Address::new(clock_key.bytes.clone()),
        &good,
    )
    .unwrap();
    let before_seq = adapter.snapshot.header.sequence_number;
    let before_base = adapter.snapshot.base_vault_amount;
    let before_quote = adapter.snapshot.quote_vault_amount;
    let before_slot = adapter.snapshot.observed_slot;
    let before_amm = adapter.snapshot.amm.clone();

    let mut missing_clock = full_batch(&pool_key, &clock_key);
    missing_clock.entries.remove(3);
    let r = adapter.refresh(&missing_clock);
    assert_eq!(r, Err(RefreshError::MissingAccount));
    assert_eq!(adapter.snapshot.header.sequence_number, before_seq);
    assert_eq!(adapter.snapshot.base_vault_amount, before_base);
    assert_eq!(adapter.snapshot.quote_vault_amount, before_quote);
    assert_eq!(adapter.snapshot.observed_slot, before_slot);
    assert_eq!(adapter.snapshot.amm, before_amm);
}

#[test]
fn refresh_reports_each_failure_distinctly() {
    let pool_key = addr(0xAA);
    let clock_key = addr(0xCC);

    // Pool account absent.
    let mut b = full_batch(&pool_key, &clock_key);
    b.entries.remove(0);
    assert!(matches!(
        refresh_snapshot(&pool_key, &clock_key, &b),
        Err(RefreshError::MissingAccount)
    ));

    // Vault bytes of the wrong size.
    let mut b = full_batch(&pool_key, &clock_key);
    b.entries[1].data = vec![0; 10];
    assert!(matches!(
        refresh_snapshot(&pool_key, &clock_key, &b),
        Err(RefreshError::MalformedTokenAccount)
    ));

    // Clock bytes of the wrong size.
    let mut b = full_batch(&pool_key, &clock_key);
    b.entries[3].data = vec![0; 39];
    assert!(matches!(
        refresh_snapshot(&pool_key, &clock_key, &b),
        Err(RefreshError::MalformedClock)
    ));
}

#[test]
fn accounts_to_refresh_lists_pool_vaults_and_clock() {
    let pool_key = addr(0xAA);
    let clock_key = addr(0xCC);
    let adapter = PoolAdapter::new(
        Address::new(pool_key.bytes.clone()),
        Address::new(clock_key.bytes.clone()),
        &full_batch(&pool_key, &clock_key),
    )
    .unwrap();
    let keys = adapter.accounts_to_refresh();
    assert_eq!(keys.len(), 4);
    assert_eq!(keys[0].bytes, vec![0xAA; 32]);
    assert_eq!(keys[1].bytes, vec![0xBA; 32]);
    assert_eq!(keys[2].bytes, vec![0xCA; 32]);
    assert_eq!(keys[3].bytes, vec![0xCC; 32]);
}

#[test]
fn quote_end_to_end_on_a_decoded_pool() {
    // Decode a full 624-byte buffer, refresh, and quote 1000 units of
    // the quote mint; the fixed-rate simulation pays out at 1:1.
    let pool_key = addr(0xAA);
    let clock_key = addr(0xCC);
    let snap = refresh_snapshot(&pool_key, &clock_key, &full_batch(&pool_key, &clock_key)).unwrap();
    let sim = LinearRateSimulator { rate_numerator: 1, rate_denominator: 1 };
    let q = quote(&snap, &sim, &addr(0xC2), 1000).unwrap();
    assert_eq!(q.side, Side::Buy);
    assert_eq!(q.in_amount, 1000);
    assert_eq!(q.out_amount, 1000);
}

#[test]
fn quote_selects_the_direction_from_the_input_mint() {
    let pool_key = addr(0xAA);
    let clock_key = addr(0xCC);
    let snap = refresh_snapshot(&pool_key, &clock_key, &full_batch(&pool_key, &clock_key)).unwrap();
    let sim = LinearRateSimulator { rate_numerator: 3, rate_denominator: 2 };

    // Input mint M2 (the quote mint): buy the base token.
    let buy = quote(&snap, &sim, &addr(0xC2), 100).unwrap();
    assert_eq!(buy.side, Side::Buy);
    assert_eq!(buy.out_amount, 150);

    // Input mint M1 (the base mint): sell the base token.
    let sell = quote(&snap, &sim, &addr(0xB1), 101).unwrap();
    assert_eq!(sell.side, Side::Sell);
    assert_eq!(sell.out_amount, 151);

    // Any third mint: rejected.
    assert_eq!(quote(&snap, &sim, &addr(0xEE), 100), Err(QuoteError::UnknownInputMint));
}

#[test]
fn quotes_are_reproducible_across_identical_refreshes() {
    let pool_key = addr(0xAA);
    let clock_key = addr(0xCC);
    let s1 = refresh_snapshot(&pool_key, &clock_key, &full_batch(&pool_key, &clock_key)).unwrap();
    let s2 = refresh_snapshot(&pool_key, &clock_key, &full_batch(&pool_key, &clock_key)).unwrap();
    let sim = LinearRateSimulator { rate_numerator: 7, rate_denominator: 3 };
    for amount in [0u64, 1, 999, 123_456_789] {
        let q1 = quote(&s1, &sim, &addr(0xC2), amount);
        let q2 = quote(&s2, &sim, &addr(0xC2), amount);
        assert_eq!(q1, q2);
    }
}

#[test]
fn refresh_propagates_pool_decode_errors() {
    let pool_key = addr(0xAA);
    let clock_key = addr(0xCC);

    // Pool bytes of the wrong length.
    let mut b = full_batch(&pool_key, &clock_key);
    b.entries[0].data = vec![0; 100];
    assert!(matches!(
        refresh_snapshot(&pool_key, &clock_key, &b),
        Err(RefreshError::Pool(DecodeError::Truncated))
    ));

    // Pool bytes with a spoiled discriminator.
    let mut b = full_batch(&pool_key, &clock_key);
    b.entries[0].data[0] ^= 0xFF;
    assert!(matches!(
        refresh_snapshot(&pool_key, &clock_key, &b),
        Err(RefreshError::Pool(DecodeError::WrongDiscriminator))
    ));
}

#[test]
fn quote_propagates_simulation_errors() {
    let pool_key = addr(0xAA);
    let clock_key = addr(0xCC);
    let snap = refresh_snapshot(&pool_key, &clock_key, &full_batch(&pool_key, &clock_key)).unwrap();

    // A zero-denominator rate fails inside the simulation.
    let broken = LinearRateSimulator { rate_numerator: 1, rate_denominator: 0 };
    assert_eq!(
        quote(&snap, &broken, &addr(0xC2), 10),
        Err(QuoteError::Simulation(SimulationError::Arithmetic(ArithmeticError::DivisionByZero)))
    );

    // A product beyond the fixed-point range overflows.
    let huge = LinearRateSimulator { rate_numerator: u64::MAX, rate_denominator: 1 };
    assert_eq!(
        quote(&snap, &huge, &addr(0xC2), u64::MAX),
        Err(QuoteError::Simulation(SimulationError::Arithmetic(ArithmeticError::Overflow)))
    );
}
