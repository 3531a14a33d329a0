//! Tests of the instruction encoders: stable payloads, the documented
//! account schemas, and differential checks of the derived addresses
//! and parameter encodings against independent implementations.

use plasma_adapter::addr::Address;
use plasma_adapter::instructions::{
    add_liquidity, encode_add_liquidity_params, encode_initialize_pool_params, encode_swap_params,
    get_log_authority, get_lp_position_address, get_vault_address, initialize_lp_position,
    initialize_pool, remove_liquidity, swap, transfer_liquidity, AddLiquidityParams,
    InitializePoolParams, PoolInstruction, ProgramConfig, ProtocolFeeRecipientParams, SwapParams,
    SwapType,
};
use plasma_adapter::instructions::{decode_lp_position, encode_lp_position, LpPosition};
use plasma_adapter::quote::Side;

fn addr(b: u8) -> Address {
    Address::new(vec![b; 32])
}

fn config() -> ProgramConfig {
    ProgramConfig {
        program_id: addr(0x01),
        token_program_id: addr(0x02),
        system_program_id: addr(0x03),
    }
}

fn pubkey(a: &Address) -> solana_program::pubkey::Pubkey {
    let mut k = [0u8; 32];
    k.copy_from_slice(&a.bytes);
    solana_program::pubkey::Pubkey::new_from_array(k)
}

fn swap_params() -> SwapParams {
    SwapParams {
        side: Side::Buy,
        swap_type: SwapType::ExactIn { amount_in: 1000, min_amount_out: 990 },
    }
}

fn assert_same_instruction(a: &PoolInstruction, b: &PoolInstruction) {
    assert_eq!(a.program_id.bytes, b.program_id.bytes);
    assert_eq!(a.data, b.data);
    assert_eq!(a.accounts.len(), b.accounts.len());
    for (x, y) in a.accounts.iter().zip(b.accounts.iter()) {
        assert_eq!(x.key.bytes, y.key.bytes);
        assert_eq!(x.is_writable, y.is_writable);
        assert_eq!(x.is_signer, y.is_signer);
    }
}

#[test]
fn vault_address_matches_the_chain_derivation() {
    let cfg = config();
    let pool = addr(0x10);
    let mint = addr(0x20);
    let (derived, bump) = get_vault_address(&cfg.program_id, &pool, &mint).unwrap();
    let expected = solana_program::pubkey::Pubkey::try_find_program_address(
        &[b"vault", &pool.bytes, &mint.bytes],
        &pubkey(&cfg.program_id),
    )
    .unwrap();
    assert_eq!(derived.bytes, expected.0.to_bytes().to_vec());
    assert_eq!(bump, expected.1);
}

#[test]
fn lp_position_address_matches_the_chain_derivation() {
    let cfg = config();
    let pool = addr(0x10);
    let trader = addr(0x30);
    let (derived, bump) = get_lp_position_address(&cfg.program_id, &pool, &trader).unwrap();
    let expected = solana_program::pubkey::Pubkey::try_find_program_address(
        &[b"lp_position", &pool.bytes, &trader.bytes],
        &pubkey(&cfg.program_id),
    )
    .unwrap();
    assert_eq!(derived.bytes, expected.0.to_bytes().to_vec());
    assert_eq!(bump, expected.1);
}

#[test]
fn log_authority_matches_the_chain_derivation() {
    let cfg = config();
    let derived = get_log_authority(&cfg.program_id).unwrap();
    let expected = solana_program::pubkey::Pubkey::try_find_program_address(
        &[b"log"],
        &pubkey(&cfg.program_id),
    )
    .unwrap();
    assert_eq!(derived.bytes, expected.0.to_bytes().to_vec());
}

#[test]
fn swap_encoding_is_stable_with_the_documented_schema() {
    let cfg = config();
    let (pool, trader) = (addr(0x10), addr(0x30));
    let (base_mint, quote_mint) = (addr(0x40), addr(0x50));
    let (base_acct, quote_acct) = (addr(0x60), addr(0x70));
    let build = || {
        swap(&cfg, &pool, &trader, &base_mint, &quote_mint, &base_acct, &quote_acct, swap_params())
            .unwrap()
    };
    let ix1 = build();
    let ix2 = build();
    assert_same_instruction(&ix1, &ix2);

    // Payload: discriminator 0, side, then the exact-in amounts.
    let mut expected = vec![0u8, 0u8, 0u8];
    expected.extend_from_slice(&1000u64.to_le_bytes());
    expected.extend_from_slice(&990u64.to_le_bytes());
    assert_eq!(ix1.data, expected);

    // Account order and flags per the swap schema.
    let base_vault = get_vault_address(&cfg.program_id, &pool, &base_mint).unwrap().0;
    let quote_vault = get_vault_address(&cfg.program_id, &pool, &quote_mint).unwrap().0;
    let log = get_log_authority(&cfg.program_id).unwrap();
    let expected_accounts: Vec<(Vec<u8>, bool, bool)> = vec![
        (cfg.program_id.bytes.clone(), false, false),
        (log.bytes.clone(), false, false),
        (pool.bytes.clone(), true, false),
        (trader.bytes.clone(), false, true),
        (base_acct.bytes.clone(), true, false),
        (quote_acct.bytes.clone(), true, false),
        (base_vault.bytes.clone(), true, false),
        (quote_vault.bytes.clone(), true, false),
        (cfg.token_program_id.bytes.clone(), false, false),
    ];
    assert_eq!(ix1.accounts.len(), 9);
    for (got, want) in ix1.accounts.iter().zip(expected_accounts.iter()) {
        assert_eq!(got.key.bytes, want.0);
        assert_eq!(got.is_writable, want.1);
        assert_eq!(got.is_signer, want.2);
    }
}

#[test]
fn each_operation_carries_its_discriminator() {
    let cfg = config();
    let (pool, a, b) = (addr(0x10), addr(0x30), addr(0x31));
    let (base_mint, quote_mint) = (addr(0x40), addr(0x50));
    let (base_acct, quote_acct) = (addr(0x60), addr(0x70));
    let init_params = InitializePoolParams {
        lp_fee_in_bps: 25,
        protocol_fee_allocation_in_pct: 10,
        fee_recipients_params: vec![
            ProtocolFeeRecipientParams { recipient: addr(0x81), shares: 5000 },
            ProtocolFeeRecipientParams { recipient: addr(0x82), shares: 3000 },
            ProtocolFeeRecipientParams { recipient: addr(0x83), shares: 2000 },
        ],
        num_slots_to_vest_lp_shares: Some(1000),
    };
    let add_params = AddLiquidityParams {
        desired_base_amount_in: 10,
        desired_quote_amount_in: 20,
        initial_lp_shares: None,
    };

    let ix = swap(&cfg, &pool, &a, &base_mint, &quote_mint, &base_acct, &quote_acct, swap_params())
        .unwrap();
    assert_eq!(ix.data[0], 0);
    let ix = add_liquidity(&cfg, &pool, &a, &base_mint, &base_acct, &quote_mint, &quote_acct,
        add_params)
        .unwrap();
    assert_eq!(ix.data[0], 1);
    assert_eq!(ix.accounts.len(), 10);
    let ix = remove_liquidity(&cfg, &pool, &a, &base_mint, &quote_mint, &base_acct, &quote_acct,
        12345)
        .unwrap();
    assert_eq!(ix.data[0], 2);
    assert_eq!(&ix.data[1..], &12345u64.to_le_bytes());
    assert_eq!(ix.accounts.len(), 10);
    let ix = initialize_lp_position(&cfg, &pool, &a, &b).unwrap();
    assert_eq!(ix.data, vec![5]);
    assert_eq!(ix.accounts.len(), 7);
    let ix = initialize_pool(&cfg, &pool, &a, &base_mint, &quote_mint, &init_params).unwrap();
    assert_eq!(ix.data[0], 6);
    assert_eq!(ix.accounts.len(), 10);
    let ix = transfer_liquidity(&cfg, &pool, &a, &b).unwrap();
    assert_eq!(ix.data, vec![9]);
    assert_eq!(ix.accounts.len(), 6);
}

#[test]
fn parameter_encodings_match_an_independent_serializer() {
    let add_params = AddLiquidityParams {
        desired_base_amount_in: 111,
        desired_quote_amount_in: 222,
        initial_lp_shares: Some(333),
    };
    let expected = borsh::to_vec(&(111u64, 222u64, Some(333u64))).unwrap();
    assert_eq!(encode_add_liquidity_params(&add_params), expected);

    let init_params = InitializePoolParams {
        lp_fee_in_bps: 25,
        protocol_fee_allocation_in_pct: 10,
        fee_recipients_params: vec![
            ProtocolFeeRecipientParams { recipient: addr(0x81), shares: 5000 },
            ProtocolFeeRecipientParams { recipient: addr(0x82), shares: 3000 },
            ProtocolFeeRecipientParams { recipient: addr(0x83), shares: 2000 },
        ],
        num_slots_to_vest_lp_shares: None,
    };
    let expected = borsh::to_vec(&(
        25u64,
        10u64,
        [([0x81u8; 32], 5000u64), ([0x82u8; 32], 3000u64), ([0x83u8; 32], 2000u64)],
        None::<u64>,
    ))
    .unwrap();
    assert_eq!(encode_initialize_pool_params(&init_params), expected);

    let params = SwapParams {
        side: Side::Sell,
        swap_type: SwapType::ExactOut { amount_out: 42, max_amount_in: 77 },
    };
    let expected = borsh::to_vec(&(1u8, 1u8, 42u64, 77u64)).unwrap();
    assert_eq!(encode_swap_params(&params), expected);
}

#[test]
fn derivation_changes_with_the_program_id() {
    // The injected program identifier feeds the derivation: a different
    // deployment yields different vault addresses.
    let pool = addr(0x10);
    let mint = addr(0x20);
    let v1 = get_vault_address(&addr(0x01), &pool, &mint).unwrap().0;
    let v2 = get_vault_address(&addr(0x04), &pool, &mint).unwrap().0;
    assert_ne!(v1.bytes, v2.bytes);
}

#[test]
fn lp_position_round_trips_with_a_negative_reward_factor() {
    let p = LpPosition {
        reward_factor_snapshot: -123_456_789_012_345_678_901_234_567i128,
        lp_shares: 500,
        withdrawable_lp_shares: 200,
        uncollected_fees: 7,
        collected_fees: 3,
        pending_shares_to_vest: (42, 300),
    };
    let bytes = encode_lp_position(&p);
    assert_eq!(bytes.len(), 64);
    let q = decode_lp_position(&bytes).unwrap();
    assert_eq!(q.reward_factor_snapshot, p.reward_factor_snapshot);
    assert_eq!(q.lp_shares, p.lp_shares);
    assert_eq!(q.withdrawable_lp_shares, p.withdrawable_lp_shares);
    assert_eq!(q.uncollected_fees, p.uncollected_fees);
    assert_eq!(q.collected_fees, p.collected_fees);
    assert_eq!(q.pending_shares_to_vest, p.pending_shares_to_vest);

    // The encoding agrees with an independent serializer.
    let shadow = (
        p.reward_factor_snapshot,
        p.lp_shares,
        p.withdrawable_lp_shares,
        p.uncollected_fees,
        p.collected_fees,
        (p.pending_shares_to_vest.0, p.pending_shares_to_vest.1),
    );
    assert_eq!(bytes, borsh::to_vec(&shadow).unwrap());
}

#[test]
fn default_parameters_are_empty() {
    let p = InitializePoolParams::default();
    assert_eq!(p.lp_fee_in_bps, 0);
    assert_eq!(p.protocol_fee_allocation_in_pct, 0);
    assert_eq!(p.fee_recipients_params.len(), 3);
    for slot in &p.fee_recipients_params {
        assert_eq!(slot.recipient.bytes, vec![0u8; 32]);
        assert_eq!(slot.shares, 0);
    }
    assert_eq!(p.num_slots_to_vest_lp_shares, None);
    let a = AddLiquidityParams::default();
    assert_eq!(a.desired_base_amount_in, 0);
    assert_eq!(a.desired_quote_amount_in, 0);
    assert_eq!(a.initial_lp_shares, None);
}
