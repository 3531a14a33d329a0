//! Tests of the pool-account wire codec: the round trip, the decode
//! failure cases, and differential checks against an independent
//! serializer.

use plasma_adapter::addr::Address;
use plasma_adapter::errors::DecodeError;
use plasma_adapter::layout::{
    decode, encode, encode_header, pool_discriminator, PoolAccount, PoolHeader, ProtocolFeeRecipient,
    ProtocolFeeRecipients, TokenParams,
};

fn addr(b: u8) -> Address {
    Address::new(vec![b; 32])
}

fn sample_recipient(tag: u8) -> ProtocolFeeRecipient {
    ProtocolFeeRecipient {
        recipient: addr(tag),
        shares: 100 + tag as u64,
        total_accumulated_quote_fees: 1_000_000 + tag as u64,
        collected_quote_fees: 500 + tag as u64,
    }
}

fn sample_header() -> PoolHeader {
    PoolHeader {
        discriminator: pool_discriminator(),
        sequence_number: 987_654_321,
        base_params: TokenParams {
            decimals: 9,
            vault_bump: 254,
            mint_key: addr(0x11),
            vault_key: addr(0x22),
        },
        quote_params: TokenParams {
            decimals: 6,
            vault_bump: 253,
            mint_key: addr(0x33),
            vault_key: addr(0x44),
        },
        fee_recipients: ProtocolFeeRecipients {
            recipients: vec![sample_recipient(1), sample_recipient(2), sample_recipient(3)],
            padding: (0..96u16).map(|i| i as u8).collect(),
        },
        swap_sequence_number: 777,
        padding: vec![0xAB; 96],
    }
}

fn assert_headers_equal(a: &PoolHeader, b: &PoolHeader) {
    assert_eq!(a.discriminator, b.discriminator);
    assert_eq!(a.sequence_number, b.sequence_number);
    for (x, y) in [(&a.base_params, &b.base_params), (&a.quote_params, &b.quote_params)] {
        assert_eq!(x.decimals, y.decimals);
        assert_eq!(x.vault_bump, y.vault_bump);
        assert_eq!(x.mint_key.bytes, y.mint_key.bytes);
        assert_eq!(x.vault_key.bytes, y.vault_key.bytes);
    }
    for i in 0..3 {
        let (x, y) = (&a.fee_recipients.recipients[i], &b.fee_recipients.recipients[i]);
        assert_eq!(x.recipient.bytes, y.recipient.bytes);
        assert_eq!(x.shares, y.shares);
        assert_eq!(x.total_accumulated_quote_fees, y.total_accumulated_quote_fees);
        assert_eq!(x.collected_quote_fees, y.collected_quote_fees);
    }
    assert_eq!(a.fee_recipients.padding, b.fee_recipients.padding);
    assert_eq!(a.swap_sequence_number, b.swap_sequence_number);
    assert_eq!(a.padding, b.padding);
}

#[test]
fn header_round_trips_through_the_wire_format() {
    let acct = PoolAccount { header: sample_header(), amm: vec![0x5A; 96] };
    let bytes = encode(&acct);
    assert_eq!(bytes.len(), 624);
    let decoded = match decode(&bytes) {
        Ok(a) => a,
        Err(_) => panic!("decode failed"),
    };
    assert_headers_equal(&decoded.header, &acct.header);
    assert_eq!(decoded.amm, acct.amm);
}

#[test]
fn encoding_is_stable() {
    let acct = PoolAccount { header: sample_header(), amm: vec![7; 96] };
    assert_eq!(encode(&acct), encode(&acct));
}

#[test]
fn decode_rejects_short_buffers() {
    assert!(matches!(decode(&vec![]), Err(DecodeError::Truncated)));
    assert!(matches!(decode(&vec![0; 623]), Err(DecodeError::Truncated)));
    assert!(matches!(decode(&vec![0; 625]), Err(DecodeError::Truncated)));
}

#[test]
fn decode_rejects_a_wrong_discriminator() {
    let mut acct = PoolAccount { header: sample_header(), amm: vec![0; 96] };
    acct.header.discriminator = vec![1, 2, 3, 4, 5, 6, 7, 8];
    let bytes = encode(&acct);
    assert!(matches!(decode(&bytes), Err(DecodeError::WrongDiscriminator)));
}

#[test]
fn header_encoding_matches_an_independent_serializer() {
    let h = sample_header();
    let mut disc = [0u8; 8];
    disc.copy_from_slice(&h.discriminator);
    let mut fee_padding = [0u64; 12];
    for i in 0..12 {
        let mut w = [0u8; 8];
        w.copy_from_slice(&h.fee_recipients.padding[i * 8..i * 8 + 8]);
        fee_padding[i] = u64::from_le_bytes(w);
    }
    let mut tail_padding = [0u64; 12];
    for i in 0..12 {
        let mut w = [0u8; 8];
        w.copy_from_slice(&h.padding[i * 8..i * 8 + 8]);
        tail_padding[i] = u64::from_le_bytes(w);
    }
    let token = |t: &TokenParams| {
        let mut mint = [0u8; 32];
        mint.copy_from_slice(&t.mint_key.bytes);
        let mut vault = [0u8; 32];
        vault.copy_from_slice(&t.vault_key.bytes);
        (t.decimals, t.vault_bump, mint, vault)
    };
    let recipient = |r: &ProtocolFeeRecipient| {
        let mut key = [0u8; 32];
        key.copy_from_slice(&r.recipient.bytes);
        (key, r.shares, r.total_accumulated_quote_fees, r.collected_quote_fees)
    };
    let shadow = (
        disc,
        h.sequence_number,
        token(&h.base_params),
        token(&h.quote_params),
        (
            [
                recipient(&h.fee_recipients.recipients[0]),
                recipient(&h.fee_recipients.recipients[1]),
                recipient(&h.fee_recipients.recipients[2]),
            ],
            fee_padding,
        ),
        h.swap_sequence_number,
        tail_padding,
    );
    let expected = borsh::to_vec(&shadow).unwrap();
    assert_eq!(encode_header(&h), expected);
}
