use std::str::FromStr;

use solana_sdk::pubkey::Pubkey;
use super_sol::address::{
    associated_token_address, find_config_account_pubkey, find_market_account_pubkey,
    find_native_vault_account_pubkey, find_token_mint_pubkey, find_token_vault_account_pubkey,
    get_community_vault_pubkey, get_fee_recipient_pubkey, get_random_tip_receiver,
    is_absent_recipient, program_id, resolve_recipient, system_program_id, tip_receiver_at,
    token_program_id, Address, TIP_RECEIVER_COUNT,
};
use super_sol::encode::{
    buy_instruction_from_args_bytes, buy_token_ix, sell_instruction_from_args_bytes,
    sell_token_ix, BuyTokenArgs, EncodeError, SellTokenArgs,
};
use super_sol::transaction::{
    create_associated_token_account_idempotent, trade_instructions, transfer,
};

fn key(s: &str) -> [u8; 32] {
    Pubkey::from_str(s).unwrap().to_bytes()
}

fn owner() -> Address {
    Address { bytes: [7u8; 32] }
}

const TIPS: [&str; 8] = [
    "96gYZGLnJYVFmbjzopPSU6QiEV5fGqZNyN9nmNhvrZU5",
    "Cw8CFyM9FkoMi7K7Crf6HNQqf4uEMzpKw6QNghXLvLkY",
    "DttWaMuVvTiduZRnguLF7jNxTgiMBZ1hyAumKUiL2KRL",
    "ADaUMid9yfUytqMBgopwjb2DTLSokTSzL1zt6iGPaS49",
    "DfXygSm4jCyNCybVYYK6DwvWqjKee8pbDmJGcLWNDXjh",
    "ADuUkR4vqLUMWXxW9gh6D6L8pMSawimctcNZ5pGwDcEt",
    "HFqU5x63VTqvQss8hp11i4wVV8bD44PvwucfZ2bU7gRe",
    "3AVi9Tg9Uo68tJfuvoKvqKNWKkC5wPdSSdeBnizKZ6jT",
];

#[test]
fn fixed_addresses_match_their_text_form() {
    assert_eq!(find_config_account_pubkey().bytes, key("7ci3rZLKS92bdvVBD9qGH8qpRk3o975TxViLAFRh7hUx"));
    assert_eq!(find_market_account_pubkey().bytes, key("Bbn98EBGWp1yZZ5NRpVCQBXUnYVQ8XQuz1yuer4mXDwE"));
    assert_eq!(find_native_vault_account_pubkey().bytes, key("8vRBJ23q3uAxwkj56BJe8td7bguYdSkJ7UVtuhxLzDBG"));
    assert_eq!(find_token_vault_account_pubkey().bytes, key("8eVmut2ripdnnTPwapuWYJBhVsq5nZbN87i9MRiJSsxW"));
    assert_eq!(find_token_mint_pubkey().bytes, key("supruCAzKLHdtZCHvCWLauYQUJUvmVJXHJJb2zRxUMv"));
    assert_eq!(get_fee_recipient_pubkey().bytes, key("7PG3b8wKLxb2tK36imsBwagnQWRc7axTcfCG61upQzoL"));
    assert_eq!(get_community_vault_pubkey().bytes, key("A985r8W5VjhYtaaCf8PAcX5vXJLYb11cUForjoqK3J1K"));
    assert_eq!(program_id().bytes, key("super4XGGb7KWorPuoSNVQDHAVQjWzTpqcoRS86d9Us"));
    assert_eq!(token_program_id().bytes, spl_token::id().to_bytes());
    assert_eq!(system_program_id().bytes, solana_sdk::system_program::id().to_bytes());
    assert_eq!(
        super_sol::address::associated_token_program_id().bytes,
        spl_associated_token_account::id().to_bytes()
    );
}

#[test]
fn tip_receivers_match_their_text_form() {
    for i in 0..TIP_RECEIVER_COUNT {
        assert_eq!(tip_receiver_at(i).bytes, key(TIPS[i]));
    }
    let picked = get_random_tip_receiver();
    assert!(TIPS.iter().any(|t| key(t) == picked.bytes));
}

#[test]
fn unset_recipient_resolves_to_the_absent_sentinel() {
    let r = resolve_recipient(None);
    assert_eq!(r.bytes, [0u8; 32]);
    assert!(is_absent_recipient(&r));
    let set = resolve_recipient(Some(owner()));
    assert_eq!(set.bytes, owner().bytes);
    assert!(!is_absent_recipient(&set));
    assert!(!is_absent_recipient(&get_fee_recipient_pubkey()));
    assert!(!is_absent_recipient(&get_community_vault_pubkey()));
}

#[test]
fn associated_address_is_the_derived_one() {
    let mint = find_token_mint_pubkey();
    let derived = associated_token_address(&owner(), &mint);
    let expected = spl_associated_token_account::get_associated_token_address(
        &Pubkey::new_from_array(owner().bytes),
        &Pubkey::new_from_array(mint.bytes),
    );
    assert_eq!(derived.bytes, expected.to_bytes());
    assert_ne!(derived.bytes, owner().bytes);
    assert_eq!(associated_token_address(&owner(), &mint).bytes, derived.bytes);
}

#[test]
fn buy_instruction_has_the_fixed_account_schema() {
    let payer = owner();
    let ix = buy_token_ix(&payer, BuyTokenArgs { buy_amount: 1, max_pay: 2, donate_rate: 3 }).unwrap();
    assert_eq!(ix.program_id.bytes, program_id().bytes);
    assert_eq!(ix.accounts.len(), 10);
    let token_recipient = associated_token_address(&payer, &find_token_mint_pubkey());
    let expected: [([u8; 32], bool, bool); 10] = [
        (find_config_account_pubkey().bytes, false, false),
        (find_market_account_pubkey().bytes, false, true),
        (find_native_vault_account_pubkey().bytes, false, true),
        (get_fee_recipient_pubkey().bytes, false, true),
        (find_token_vault_account_pubkey().bytes, false, true),
        (get_community_vault_pubkey().bytes, false, true),
        (token_recipient.bytes, false, true),
        (payer.bytes, true, true),
        (token_program_id().bytes, false, true),
        ([0u8; 32], false, true),
    ];
    for (m, e) in ix.accounts.iter().zip(expected.iter()) {
        assert_eq!((m.pubkey.bytes, m.is_signer, m.is_writable), *e);
    }
}

#[test]
fn sell_instruction_has_the_fixed_account_schema() {
    let payer = owner();
    let ix = sell_token_ix(&payer, SellTokenArgs { sell_amount: 1, min_receive: 2 }).unwrap();
    assert_eq!(ix.accounts.len(), 10);
    let token_payer = associated_token_address(&payer, &find_token_mint_pubkey());
    assert_eq!(ix.accounts[0].pubkey.bytes, find_config_account_pubkey().bytes);
    assert!(!ix.accounts[0].is_writable);
    assert_eq!(ix.accounts[6].pubkey.bytes, token_payer.bytes);
    assert_eq!(ix.accounts[7].pubkey.bytes, payer.bytes);
    assert!(ix.accounts[7].is_signer);
    assert_eq!(ix.accounts.iter().filter(|m| m.is_signer).count(), 1);
}

#[test]
fn sell_account_five_is_the_owner_and_buy_account_five_the_community_vault() {
    let payer = owner();
    let sell = sell_token_ix(&payer, SellTokenArgs { sell_amount: 9, min_receive: 0 }).unwrap();
    assert_eq!(sell.accounts[5].pubkey.bytes, payer.bytes);
    assert!(!sell.accounts[5].is_signer);
    let buy = buy_token_ix(&payer, BuyTokenArgs { buy_amount: 9, max_pay: 0, donate_rate: 0 }).unwrap();
    assert_eq!(buy.accounts[5].pubkey.bytes, get_community_vault_pubkey().bytes);
    assert_ne!(buy.accounts[5].pubkey.bytes, sell.accounts[5].pubkey.bytes);
}

#[test]
fn buy_payload_scenario() {
    let ix = buy_token_ix(
        &owner(),
        BuyTokenArgs { buy_amount: 100, max_pay: 5_000_000_000, donate_rate: 0 },
    )
    .unwrap();
    assert_eq!(ix.data.len(), 8 + 8 + 8 + 4);
    assert_eq!(&ix.data[..8], &[138u8, 127, 14, 91, 38, 87, 115, 105]);
    let mut tail = Vec::new();
    tail.extend_from_slice(&100u64.to_le_bytes());
    tail.extend_from_slice(&5_000_000_000u64.to_le_bytes());
    tail.extend_from_slice(&0u32.to_le_bytes());
    assert_eq!(&ix.data[8..], &tail[..]);
}

#[test]
fn payloads_start_with_their_discriminator_for_any_arguments() {
    for v in [0u64, 1, 255, 256, u64::MAX] {
        let buy = buy_token_ix(&owner(), BuyTokenArgs { buy_amount: v, max_pay: v, donate_rate: v as u32 }).unwrap();
        assert_eq!(&buy.data[..8], &[138u8, 127, 14, 91, 38, 87, 115, 105]);
        let sell = sell_token_ix(&owner(), SellTokenArgs { sell_amount: v, min_receive: v }).unwrap();
        assert_eq!(&sell.data[..8], &[109u8, 61, 40, 187, 230, 176, 135, 174]);
        assert_eq!(sell.data.len(), 24);
    }
}

#[test]
fn argument_bytes_decode_back_at_the_boundaries() {
    for (a, b, c) in [(0u64, 0u64, 0u32), (u64::MAX, u64::MAX, u32::MAX), (0, u64::MAX, 0)] {
        let buy = buy_token_ix(&owner(), BuyTokenArgs { buy_amount: a, max_pay: b, donate_rate: c }).unwrap();
        let back: (u64, u64, u32) = bincode::deserialize(&buy.data[8..]).unwrap();
        assert_eq!(back, (a, b, c));
        let sell = sell_token_ix(&owner(), SellTokenArgs { sell_amount: a, min_receive: b }).unwrap();
        let back: (u64, u64) = bincode::deserialize(&sell.data[8..]).unwrap();
        assert_eq!(back, (a, b));
    }
}

#[test]
fn missing_argument_bytes_is_a_serialization_error() {
    assert!(matches!(buy_instruction_from_args_bytes(&owner(), None), Err(EncodeError::Serialization)));
    assert!(matches!(sell_instruction_from_args_bytes(&owner(), None), Err(EncodeError::Serialization)));
    let ix = buy_instruction_from_args_bytes(&owner(), Some(vec![1, 2, 3])).unwrap();
    assert_eq!(ix.data, vec![138u8, 127, 14, 91, 38, 87, 115, 105, 1, 2, 3]);
}

#[test]
fn account_creation_uses_the_idempotent_variant() {
    let payer = owner();
    let mint = find_token_mint_pubkey();
    let first = create_associated_token_account_idempotent(&payer, &payer, &mint);
    let second = create_associated_token_account_idempotent(&payer, &payer, &mint);
    assert_eq!(first.data, vec![1u8]);
    assert_eq!(second.data, vec![1u8]);
    assert_eq!(first.program_id.bytes, spl_associated_token_account::id().to_bytes());
    assert_eq!(first.accounts.len(), 6);
    assert_eq!(first.accounts[1].pubkey.bytes, associated_token_address(&payer, &mint).bytes);
    assert_eq!(first.accounts[1].pubkey.bytes, second.accounts[1].pubkey.bytes);
}

#[test]
fn tip_transfer_payload() {
    let to = tip_receiver_at(0);
    let ix = transfer(&owner(), &to, 1000);
    assert_eq!(ix.program_id.bytes, [0u8; 32]);
    assert_eq!(ix.data, vec![2u8, 0, 0, 0, 232, 3, 0, 0, 0, 0, 0, 0]);
    assert_eq!(ix.accounts[0].pubkey.bytes, owner().bytes);
    assert!(ix.accounts[0].is_signer);
    assert_eq!(ix.accounts[1].pubkey.bytes, to.bytes);
}

#[test]
fn trade_instructions_come_in_execution_order() {
    let payer = owner();
    let to = tip_receiver_at(3);
    let v = trade_instructions(
        &payer,
        BuyTokenArgs { buy_amount: 100_000_000, max_pay: 1_000_000_000, donate_rate: 0 },
        SellTokenArgs { sell_amount: 100_000_000, min_receive: 0 },
        &to,
        1000,
    )
    .unwrap();
    assert_eq!(v.len(), 4);
    assert_eq!(v[0].data, vec![1u8]);
    assert_eq!(&v[1].data[..8], &[138u8, 127, 14, 91, 38, 87, 115, 105]);
    assert_eq!(&v[2].data[..8], &[109u8, 61, 40, 187, 230, 176, 135, 174]);
    assert_eq!(v[3].accounts[1].pubkey.bytes, to.bytes);
}
