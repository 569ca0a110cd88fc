use crate::address::{
    associated_address_of, associated_token_program_bytes, find_token_mint_pubkey,
    token_mint_bytes, token_program_bytes, zero_bytes, Address,
};
use crate::encode::{
    buy_accounts, buy_args_bytes, buy_discriminator, buy_token_ix, le_bytes, read_only,
    sell_accounts, sell_args_bytes, sell_discriminator, sell_token_ix, writable, AccountMeta,
    BuyTokenArgs, EncodeError, Instruction, SellTokenArgs,
};
use solana_sdk::pubkey::Pubkey;
use vstd::prelude::*;

verus! {

/// The idempotent account-creation call by which `funding` makes sure that
/// `wallet` holds an associated token account for `mint`.
pub open spec fn create_account_view(funding: Seq<u8>, wallet: Seq<u8>, mint: Seq<u8>) -> (
    Seq<u8>,
    Seq<(Seq<u8>, bool, bool)>,
    Seq<u8>,
) {
    (
        associated_token_program_bytes(),
        seq![
            (funding, true, true),
            writable(associated_address_of(wallet, mint)),
            read_only(wallet),
            read_only(mint),
            read_only(zero_bytes()),
            read_only(token_program_bytes()),
        ],
        seq![1u8],
    )
}

/// The system transfer of `lamports` from `from` to `to`.
pub open spec fn transfer_view(from: Seq<u8>, to: Seq<u8>, lamports: u64) -> (
    Seq<u8>,
    Seq<(Seq<u8>, bool, bool)>,
    Seq<u8>,
) {
    (zero_bytes(), seq![(from, true, true), writable(to)], seq![2u8, 0, 0, 0] + le_bytes(lamports as nat, 8))
}

/// Relies on spl_associated_token_account's
/// `create_associated_token_account_idempotent` with the token program: the
/// idempotent variant (payload `[1]`), which succeeds where the account exists.
#[verifier::external_body]
pub fn create_associated_token_account_idempotent(funding: &Address, wallet: &Address, mint: &Address) -> (r: Instruction)
    ensures
        r@ == create_account_view(funding@, wallet@, mint@),
{
    let ix = spl_associated_token_account::instruction::create_associated_token_account_idempotent(
        &Pubkey::new_from_array(funding.bytes),
        &Pubkey::new_from_array(wallet.bytes),
        &Pubkey::new_from_array(mint.bytes),
        &spl_token::id(),
    );
    let accounts = ix.accounts.iter().map(|m| AccountMeta {
        pubkey: Address { bytes: m.pubkey.to_bytes() },
        is_signer: m.is_signer,
        is_writable: m.is_writable,
    }).collect();
    Instruction { program_id: Address { bytes: ix.program_id.to_bytes() }, accounts, data: ix.data }
}

/// Relies on solana_sdk's `system_instruction::transfer`: the system program,
/// the payer as writable signer, the receiver writable, and the payload of the
/// transfer variant (tag 2 as four bytes, then the amount as eight).
#[verifier::external_body]
pub fn transfer(from: &Address, to: &Address, lamports: u64) -> (r: Instruction)
    ensures
        r@ == transfer_view(from@, to@, lamports),
{
    let ix = solana_sdk::system_instruction::transfer(
        &Pubkey::new_from_array(from.bytes),
        &Pubkey::new_from_array(to.bytes),
        lamports,
    );
    let accounts = ix.accounts.iter().map(|m| AccountMeta {
        pubkey: Address { bytes: m.pubkey.to_bytes() },
        is_signer: m.is_signer,
        is_writable: m.is_writable,
    }).collect();
    Instruction { program_id: Address { bytes: ix.program_id.to_bytes() }, accounts, data: ix.data }
}

/// The instructions of one atomic round trip by `payer`, in execution order:
/// create the payer's token account if it is missing, buy, sell, then tip
/// the relay.
pub fn trade_instructions(
    payer: &Address,
    buy_args: BuyTokenArgs,
    sell_args: SellTokenArgs,
    tip_receiver: &Address,
    tip_lamports: u64,
) -> (r: Result<Vec<Instruction>, EncodeError>)
    ensures
        r is Ok,
        r matches Ok(v) ==> v.len() == 4 && v[0]@ == create_account_view(
            payer@,
            payer@,
            token_mint_bytes(),
        ) && v[1]@ == (
            crate::address::program_bytes(),
            buy_accounts(payer@),
            buy_discriminator() + buy_args_bytes(buy_args),
        ) && v[2]@ == (
            crate::address::program_bytes(),
            sell_accounts(payer@),
            sell_discriminator() + sell_args_bytes(sell_args),
        ) && v[3]@ == transfer_view(payer@, tip_receiver@, tip_lamports),
{
    let mint = find_token_mint_pubkey();
    let create = create_associated_token_account_idempotent(payer, payer, &mint);
    let buy = buy_token_ix(payer, buy_args)?;
    let sell = sell_token_ix(payer, sell_args)?;
    let tip = transfer(payer, tip_receiver, tip_lamports);
    Ok(vec![create, buy, sell, tip])
}

} // verus!
