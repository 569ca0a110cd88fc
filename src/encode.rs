use crate::address::{
    associated_address_of, associated_token_address, community_vault_bytes, config_bytes,
    fee_recipient_bytes, find_config_account_pubkey, find_market_account_pubkey,
    find_native_vault_account_pubkey, find_token_mint_pubkey, find_token_vault_account_pubkey,
    get_community_vault_pubkey, get_fee_recipient_pubkey, market_bytes, native_vault_bytes,
    program_bytes, program_id, system_program_id, token_mint_bytes, token_program_bytes,
    token_program_id, token_vault_bytes, zero_bytes, Address,
};
use vstd::prelude::*;

verus! {

/// Arguments of a buy call.
#[derive(Clone, Copy, Debug, PartialEq, Eq, Structural)]
pub struct BuyTokenArgs {
    pub buy_amount: u64,
    pub max_pay: u64,
    pub donate_rate: u32,
}

/// Arguments of a sell call.
#[derive(Clone, Copy, Debug, PartialEq, Eq, Structural)]
pub struct SellTokenArgs {
    pub sell_amount: u64,
    pub min_receive: u64,
}

/// Why an instruction could not be encoded.
#[derive(Clone, Copy, Debug, PartialEq, Eq, Structural)]
pub enum EncodeError {
    /// The argument serializer reported a failure.
    Serialization,
}

/// One account that an instruction touches, with its access mode.
#[derive(Clone, Copy, Debug)]
pub struct AccountMeta {
    pub pubkey: Address,
    pub is_signer: bool,
    pub is_writable: bool,
}

impl View for AccountMeta {
    type V = (Seq<u8>, bool, bool);

    open spec fn view(&self) -> (Seq<u8>, bool, bool) {
        (self.pubkey@, self.is_signer, self.is_writable)
    }
}

/// A program call: the program, its ordered accounts and its payload.
#[derive(Debug)]
pub struct Instruction {
    pub program_id: Address,
    pub accounts: Vec<AccountMeta>,
    pub data: Vec<u8>,
}

impl View for Instruction {
    type V = (Seq<u8>, Seq<(Seq<u8>, bool, bool)>, Seq<u8>);

    open spec fn view(&self) -> (Seq<u8>, Seq<(Seq<u8>, bool, bool)>, Seq<u8>) {
        (self.program_id@, self.accounts@.map_values(|m: AccountMeta| m@), self.data@)
    }
}

/// A writable account that does not sign.
pub open spec fn writable(a: Seq<u8>) -> (Seq<u8>, bool, bool) {
    (a, false, true)
}

/// A read-only account that does not sign.
pub open spec fn read_only(a: Seq<u8>) -> (Seq<u8>, bool, bool) {
    (a, false, false)
}

/// 256 to the power `n`.
pub open spec fn pow256(n: nat) -> nat
    decreases n,
{
    if n == 0 {
        1
    } else {
        256 * pow256((n - 1) as nat)
    }
}

/// The `n` low bytes of `x`, least significant first.
pub open spec fn le_bytes(x: nat, n: nat) -> Seq<u8>
    decreases n,
{
    if n == 0 {
        Seq::empty()
    } else {
        seq![(x % 256) as u8] + le_bytes(x / 256, (n - 1) as nat)
    }
}

/// The number that the bytes `s` encode, least significant first.
pub open spec fn le_value(s: Seq<u8>) -> nat
    decreases s.len(),
{
    if s.len() == 0 {
        0
    } else {
        s[0] as nat + 256 * le_value(s.drop_first())
    }
}

/// The tag that opens every buy payload.
pub open spec fn buy_discriminator() -> Seq<u8> {
    seq![138u8, 127, 14, 91, 38, 87, 115, 105]
}

/// The tag that opens every sell payload.
pub open spec fn sell_discriminator() -> Seq<u8> {
    seq![109u8, 61, 40, 187, 230, 176, 135, 174]
}

/// Buy arguments in wire form: each field in declaration order, fixed width,
/// little-endian.
pub open spec fn buy_args_bytes(args: BuyTokenArgs) -> Seq<u8> {
    le_bytes(args.buy_amount as nat, 8) + le_bytes(args.max_pay as nat, 8) + le_bytes(
        args.donate_rate as nat,
        4,
    )
}

/// Sell arguments in wire form.
pub open spec fn sell_args_bytes(args: SellTokenArgs) -> Seq<u8> {
    le_bytes(args.sell_amount as nat, 8) + le_bytes(args.min_receive as nat, 8)
}

/// Reads buy arguments back from their wire form.
pub open spec fn buy_args_from_bytes(s: Seq<u8>) -> (nat, nat, nat) {
    (le_value(s.subrange(0, 8)), le_value(s.subrange(8, 16)), le_value(s.subrange(16, 20)))
}

/// Reads sell arguments back from their wire form.
pub open spec fn sell_args_from_bytes(s: Seq<u8>) -> (nat, nat) {
    (le_value(s.subrange(0, 8)), le_value(s.subrange(8, 16)))
}

/// The account list of a buy call made by `payer`. The token program and the
/// system program are passed with the writable flag; the runtime demotes
/// program identities to read-only, so the flag does not widen what the call
/// may write.
pub open spec fn buy_accounts(payer: Seq<u8>) -> Seq<(Seq<u8>, bool, bool)> {
    seq![
        read_only(config_bytes()),
        writable(market_bytes()),
        writable(native_vault_bytes()),
        writable(fee_recipient_bytes()),
        writable(token_vault_bytes()),
        writable(community_vault_bytes()),
        writable(associated_address_of(payer, token_mint_bytes())),
        (payer, true, true),
        writable(token_program_bytes()),
        writable(zero_bytes()),
    ]
}

/// The account list of a sell call made by `payer`: the payer receives the
/// native asset where a buy names the community vault, and pays tokens from
/// its associated account. The flags of the two program identities are those
/// of a buy.
pub open spec fn sell_accounts(payer: Seq<u8>) -> Seq<(Seq<u8>, bool, bool)> {
    seq![
        read_only(config_bytes()),
        writable(market_bytes()),
        writable(native_vault_bytes()),
        writable(fee_recipient_bytes()),
        writable(token_vault_bytes()),
        writable(payer),
        writable(associated_address_of(payer, token_mint_bytes())),
        (payer, true, true),
        writable(token_program_bytes()),
        writable(zero_bytes()),
    ]
}

proof fn lemma_le_bytes_len(x: nat, n: nat)
    ensures
        le_bytes(x, n).len() == n,
    decreases n,
{
    if n > 0 {
        lemma_le_bytes_len(x / 256, (n - 1) as nat);
    }
}

proof fn lemma_le_round_trip(x: nat, n: nat)
    ensures
        le_value(le_bytes(x, n)) == x % pow256(n),
    decreases n,
{
    if n == 0 {
        assert(x % 1 == 0) by (nonlinear_arith);
    } else {
        let m = (n - 1) as nat;
        lemma_le_round_trip(x / 256, m);
        let s = le_bytes(x, n);
        assert(s.drop_first() =~= le_bytes(x / 256, m));
        assert(pow256(n) == 256 * pow256(m));
        assert(pow256(m) > 0) by {
            lemma_pow256_positive(m);
        }
        vstd::arithmetic::div_mod::lemma_breakdown(x as int, 256, pow256(m) as int);
    }
}

proof fn lemma_pow256_positive(n: nat)
    ensures
        pow256(n) > 0,
    decreases n,
{
    if n > 0 {
        lemma_pow256_positive((n - 1) as nat);
    }
}

proof fn lemma_fixed_width_round_trip(x: nat, n: nat)
    requires
        n == 4 || n == 8,
        x < pow256(n),
    ensures
        le_value(le_bytes(x, n)) == x,
        le_bytes(x, n).len() == n,
{
    lemma_le_round_trip(x, n);
    lemma_le_bytes_len(x, n);
    assert(x % pow256(n) == x) by {
        vstd::arithmetic::div_mod::lemma_small_mod(x, pow256(n));
    }
}

proof fn lemma_word_bounds()
    ensures
        pow256(8) == 0x1_0000_0000_0000_0000,
        pow256(4) == 0x1_0000_0000,
{
    reveal_with_fuel(pow256, 9);
}

/// Decoding the wire form of buy arguments gives back every field exactly.
pub proof fn lemma_buy_args_round_trip(args: BuyTokenArgs)
    ensures
        buy_args_bytes(args).len() == 20,
        buy_args_from_bytes(buy_args_bytes(args)) == (
            args.buy_amount as nat,
            args.max_pay as nat,
            args.donate_rate as nat,
        ),
{
    lemma_word_bounds();
    let a = le_bytes(args.buy_amount as nat, 8);
    let b = le_bytes(args.max_pay as nat, 8);
    let c = le_bytes(args.donate_rate as nat, 4);
    lemma_fixed_width_round_trip(args.buy_amount as nat, 8);
    lemma_fixed_width_round_trip(args.max_pay as nat, 8);
    lemma_fixed_width_round_trip(args.donate_rate as nat, 4);
    let s = buy_args_bytes(args);
    assert(s.subrange(0, 8) =~= a);
    assert(s.subrange(8, 16) =~= b);
    assert(s.subrange(16, 20) =~= c);
}

/// Decoding the wire form of sell arguments gives back every field exactly.
pub proof fn lemma_sell_args_round_trip(args: SellTokenArgs)
    ensures
        sell_args_bytes(args).len() == 16,
        sell_args_from_bytes(sell_args_bytes(args)) == (
            args.sell_amount as nat,
            args.min_receive as nat,
        ),
{
    lemma_word_bounds();
    let a = le_bytes(args.sell_amount as nat, 8);
    let b = le_bytes(args.min_receive as nat, 8);
    lemma_fixed_width_round_trip(args.sell_amount as nat, 8);
    lemma_fixed_width_round_trip(args.min_receive as nat, 8);
    let s = sell_args_bytes(args);
    assert(s.subrange(0, 8) =~= a);
    assert(s.subrange(8, 16) =~= b);
}

/// The error that bincode's serializer reports.
#[verifier::external_type_specification]
#[verifier::external_body]
pub struct ExBincodeErrorKind(bincode::ErrorKind);

/// Relies on bincode::serialize (fixed-width integers, little-endian, fields in
/// order, no framing) on the tuple of the buy fields. With the default options
/// there is no size limit and the bytes go into a `Vec`, so integers always
/// serialize.
#[verifier::external_body]
fn serialize_buy_fields(buy_amount: u64, max_pay: u64, donate_rate: u32) -> (r: Result<
    Vec<u8>,
    Box<bincode::ErrorKind>,
>)
    ensures
        r is Ok,
        r matches Ok(v) ==> v@ == le_bytes(buy_amount as nat, 8) + le_bytes(max_pay as nat, 8)
            + le_bytes(donate_rate as nat, 4),
{
    bincode::serialize(&(buy_amount, max_pay, donate_rate))
}

/// Relies on bincode::serialize (fixed-width integers, little-endian, fields in
/// order, no framing) on the tuple of the sell fields; it always succeeds, as
/// above.
#[verifier::external_body]
fn serialize_sell_fields(sell_amount: u64, min_receive: u64) -> (r: Result<
    Vec<u8>,
    Box<bincode::ErrorKind>,
>)
    ensures
        r is Ok,
        r matches Ok(v) ==> v@ == le_bytes(sell_amount as nat, 8) + le_bytes(
            min_receive as nat,
            8,
        ),
{
    bincode::serialize(&(sell_amount, min_receive))
}

fn writable_meta(pubkey: Address) -> (r: AccountMeta)
    ensures
        r@ == writable(pubkey@),
{
    AccountMeta { pubkey, is_signer: false, is_writable: true }
}

/// The buy call of `payer`, given what the serializer returned for its
/// arguments: no bytes is an error, otherwise the payload is the buy tag
/// followed by those bytes.
pub fn buy_instruction_from_args_bytes(payer: &Address, args_bytes: Option<Vec<u8>>) -> (r: Result<
    Instruction,
    EncodeError,
>)
    ensures
        args_bytes is None ==> r == Err::<Instruction, EncodeError>(EncodeError::Serialization),
        args_bytes matches Some(b) ==> (r matches Ok(ix) && ix@ == (
            program_bytes(),
            buy_accounts(payer@),
            buy_discriminator() + b@,
        )),
{
    let mut args_data = match args_bytes {
        Some(b) => b,
        None => return Err(EncodeError::Serialization),
    };
    let token_mint = find_token_mint_pubkey();
    let token_recipient = associated_token_address(payer, &token_mint);
    let accounts = vec![
        AccountMeta { pubkey: find_config_account_pubkey(), is_signer: false, is_writable: false },
        writable_meta(find_market_account_pubkey()),
        writable_meta(find_native_vault_account_pubkey()),
        writable_meta(get_fee_recipient_pubkey()),
        writable_meta(find_token_vault_account_pubkey()),
        writable_meta(get_community_vault_pubkey()),
        writable_meta(token_recipient),
        AccountMeta { pubkey: *payer, is_signer: true, is_writable: true },
        writable_meta(token_program_id()),
        writable_meta(system_program_id()),
    ];
    let mut data = vec![138u8, 127, 14, 91, 38, 87, 115, 105];
    let ghost tail = args_data@;
    data.append(&mut args_data);
    let ix = Instruction { program_id: program_id(), accounts, data };
    assert(ix@.1 =~= buy_accounts(payer@));
    assert(ix@.2 =~= buy_discriminator() + tail);
    Ok(ix)
}

/// The sell call of `payer`, given what the serializer returned for its
/// arguments.
pub fn sell_instruction_from_args_bytes(payer: &Address, args_bytes: Option<Vec<u8>>) -> (r: Result<
    Instruction,
    EncodeError,
>)
    ensures
        args_bytes is None ==> r == Err::<Instruction, EncodeError>(EncodeError::Serialization),
        args_bytes matches Some(b) ==> (r matches Ok(ix) && ix@ == (
            program_bytes(),
            sell_accounts(payer@),
            sell_discriminator() + b@,
        )),
{
    let mut args_data = match args_bytes {
        Some(b) => b,
        None => return Err(EncodeError::Serialization),
    };
    let token_mint = find_token_mint_pubkey();
    let token_payer = associated_token_address(payer, &token_mint);
    let accounts = vec![
        AccountMeta { pubkey: find_config_account_pubkey(), is_signer: false, is_writable: false },
        writable_meta(find_market_account_pubkey()),
        writable_meta(find_native_vault_account_pubkey()),
        writable_meta(get_fee_recipient_pubkey()),
        writable_meta(find_token_vault_account_pubkey()),
        writable_meta(*payer),
        writable_meta(token_payer),
        AccountMeta { pubkey: *payer, is_signer: true, is_writable: true },
        writable_meta(token_program_id()),
        writable_meta(system_program_id()),
    ];
    let mut data = vec![109u8, 61, 40, 187, 230, 176, 135, 174];
    let ghost tail = args_data@;
    data.append(&mut args_data);
    let ix = Instruction { program_id: program_id(), accounts, data };
    assert(ix@.1 =~= sell_accounts(payer@));
    assert(ix@.2 =~= sell_discriminator() + tail);
    Ok(ix)
}

/// The buy call that `payer` signs: ten accounts in the program's fixed order,
/// and a payload of the buy tag followed by the arguments in wire form.
pub fn buy_token_ix(payer: &Address, args: BuyTokenArgs) -> (r: Result<Instruction, EncodeError>)
    ensures
        r is Ok,
        r matches Ok(ix) ==> ix@ == (
            program_bytes(),
            buy_accounts(payer@),
            buy_discriminator() + buy_args_bytes(args),
        ),
        r matches Ok(ix) ==> ix.accounts.len() == 10 && ix.data.len() == 28
            && ix.data@.subrange(0, 8) == buy_discriminator(),
{
    let args_bytes = match serialize_buy_fields(args.buy_amount, args.max_pay, args.donate_rate) {
        Ok(b) => Some(b),
        Err(_) => None,
    };
    let r = buy_instruction_from_args_bytes(payer, args_bytes);
    proof {
        lemma_buy_args_round_trip(args);
        if r is Ok {
            let ix = r->Ok_0;
            assert(ix.accounts@.map_values(|m: AccountMeta| m@).len() == 10);
            assert(ix.data@.subrange(0, 8) =~= buy_discriminator());
        }
    }
    r
}

/// The sell call that `payer` signs: ten accounts in the program's fixed order,
/// and a payload of the sell tag followed by the arguments in wire form.
pub fn sell_token_ix(payer: &Address, args: SellTokenArgs) -> (r: Result<Instruction, EncodeError>)
    ensures
        r is Ok,
        r matches Ok(ix) ==> ix@ == (
            program_bytes(),
            sell_accounts(payer@),
            sell_discriminator() + sell_args_bytes(args),
        ),
        r matches Ok(ix) ==> ix.accounts.len() == 10 && ix.data.len() == 24
            && ix.data@.subrange(0, 8) == sell_discriminator(),
{
    let args_bytes = match serialize_sell_fields(args.sell_amount, args.min_receive) {
        Ok(b) => Some(b),
        Err(_) => None,
    };
    let r = sell_instruction_from_args_bytes(payer, args_bytes);
    proof {
        lemma_sell_args_round_trip(args);
        if r is Ok {
            let ix = r->Ok_0;
            assert(ix.accounts@.map_values(|m: AccountMeta| m@).len() == 10);
            assert(ix.data@.subrange(0, 8) =~= sell_discriminator());
        }
    }
    r
}

} // verus!
