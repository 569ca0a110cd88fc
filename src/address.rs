use solana_sdk::pubkey::Pubkey;
use vstd::prelude::*;

verus! {

/// A 32-byte account address.
#[derive(Clone, Copy, Debug)]
pub struct Address {
    pub bytes: [u8; 32],
}

impl View for Address {
    type V = Seq<u8>;

    open spec fn view(&self) -> Seq<u8> {
        self.bytes@
    }
}

/// How many tip receivers the relay publishes.
pub const TIP_RECEIVER_COUNT: usize = 8;

/// The all-zero address: the "absent" sentinel for an unset recipient, and
/// also the identity of the system program.
pub open spec fn zero_bytes() -> Seq<u8> {
    Seq::new(32, |i: int| 0u8)
}

/// The all-zero address.
pub fn zero_address() -> (r: Address)
    ensures
        r@ == zero_bytes(),
{
    let r = Address { bytes: [0u8; 32] };
    assert(r@ =~= zero_bytes());
    r
}

/// The system program.
pub fn system_program_id() -> (r: Address)
    ensures
        r@ == zero_bytes(),
{
    zero_address()
}

/// A recipient that may be unset: the configured address, or the all-zero
/// sentinel where none is configured.
pub fn resolve_recipient(configured: Option<Address>) -> (r: Address)
    ensures
        configured matches Some(a) ==> r@ == a@,
        configured is None ==> r@ == zero_bytes(),
{
    match configured {
        Some(a) => a,
        None => zero_address(),
    }
}

/// Whether `a` is the "no recipient" sentinel rather than a real account.
pub fn is_absent_recipient(a: &Address) -> (r: bool)
    ensures
        r == (a@ == zero_bytes()),
{
    let mut i: usize = 0;
    while i < 32
        invariant
            i <= 32,
            forall|j: int| 0 <= j < i ==> a@[j] == 0u8,
        decreases 32 - i,
    {
        if a.bytes[i] != 0 {
            assert(a@[i as int] != zero_bytes()[i as int]);
            return false;
        }
        i = i + 1;
    }
    assert(a@ =~= zero_bytes());
    true
}

/// What `get_associated_token_address` derives for an owner and a mint.
pub uninterp spec fn associated_address_of(owner: Seq<u8>, mint: Seq<u8>) -> Seq<u8>;

/// Relies on spl_associated_token_account::get_associated_token_address: the
/// derived address depends on the owner and the mint alone. (Its search for a
/// bump seed panics only where none of 255 seeds gives an off-curve address.)
#[verifier::external_body]
pub fn associated_token_address(owner: &Address, mint: &Address) -> (r: Address)
    ensures
        r@ == associated_address_of(owner@, mint@),
{
    let derived = spl_associated_token_account::get_associated_token_address(
        &Pubkey::new_from_array(owner.bytes),
        &Pubkey::new_from_array(mint.bytes),
    );
    Address { bytes: derived.to_bytes() }
}

/// Relies on rand's `Rng::gen_range` on the thread generator: a value below `n`.
#[verifier::external_body]
fn random_below(n: usize) -> (r: usize)
    requires
        n > 0,
    ensures
        r < n,
{
    rand::Rng::gen_range(&mut rand::thread_rng(), 0..n)
}

/// One of the tip receivers, chosen at random.
pub fn get_random_tip_receiver() -> (r: Address)
    ensures
        exists|i: int| 0 <= i < TIP_RECEIVER_COUNT && r@ == tip_receiver_bytes(i),
{
    let index = random_below(TIP_RECEIVER_COUNT);
    tip_receiver_at(index)
}

/// Bytes of `7ci3rZLKS92bdvVBD9qGH8qpRk3o975TxViLAFRh7hUx`.
pub open spec fn config_bytes() -> Seq<u8> {
    seq![98u8, 75, 221, 71, 98, 193, 32, 81, 160, 163, 5, 175, 107, 118, 239, 8, 27, 42, 193, 163, 49, 104, 41, 201, 145, 186, 149, 119, 166, 30, 189, 101]
}

/// The protocol configuration account.
pub fn find_config_account_pubkey() -> (r: Address)
    ensures
        r@ == config_bytes(),
{
    let r = Address { bytes: [98u8, 75, 221, 71, 98, 193, 32, 81, 160, 163, 5, 175, 107, 118, 239, 8, 27, 42, 193, 163, 49, 104, 41, 201, 145, 186, 149, 119, 166, 30, 189, 101] };
    assert(r@ =~= config_bytes());
    r
}

/// Bytes of `Bbn98EBGWp1yZZ5NRpVCQBXUnYVQ8XQuz1yuer4mXDwE`.
pub open spec fn market_bytes() -> Seq<u8> {
    seq![157u8, 125, 168, 37, 134, 165, 205, 2, 50, 251, 87, 207, 7, 221, 139, 37, 139, 117, 168, 210, 245, 45, 11, 140, 172, 4, 179, 159, 90, 111, 61, 9]
}

/// The market account.
pub fn find_market_account_pubkey() -> (r: Address)
    ensures
        r@ == market_bytes(),
{
    let r = Address { bytes: [157u8, 125, 168, 37, 134, 165, 205, 2, 50, 251, 87, 207, 7, 221, 139, 37, 139, 117, 168, 210, 245, 45, 11, 140, 172, 4, 179, 159, 90, 111, 61, 9] };
    assert(r@ =~= market_bytes());
    r
}

/// Bytes of `8vRBJ23q3uAxwkj56BJe8td7bguYdSkJ7UVtuhxLzDBG`.
pub open spec fn native_vault_bytes() -> Seq<u8> {
    seq![117u8, 176, 237, 205, 195, 118, 11, 9, 156, 37, 114, 168, 197, 150, 118, 48, 28, 107, 76, 162, 101, 176, 249, 24, 103, 234, 54, 129, 48, 68, 35, 123]
}

/// The vault that holds the native asset.
pub fn find_native_vault_account_pubkey() -> (r: Address)
    ensures
        r@ == native_vault_bytes(),
{
    let r = Address { bytes: [117u8, 176, 237, 205, 195, 118, 11, 9, 156, 37, 114, 168, 197, 150, 118, 48, 28, 107, 76, 162, 101, 176, 249, 24, 103, 234, 54, 129, 48, 68, 35, 123] };
    assert(r@ =~= native_vault_bytes());
    r
}

/// Bytes of `8eVmut2ripdnnTPwapuWYJBhVsq5nZbN87i9MRiJSsxW`.
pub open spec fn token_vault_bytes() -> Seq<u8> {
    seq![113u8, 156, 213, 107, 105, 174, 247, 58, 4, 138, 223, 1, 134, 87, 140, 139, 207, 252, 125, 113, 238, 107, 220, 237, 212, 50, 43, 236, 60, 241, 154, 51]
}

/// The vault that holds the traded token.
pub fn find_token_vault_account_pubkey() -> (r: Address)
    ensures
        r@ == token_vault_bytes(),
{
    let r = Address { bytes: [113u8, 156, 213, 107, 105, 174, 247, 58, 4, 138, 223, 1, 134, 87, 140, 139, 207, 252, 125, 113, 238, 107, 220, 237, 212, 50, 43, 236, 60, 241, 154, 51] };
    assert(r@ =~= token_vault_bytes());
    r
}

/// Bytes of `supruCAzKLHdtZCHvCWLauYQUJUvmVJXHJJb2zRxUMv`.
pub open spec fn token_mint_bytes() -> Seq<u8> {
    seq![13u8, 10, 197, 35, 134, 27, 168, 9, 53, 2, 32, 145, 89, 242, 78, 111, 45, 131, 191, 169, 128, 248, 148, 32, 172, 221, 198, 160, 123, 176, 230, 129]
}

/// The mint of the traded token.
pub fn find_token_mint_pubkey() -> (r: Address)
    ensures
        r@ == token_mint_bytes(),
{
    let r = Address { bytes: [13u8, 10, 197, 35, 134, 27, 168, 9, 53, 2, 32, 145, 89, 242, 78, 111, 45, 131, 191, 169, 128, 248, 148, 32, 172, 221, 198, 160, 123, 176, 230, 129] };
    assert(r@ =~= token_mint_bytes());
    r
}

/// Bytes of `super4XGGb7KWorPuoSNVQDHAVQjWzTpqcoRS86d9Us`.
pub open spec fn program_bytes() -> Seq<u8> {
    seq![13u8, 10, 196, 25, 255, 244, 39, 233, 118, 70, 217, 46, 121, 87, 13, 128, 70, 126, 177, 111, 228, 27, 137, 125, 78, 8, 94, 174, 173, 181, 98, 0]
}

/// The trading program that buy and sell instructions call.
pub fn program_id() -> (r: Address)
    ensures
        r@ == program_bytes(),
{
    let r = Address { bytes: [13u8, 10, 196, 25, 255, 244, 39, 233, 118, 70, 217, 46, 121, 87, 13, 128, 70, 126, 177, 111, 228, 27, 137, 125, 78, 8, 94, 174, 173, 181, 98, 0] };
    assert(r@ =~= program_bytes());
    r
}

/// Bytes of `TokenkegQfeZyiNwAJbNbGKPFXCWuBvf9Ss623VQ5DA`.
pub open spec fn token_program_bytes() -> Seq<u8> {
    seq![6u8, 221, 246, 225, 215, 101, 161, 147, 217, 203, 225, 70, 206, 235, 121, 172, 28, 180, 133, 237, 95, 91, 55, 145, 58, 140, 245, 133, 126, 255, 0, 169]
}

/// The token program.
pub fn token_program_id() -> (r: Address)
    ensures
        r@ == token_program_bytes(),
{
    let r = Address { bytes: [6u8, 221, 246, 225, 215, 101, 161, 147, 217, 203, 225, 70, 206, 235, 121, 172, 28, 180, 133, 237, 95, 91, 55, 145, 58, 140, 245, 133, 126, 255, 0, 169] };
    assert(r@ =~= token_program_bytes());
    r
}

/// Bytes of `ATokenGPvbdGVxr1b2hvZbsiqW5xWH25efTNsLJA8knL`.
pub open spec fn associated_token_program_bytes() -> Seq<u8> {
    seq![140u8, 151, 37, 143, 78, 36, 137, 241, 187, 61, 16, 41, 20, 142, 13, 131, 11, 90, 19, 153, 218, 255, 16, 132, 4, 142, 123, 216, 219, 233, 248, 89]
}

/// The associated-token-account program.
pub fn associated_token_program_id() -> (r: Address)
    ensures
        r@ == associated_token_program_bytes(),
{
    let r = Address { bytes: [140u8, 151, 37, 143, 78, 36, 137, 241, 187, 61, 16, 41, 20, 142, 13, 131, 11, 90, 19, 153, 218, 255, 16, 132, 4, 142, 123, 216, 219, 233, 248, 89] };
    assert(r@ =~= associated_token_program_bytes());
    r
}

/// Bytes of `7PG3b8wKLxb2tK36imsBwagnQWRc7axTcfCG61upQzoL`.
pub open spec fn fee_recipient_bytes() -> Seq<u8> {
    seq![94u8, 217, 233, 14, 96, 226, 9, 150, 210, 38, 201, 60, 237, 167, 154, 0, 85, 192, 165, 64, 74, 227, 143, 216, 149, 206, 183, 218, 12, 136, 45, 11]
}

/// The configured fee recipient, if one is set.
pub fn configured_fee_recipient() -> (r: Option<Address>)
    ensures
        r matches Some(a) && a@ == fee_recipient_bytes(),
{
    let a = Address { bytes: [94u8, 217, 233, 14, 96, 226, 9, 150, 210, 38, 201, 60, 237, 167, 154, 0, 85, 192, 165, 64, 74, 227, 143, 216, 149, 206, 183, 218, 12, 136, 45, 11] };
    assert(a@ =~= fee_recipient_bytes());
    Some(a)
}

/// The fee recipient, or the absent sentinel where none is configured.
pub fn get_fee_recipient_pubkey() -> (r: Address)
    ensures
        r@ == fee_recipient_bytes(),
{
    resolve_recipient(configured_fee_recipient())
}

/// Bytes of `A985r8W5VjhYtaaCf8PAcX5vXJLYb11cUForjoqK3J1K`.
pub open spec fn community_vault_bytes() -> Seq<u8> {
    seq![135u8, 205, 214, 150, 25, 203, 147, 66, 38, 11, 7, 53, 128, 7, 36, 35, 146, 24, 156, 181, 199, 156, 201, 176, 171, 74, 32, 86, 130, 100, 2, 102]
}

/// The configured community vault, if one is set.
pub fn configured_community_vault() -> (r: Option<Address>)
    ensures
        r matches Some(a) && a@ == community_vault_bytes(),
{
    let a = Address { bytes: [135u8, 205, 214, 150, 25, 203, 147, 66, 38, 11, 7, 53, 128, 7, 36, 35, 146, 24, 156, 181, 199, 156, 201, 176, 171, 74, 32, 86, 130, 100, 2, 102] };
    assert(a@ =~= community_vault_bytes());
    Some(a)
}

/// The community vault, or the absent sentinel where none is configured.
pub fn get_community_vault_pubkey() -> (r: Address)
    ensures
        r@ == community_vault_bytes(),
{
    resolve_recipient(configured_community_vault())
}

/// Bytes of the tip receiver at `i`, for `i` below `TIP_RECEIVER_COUNT`.
pub open spec fn tip_receiver_bytes(i: int) -> Seq<u8> {

    if i == 0 {
        seq![120u8, 82, 28, 177, 121, 206, 187, 133, 137, 181, 86, 162, 213, 236, 148, 210, 73, 134, 130, 253, 249, 187, 42, 245, 173, 100, 228, 145, 204, 65, 83, 218]
    } else if i == 1 {
        seq![177u8, 78, 13, 229, 94, 159, 186, 134, 57, 110, 191, 213, 72, 207, 248, 201, 32, 17, 234, 199, 183, 91, 170, 155, 45, 156, 106, 134, 245, 161, 113, 65]
    } else if i == 2 {
        seq![191u8, 151, 27, 89, 16, 139, 91, 133, 160, 79, 176, 147, 241, 226, 27, 78, 63, 212, 196, 200, 244, 135, 221, 9, 185, 87, 82, 118, 159, 13, 216, 195]
    } else if i == 3 {
        seq![136u8, 241, 255, 163, 162, 223, 230, 23, 189, 196, 227, 87, 50, 81, 163, 34, 227, 252, 174, 129, 229, 164, 87, 57, 14, 100, 117, 28, 0, 164, 101, 226]
    } else if i == 4 {
        seq![188u8, 43, 87, 6, 94, 241, 221, 102, 84, 48, 190, 96, 107, 166, 89, 108, 2, 149, 48, 27, 173, 239, 139, 90, 252, 65, 1, 65, 80, 244, 18, 116]
    } else if i == 5 {
        seq![137u8, 7, 125, 85, 165, 187, 19, 48, 118, 62, 183, 103, 245, 94, 192, 119, 180, 26, 13, 7, 95, 125, 225, 215, 63, 186, 202, 60, 99, 213, 84, 113]
    } else if i == 6 {
        seq![241u8, 135, 236, 135, 209, 247, 69, 203, 58, 3, 56, 74, 38, 166, 158, 218, 12, 162, 209, 170, 15, 65, 228, 36, 22, 55, 126, 145, 255, 91, 93, 49]
    } else {
        seq![32u8, 38, 16, 30, 194, 3, 40, 150, 74, 50, 171, 171, 19, 108, 84, 5, 185, 31, 58, 227, 142, 228, 246, 76, 182, 189, 232, 121, 184, 104, 56, 210]
    }
}


/// The tip receiver at `index`.
pub fn tip_receiver_at(index: usize) -> (r: Address)
    requires
        index < TIP_RECEIVER_COUNT,
    ensures
        r@ == tip_receiver_bytes(index as int),
{

    let bytes: [u8; 32] = if index == 0 {
        [120u8, 82, 28, 177, 121, 206, 187, 133, 137, 181, 86, 162, 213, 236, 148, 210, 73, 134, 130, 253, 249, 187, 42, 245, 173, 100, 228, 145, 204, 65, 83, 218]
    } else if index == 1 {
        [177u8, 78, 13, 229, 94, 159, 186, 134, 57, 110, 191, 213, 72, 207, 248, 201, 32, 17, 234, 199, 183, 91, 170, 155, 45, 156, 106, 134, 245, 161, 113, 65]
    } else if index == 2 {
        [191u8, 151, 27, 89, 16, 139, 91, 133, 160, 79, 176, 147, 241, 226, 27, 78, 63, 212, 196, 200, 244, 135, 221, 9, 185, 87, 82, 118, 159, 13, 216, 195]
    } else if index == 3 {
        [136u8, 241, 255, 163, 162, 223, 230, 23, 189, 196, 227, 87, 50, 81, 163, 34, 227, 252, 174, 129, 229, 164, 87, 57, 14, 100, 117, 28, 0, 164, 101, 226]
    } else if index == 4 {
        [188u8, 43, 87, 6, 94, 241, 221, 102, 84, 48, 190, 96, 107, 166, 89, 108, 2, 149, 48, 27, 173, 239, 139, 90, 252, 65, 1, 65, 80, 244, 18, 116]
    } else if index == 5 {
        [137u8, 7, 125, 85, 165, 187, 19, 48, 118, 62, 183, 103, 245, 94, 192, 119, 180, 26, 13, 7, 95, 125, 225, 215, 63, 186, 202, 60, 99, 213, 84, 113]
    } else if index == 6 {
        [241u8, 135, 236, 135, 209, 247, 69, 203, 58, 3, 56, 74, 38, 166, 158, 218, 12, 162, 209, 170, 15, 65, 228, 36, 22, 55, 126, 145, 255, 91, 93, 49]
    } else {
        [32u8, 38, 16, 30, 194, 3, 40, 150, 74, 50, 171, 171, 19, 108, 84, 5, 185, 31, 58, 227, 142, 228, 246, 76, 182, 189, 232, 121, 184, 104, 56, 210]
    };

    let r = Address { bytes };
    assert(r@ =~= tip_receiver_bytes(index as int));
    r
}

} // verus!
