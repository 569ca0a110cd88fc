use base64::Engine;
use vstd::prelude::*;

verus! {

/// What the standard base64 alphabet, with padding, makes of `b`.
pub uninterp spec fn base64_of(b: Seq<u8>) -> Seq<u8>;

/// Relies on base64's standard engine `encode`: padded standard-alphabet text,
/// a function of the input bytes alone, four characters for each started group
/// of three bytes.
#[verifier::external_body]
fn base64_encode(b: &Vec<u8>) -> (r: Vec<u8>)
    ensures
        r@ == base64_of(b@),
        r@.len() == 4 * ((b@.len() + 2) / 3),
{
    base64::engine::general_purpose::STANDARD.encode(b).into_bytes()
}

/// `{"jsonrpc":"2.0","id":`
pub open spec fn request_head() -> Seq<u8> {
    seq![123u8, 34, 106, 115, 111, 110, 114, 112, 99, 34, 58, 34, 50, 46, 48, 34, 44, 34, 105, 100, 34, 58]
}

/// `,"method":"sendBundle","params":[[`
pub open spec fn request_method() -> Seq<u8> {
    seq![44u8, 34, 109, 101, 116, 104, 111, 100, 34, 58, 34, 115, 101, 110, 100, 66, 117, 110, 100, 108, 101, 34, 44, 34, 112, 97, 114, 97, 109, 115, 34, 58, 91, 91]
}

/// `],{"encoding":"base64"}]}`
pub open spec fn request_tail() -> Seq<u8> {
    seq![93u8, 44, 123, 34, 101, 110, 99, 111, 100, 105, 110, 103, 34, 58, 34, 98, 97, 115, 101, 54, 52, 34, 125, 93, 125]
}

/// `/api/v1/bundles`
pub open spec fn bundles_path() -> Seq<u8> {
    seq![47u8, 97, 112, 105, 47, 118, 49, 47, 98, 117, 110, 100, 108, 101, 115]
}

/// The decimal digits of `n`, most significant first, without leading zeros.
pub open spec fn decimal(n: nat) -> Seq<u8>
    decreases n,
{
    if n < 10 {
        seq![(48 + n) as u8]
    } else {
        decimal(n / 10) + seq![(48 + n % 10) as u8]
    }
}

/// `s` between double quotes.
pub open spec fn quoted(s: Seq<u8>) -> Seq<u8> {
    seq![34u8] + s + seq![34u8]
}

/// The strings `items`, each quoted, in order, separated by commas.
pub open spec fn quoted_list(items: Seq<Seq<u8>>) -> Seq<u8>
    decreases items.len(),
{
    if items.len() == 0 {
        Seq::empty()
    } else if items.len() == 1 {
        quoted(items[0])
    } else {
        quoted_list(items.drop_last()) + seq![44u8] + quoted(items.last())
    }
}

/// The JSON-RPC 2.0 `sendBundle` request with correlation id `id` whose first
/// parameter is the list `encoded` of base64 transactions.
pub open spec fn request_body(encoded: Seq<Seq<u8>>, id: nat) -> Seq<u8> {
    request_head() + decimal(id) + request_method() + quoted_list(encoded) + request_tail()
}

/// The views of a list of byte vectors.
pub open spec fn views(v: Seq<Vec<u8>>) -> Seq<Seq<u8>> {
    v.map_values(|e: Vec<u8>| e@)
}

/// A bundle of a single transaction carries exactly one string in its first
/// parameter.
pub proof fn lemma_single_transaction_bundle(tx: Seq<u8>, id: nat)
    ensures
        request_body(seq![base64_of(tx)], id) == request_head() + decimal(id) + request_method()
            + quoted(base64_of(tx)) + request_tail(),
{
}

fn push_all(out: &mut Vec<u8>, src: &Vec<u8>)
    ensures
        final(out)@ == old(out)@ + src@,
{
    let mut j: usize = 0;
    while j < src.len()
        invariant
            j <= src@.len(),
            out@ == old(out)@ + src@.subrange(0, j as int),
        decreases src@.len() - j,
    {
        out.push(src[j]);
        j = j + 1;
        assert(out@ =~= old(out)@ + src@.subrange(0, j as int));
    }
    assert(src@.subrange(0, src@.len() as int) =~= src@);
}

fn push_decimal(out: &mut Vec<u8>, n: u64)
    ensures
        final(out)@ == old(out)@ + decimal(n as nat),
    decreases n,
{
    if n >= 10 {
        push_decimal(out, n / 10);
    }
    out.push(48u8 + (n % 10) as u8);
    assert(out@ =~= old(out)@ + decimal(n as nat));
}

/// Each signed transaction in wire form, encoded as base64 text, in the
/// order given.
pub fn encode_transactions(txs: &Vec<Vec<u8>>) -> (r: Vec<Vec<u8>>)
    ensures
        r.len() == txs.len(),
        forall|i: int| 0 <= i < txs.len() ==> #[trigger] r[i]@ == base64_of(txs[i]@),
        forall|i: int|
            0 <= i < txs.len() ==> #[trigger] r[i]@.len() == 4 * ((txs[i]@.len() + 2) / 3),
{
    let mut r: Vec<Vec<u8>> = Vec::new();
    let mut i: usize = 0;
    while i < txs.len()
        invariant
            i <= txs.len(),
            r.len() == i,
            forall|k: int| 0 <= k < i ==> #[trigger] r[k]@ == base64_of(txs[k]@),
            forall|k: int|
                0 <= k < i ==> #[trigger] r[k]@.len() == 4 * ((txs[k]@.len() + 2) / 3),
        decreases txs.len() - i,
    {
        r.push(base64_encode(&txs[i]));
        i = i + 1;
    }
    r
}

/// The body of the `sendBundle` request that carries `encoded`, in order.
pub fn bundle_request_body(encoded: &Vec<Vec<u8>>, id: u64) -> (r: Vec<u8>)
    ensures
        r@ == request_body(views(encoded@), id as nat),
{
    let mut out = vec![123u8, 34, 106, 115, 111, 110, 114, 112, 99, 34, 58, 34, 50, 46, 48, 34, 44, 34, 105, 100, 34, 58];
    assert(out@ =~= request_head());
    push_decimal(&mut out, id);
    let method = vec![44u8, 34, 109, 101, 116, 104, 111, 100, 34, 58, 34, 115, 101, 110, 100, 66, 117, 110, 100, 108, 101, 34, 44, 34, 112, 97, 114, 97, 109, 115, 34, 58, 91, 91];
    push_all(&mut out, &method);
    let ghost start = out@;
    let mut i: usize = 0;
    while i < encoded.len()
        invariant
            i <= encoded.len(),
            out@ == start + quoted_list(views(encoded@).subrange(0, i as int)),
        decreases encoded.len() - i,
    {
        let ghost before = out@;
        if i > 0 {
            out.push(44u8);
        }
        out.push(34u8);
        push_all(&mut out, &encoded[i]);
        out.push(34u8);
        proof {
            let all = views(encoded@);
            let prev = all.subrange(0, i as int);
            let next = all.subrange(0, i + 1);
            assert(next.drop_last() =~= prev);
            assert(next.last() == encoded@[i as int]@);
            if i == 0 {
                assert(prev =~= Seq::<Seq<u8>>::empty());
            }
            assert(out@ =~= start + quoted_list(next));
        }
        i = i + 1;
    }
    assert(views(encoded@).subrange(0, encoded.len() as int) =~= views(encoded@));
    let tail = vec![93u8, 44, 123, 34, 101, 110, 99, 111, 100, 105, 110, 103, 34, 58, 34, 98, 97, 115, 101, 54, 52, 34, 125, 93, 125];
    push_all(&mut out, &tail);
    assert(out@ =~= request_body(views(encoded@), id as nat));
    out
}

/// The `sendBundle` request for the signed transactions `txs` (each in wire
/// form): one base64 string per transaction, in the order given.
pub fn bundle_request(txs: &Vec<Vec<u8>>, id: u64) -> (r: Vec<u8>)
    ensures
        r@ == request_body(txs@.map_values(|t: Vec<u8>| base64_of(t@)), id as nat),
{
    let encoded = encode_transactions(txs);
    let r = bundle_request_body(&encoded, id);
    assert(views(encoded@) =~= txs@.map_values(|t: Vec<u8>| base64_of(t@)));
    r
}

/// Where bundles are posted on the relay at `endpoint`.
pub fn bundle_url(endpoint: &Vec<u8>) -> (r: Vec<u8>)
    ensures
        r@ == endpoint@ + bundles_path(),
{
    let mut out: Vec<u8> = Vec::new();
    push_all(&mut out, endpoint);
    let path = vec![47u8, 97, 112, 105, 47, 118, 49, 47, 98, 117, 110, 100, 108, 101, 115];
    push_all(&mut out, &path);
    assert(out@ =~= endpoint@ + bundles_path());
    out
}

} // verus!
