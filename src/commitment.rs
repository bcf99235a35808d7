use vstd::prelude::*;

verus! {

/// The SHA-256 digest of a byte string.
pub uninterp spec fn sha256_of(data: Seq<u8>) -> Seq<u8>;

/// Relies on anchor_lang::solana_program::hash::hashv, which feeds each slice in
/// turn into one SHA-256 hasher: the digest of the four slices concatenated.
#[verifier::external_body]
fn hash_four(a: &[u8], b: &[u8], c: &[u8], d: &[u8]) -> (r: [u8; 32])
    ensures
        r@ == sha256_of(a@ + b@ + c@ + d@),
{
    anchor_lang::solana_program::hash::hashv(&[a, b, c, d]).to_bytes()
}

/// The four bytes of `x`, least significant first.
pub open spec fn le_bytes_u32(x: u32) -> Seq<u8> {
    seq![
        (x % 256) as u8,
        ((x / 256) % 256) as u8,
        ((x / 65536) % 256) as u8,
        ((x / 16777216) % 256) as u8,
    ]
}

/// The bytes a subscription's commitment is the digest of: merchant account,
/// subscriber account, billing frequency (little-endian) and partner account.
pub open spec fn commitment_preimage(
    merchant: Seq<u8>,
    subscriber: Seq<u8>,
    frequency: u32,
    partner: Seq<u8>,
) -> Seq<u8> {
    merchant + subscriber + le_bytes_u32(frequency) + partner
}

/// The commitment binding a subscription's execution parameters.
pub open spec fn commitment_of(merchant: Seq<u8>, subscriber: Seq<u8>, frequency: u32, partner: Seq<u8>) -> Seq<u8> {
    sha256_of(commitment_preimage(merchant, subscriber, frequency, partner))
}

fn frequency_le_bytes(x: u32) -> (r: [u8; 4])
    ensures
        r@ == le_bytes_u32(x),
{
    let r = [(x % 256) as u8, ((x / 256) % 256) as u8, ((x / 65536) % 256) as u8, ((x / 16777216) % 256) as u8];
    assert(r@ =~= le_bytes_u32(x));
    r
}

/// Digest of the merchant account, subscriber account, frequency and partner
/// account, computed at creation and recomputed at every execution.
pub fn create_subscription_hash(
    merchant_token_account: &[u8; 32],
    subscriber_token_account: &[u8; 32],
    frequency: u32,
    organization_token_account: &[u8; 32],
) -> (r: [u8; 32])
    ensures
        r@ == commitment_of(merchant_token_account@, subscriber_token_account@, frequency, organization_token_account@),
{
    let freq = frequency_le_bytes(frequency);
    hash_four(merchant_token_account.as_slice(), subscriber_token_account.as_slice(), freq.as_slice(), organization_token_account.as_slice())
}

proof fn lemma_le_bytes_injective(x: u32, y: u32)
    requires
        le_bytes_u32(x) == le_bytes_u32(y),
    ensures
        x == y,
{
    let bx = le_bytes_u32(x);
    let by = le_bytes_u32(y);
    assert(bx[0] == by[0] && bx[1] == by[1] && bx[2] == by[2] && bx[3] == by[3]);
    let xi = x as int;
    let yi = y as int;
    assert(xi == xi % 256 + 256 * ((xi / 256) % 256) + 65536 * ((xi / 65536) % 256) + 16777216 * ((xi / 16777216) % 256))
        by (nonlinear_arith)
        requires 0 <= xi < 0x1_0000_0000;
    assert(yi == yi % 256 + 256 * ((yi / 256) % 256) + 65536 * ((yi / 65536) % 256) + 16777216 * ((yi / 16777216) % 256))
        by (nonlinear_arith)
        requires 0 <= yi < 0x1_0000_0000;
}

/// The preimage is fixed-width, so two parameter sets with the same preimage are
/// the same parameter set: a changed merchant, subscriber, frequency or partner
/// always changes the bytes that are hashed.
pub proof fn lemma_commitment_preimage_injective(
    m1: Seq<u8>, s1: Seq<u8>, f1: u32, p1: Seq<u8>,
    m2: Seq<u8>, s2: Seq<u8>, f2: u32, p2: Seq<u8>,
)
    requires
        m1.len() == 32, s1.len() == 32, p1.len() == 32,
        m2.len() == 32, s2.len() == 32, p2.len() == 32,
        commitment_preimage(m1, s1, f1, p1) == commitment_preimage(m2, s2, f2, p2),
    ensures
        m1 == m2, s1 == s2, f1 == f2, p1 == p2,
{
    let a = commitment_preimage(m1, s1, f1, p1);
    let b = commitment_preimage(m2, s2, f2, p2);
    assert(m1 =~= a.subrange(0, 32));
    assert(m2 =~= b.subrange(0, 32));
    assert(s1 =~= a.subrange(32, 64));
    assert(s2 =~= b.subrange(32, 64));
    assert(le_bytes_u32(f1) =~= a.subrange(64, 68));
    assert(le_bytes_u32(f2) =~= b.subrange(64, 68));
    assert(p1 =~= a.subrange(68, 100));
    assert(p2 =~= b.subrange(68, 100));
    lemma_le_bytes_injective(f1, f2);
}

} // verus!
