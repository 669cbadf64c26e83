use vstd::prelude::*;

use solana_program::pubkey::Pubkey;

verus! {

/// The program derived address and bump that `program_id` gets for `seeds`, `None`
/// where no bump gives an address off the curve or the seeds exceed the limits.
pub uninterp spec fn program_address_of(seeds: Seq<Seq<u8>>, program_id: Seq<u8>) -> Option<
    (Seq<u8>, u8),
>;

/// The view of a found address and its bump.
pub open spec fn found_view(r: Option<([u8; 32], u8)>) -> Option<(Seq<u8>, u8)> {
    match r {
        Some((a, b)) => Some((a@, b)),
        None => None,
    }
}

/// Relies on solana_program's `Pubkey::try_find_program_address`: a function of the
/// seeds and the program id alone, which never panics.
#[verifier::external_body]
pub(crate) fn try_find_program_address(seeds: &Vec<Vec<u8>>, program_id: &[u8; 32]) -> (r: Option<
    ([u8; 32], u8),
>)
    ensures
        found_view(r) == program_address_of(seeds.deep_view(), program_id@),
{
    let refs: Vec<&[u8]> = seeds.iter().map(|s| s.as_slice()).collect();
    Pubkey::try_find_program_address(&refs, &Pubkey::new_from_array(*program_id)).map(
        |(k, b)| (k.to_bytes(), b),
    )
}

/// Byte-wise equality of two addresses.
pub fn keys_eq(a: &[u8; 32], b: &[u8; 32]) -> (r: bool)
    ensures
        r == (a@ == b@),
{
    let mut i: usize = 0;
    while i < 32
        invariant
            0 <= i <= 32,
            a@.len() == 32,
            b@.len() == 32,
            forall|j: int| 0 <= j < i ==> a@[j] == b@[j],
        decreases 32 - i,
    {
        if a[i] != b[i] {
            assert(a@[i as int] != b@[i as int]);
            return false;
        }
        i = i + 1;
    }
    assert(a@ =~= b@);
    true
}

/// 256 to the power `k`.
pub open spec fn pow256(k: nat) -> nat
    decreases k,
{
    if k == 0 {
        1
    } else {
        256 * pow256((k - 1) as nat)
    }
}

/// The last `n` base-256 digits of `x`, most significant first.
pub open spec fn be_bytes_spec(x: nat, n: nat) -> Seq<u8> {
    Seq::new(n, |j: int| ((x / pow256((n - 1 - j) as nat)) % 256) as u8)
}

/// `x` as `n` bytes, most significant first.
pub fn be_bytes(x: u64, n: usize) -> (r: Vec<u8>)
    requires
        1 <= n <= 8,
    ensures
        r@ == be_bytes_spec(x as nat, n as nat),
{
    proof {
        reveal_with_fuel(pow256, 8);
    }
    assert(pow256(7) == 72057594037927936);
    let mut d: u64 = 1;
    let mut k: usize = 1;
    while k < n
        invariant
            1 <= k <= n <= 8,
            d as nat == pow256((k - 1) as nat),
            pow256(7) == 72057594037927936,
        decreases n - k,
    {
        assert(pow256(k as nat) == 256 * pow256((k - 1) as nat));
        assert(d <= 281474976710656u64) by {
            lemma_pow256_monotone((k - 1) as nat, 6);
        }
        d = d * 256;
        k = k + 1;
    }
    let mut r: Vec<u8> = Vec::new();
    let mut i: usize = 0;
    while i < n
        invariant
            0 <= i <= n <= 8,
            i < n ==> d as nat == pow256((n - 1 - i) as nat),
            r@ =~= be_bytes_spec(x as nat, n as nat).subrange(0, i as int),
        decreases n - i,
    {
        proof {
            lemma_pow256_monotone(0, (n - 1 - i) as nat);
        }
        r.push(((x / d) % 256) as u8);
        proof {
            if i + 1 < n {
                assert(pow256((n - 1 - i) as nat) == 256 * pow256((n - 2 - i) as nat));
            }
        }
        if i + 1 < n {
            d = d / 256;
        }
        i = i + 1;
        assert(r@ =~= be_bytes_spec(x as nat, n as nat).subrange(0, i as int));
    }
    r
}

proof fn lemma_pow256_monotone(a: nat, b: nat)
    requires
        a <= b,
    ensures
        pow256(a) <= pow256(b),
        pow256(a) >= 1,
    decreases b,
{
    if b > a {
        lemma_pow256_monotone(a, (b - 1) as nat);
    } else if a > 0 {
        lemma_pow256_monotone((a - 1) as nat, (a - 1) as nat);
    }
}

/// A copy of `s` as a vector.
pub fn bytes_to_vec(s: &[u8]) -> (r: Vec<u8>)
    ensures
        r@ == s@,
{
    let mut r: Vec<u8> = Vec::new();
    let mut i: usize = 0;
    while i < s.len()
        invariant
            0 <= i <= s@.len(),
            r@ == s@.subrange(0, i as int),
        decreases s@.len() - i,
    {
        r.push(s[i]);
        i = i + 1;
        assert(r@ =~= s@.subrange(0, i as int));
    }
    assert(s@.subrange(0, s@.len() as int) =~= s@);
    r
}

/// The seed list that holds `s` alone.
pub fn single_seed(s: &[u8]) -> (r: Vec<Vec<u8>>)
    ensures
        r.deep_view() == seq![s@],
{
    let seed = bytes_to_vec(s);
    let mut seeds: Vec<Vec<u8>> = Vec::new();
    seeds.push(seed);
    assert(seed.deep_view() =~= s@);
    assert(seeds.deep_view() =~= seq![s@]);
    seeds
}

} // verus!
