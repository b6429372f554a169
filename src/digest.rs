//! The cache key: little-endian timestamps, hashed and hex-encoded.

use vstd::prelude::*;
use sha2::Digest;

verus! {

/// What the SHA-256 digest of `data` is.
pub uninterp spec fn sha256_of(data: Seq<u8>) -> Seq<u8>;

/// Relies on `sha2::Sha256::digest`: the 32-byte SHA-256 digest of `data`.
#[verifier::external_body]
fn sha256(data: &Vec<u8>) -> (r: Vec<u8>)
    ensures
        r@ == sha256_of(data@),
        r@.len() == 32,
{
    sha2::Sha256::digest(data.as_slice()).to_vec()
}

/// The lowercase hex digit of `n`, below sixteen.
pub open spec fn hex_digit(n: u8) -> char {
    seq!['0', '1', '2', '3', '4', '5', '6', '7', '8', '9', 'a', 'b', 'c', 'd', 'e', 'f'][n as int]
}

/// Lowercase hex of `b`: two digits per byte, the high one first.
pub open spec fn hex_of(b: Seq<u8>) -> Seq<char>
    decreases b.len(),
{
    if b.len() == 0 {
        seq![]
    } else {
        seq![hex_digit(b[0] / 16), hex_digit(b[0] % 16)] + hex_of(b.drop_first())
    }
}

/// Relies on `hex::encode`: two lowercase digits for each byte, in order.
#[verifier::external_body]
fn hex_encode(b: &Vec<u8>) -> (r: String)
    ensures
        r@ == hex_of(b@),
{
    hex::encode(b)
}

/// `256` to the power `n`.
pub open spec fn pow256(n: nat) -> nat
    decreases n,
{
    if n == 0 {
        1
    } else {
        256 * pow256((n - 1) as nat)
    }
}

/// The `n` low bytes of `x`, least significant first.
pub open spec fn le_digits(x: nat, n: nat) -> Seq<u8>
    decreases n,
{
    if n == 0 {
        seq![]
    } else {
        seq![(x % 256) as u8] + le_digits(x / 256, (n - 1) as nat)
    }
}

/// The eight little-endian bytes of `x`.
pub open spec fn le_bytes(x: u64) -> Seq<u8> {
    le_digits(x as nat, 8)
}

/// What is hashed for a key: the primary file's time, then the lock file's
/// time if the lock file exists.
pub open spec fn key_material(primary_mtime: u64, lock_mtime: Option<u64>) -> Seq<u8> {
    match lock_mtime {
        None => le_bytes(primary_mtime),
        Some(l) => le_bytes(primary_mtime) + le_bytes(l),
    }
}

/// The cache key of definition files with these modification times (seconds
/// since the epoch).
pub open spec fn cache_key_of(primary_mtime: u64, lock_mtime: Option<u64>) -> Seq<char> {
    hex_of(sha256_of(key_material(primary_mtime, lock_mtime)))
}

/// Appends the eight little-endian bytes of `x` to `out`.
pub fn push_le_bytes(out: &mut Vec<u8>, x: u64)
    ensures
        final(out)@ == old(out)@ + le_bytes(x),
{
    let mut y: u64 = x;
    let mut i: usize = 0;
    while i < 8
        invariant
            i <= 8,
            out@ + le_digits(y as nat, (8 - i) as nat) == old(out)@ + le_bytes(x),
        decreases 8 - i,
    {
        let ghost before = out@;
        out.push((y % 256) as u8);
        assert(le_digits(y as nat, (8 - i) as nat) == seq![(y % 256) as u8] + le_digits(
            (y / 256) as nat,
            (8 - i - 1) as nat,
        ));
        assert(out@ + le_digits((y / 256) as nat, (8 - i - 1) as nat) == before + le_digits(
            y as nat,
            (8 - i) as nat,
        ));
        y = y / 256;
        i = i + 1;
    }
    assert(le_digits(y as nat, 0) == Seq::<u8>::empty());
    assert(out@ + Seq::<u8>::empty() == out@);
}

/// The bytes hashed for a key.
pub fn cache_key_material(primary_mtime: u64, lock_mtime: Option<u64>) -> (r: Vec<u8>)
    ensures
        r@ == key_material(primary_mtime, lock_mtime),
{
    let mut out: Vec<u8> = Vec::new();
    push_le_bytes(&mut out, primary_mtime);
    match lock_mtime {
        None => {},
        Some(l) => push_le_bytes(&mut out, l),
    }
    assert(Seq::<u8>::empty() + le_bytes(primary_mtime) == le_bytes(primary_mtime));
    out
}

/// The cache key for these modification times: the hex of the SHA-256 of
/// [`cache_key_material`].
pub fn cache_key_from_mtimes(primary_mtime: u64, lock_mtime: Option<u64>) -> (r: String)
    ensures
        r@ == cache_key_of(primary_mtime, lock_mtime),
        r@.len() == 64,
{
    let material = cache_key_material(primary_mtime, lock_mtime);
    let digest = sha256(&material);
    proof {
        lemma_hex_len(digest@);
    }
    hex_encode(&digest)
}

/// Two numbers below `256^n` with the same `n` low bytes are equal.
pub proof fn lemma_le_digits_injective(x: nat, y: nat, n: nat)
    requires
        x < pow256(n),
        y < pow256(n),
        le_digits(x, n) == le_digits(y, n),
    ensures
        x == y,
    decreases n,
{
    if n > 0 {
        let m = (n - 1) as nat;
        let p = pow256(m);
        assert(le_digits(x, n) == seq![(x % 256) as u8] + le_digits(x / 256, m));
        assert(le_digits(y, n) == seq![(y % 256) as u8] + le_digits(y / 256, m));
        assert(le_digits(x, n)[0] == (x % 256) as u8);
        assert(le_digits(y, n)[0] == (y % 256) as u8);
        assert(le_digits(x / 256, m) == le_digits(x, n).drop_first());
        assert(le_digits(y / 256, m) == le_digits(y, n).drop_first());
        assert(x / 256 < p) by (nonlinear_arith)
            requires
                x < 256 * p,
        ;
        assert(y / 256 < p) by (nonlinear_arith)
            requires
                y < 256 * p,
        ;
        lemma_le_digits_injective(x / 256, y / 256, m);
        assert(((x % 256) as u8) == ((y % 256) as u8));
        assert(x % 256 == y % 256);
        assert(x == 256 * (x / 256) + x % 256);
        assert(y == 256 * (y / 256) + y % 256);
    }
}

/// `le_digits` yields `n` bytes.
pub proof fn lemma_le_digits_len(x: nat, n: nat)
    ensures
        le_digits(x, n).len() == n,
    decreases n,
{
    if n > 0 {
        lemma_le_digits_len(x / 256, (n - 1) as nat);
    }
}

/// Every `u64` is below `256^8`.
pub proof fn lemma_u64_below_pow256(x: u64)
    ensures
        (x as nat) < pow256(8),
{
    reveal_with_fuel(pow256, 9);
    assert(pow256(8) == 0x1_0000_0000_0000_0000nat);
}

/// Distinct `u64` values have distinct little-endian bytes.
pub proof fn lemma_le_bytes_injective(x: u64, y: u64)
    requires
        x != y,
    ensures
        le_bytes(x) != le_bytes(y),
{
    lemma_u64_below_pow256(x);
    lemma_u64_below_pow256(y);
    if le_bytes(x) == le_bytes(y) {
        lemma_le_digits_injective(x as nat, y as nat, 8);
    }
}

/// Hex encoding loses nothing: equal encodings come from equal bytes.
pub proof fn lemma_hex_injective(a: Seq<u8>, b: Seq<u8>)
    requires
        hex_of(a) == hex_of(b),
    ensures
        a == b,
    decreases a.len(),
{
    lemma_hex_len(a);
    lemma_hex_len(b);
    if a.len() > 0 {
        let ha = hex_of(a);
        let hb = hex_of(b);
        assert(ha[0] == hb[0] && ha[1] == hb[1]);
        assert(hex_digit(a[0] / 16) == hex_digit(b[0] / 16));
        assert(hex_digit(a[0] % 16) == hex_digit(b[0] % 16));
        assert(a[0] / 16 == b[0] / 16);
        assert(a[0] % 16 == b[0] % 16);
        assert(a[0] == b[0]);
        assert(hex_of(a.drop_first()) == ha.subrange(2, ha.len() as int));
        assert(hex_of(b.drop_first()) == hb.subrange(2, hb.len() as int));
        lemma_hex_injective(a.drop_first(), b.drop_first());
        assert(a == seq![a[0]] + a.drop_first());
        assert(b == seq![b[0]] + b.drop_first());
    }
}

/// Hex has two characters per byte.
pub proof fn lemma_hex_len(b: Seq<u8>)
    ensures
        hex_of(b).len() == 2 * b.len(),
    decreases b.len(),
{
    if b.len() > 0 {
        lemma_hex_len(b.drop_first());
    }
}

/// The key depends on the modification times alone: the same times give the
/// same key, whichever descriptor asks.
pub proof fn lemma_cache_key_stable(p1: u64, l1: Option<u64>, p2: u64, l2: Option<u64>)
    requires
        p1 == p2,
        l1 == l2,
    ensures
        cache_key_of(p1, l1) == cache_key_of(p2, l2),
{
}

/// When only the primary file's time differs, the hashed bytes differ, so two
/// such keys are equal only where SHA-256 maps two distinct inputs to one digest.
pub proof fn lemma_cache_key_tracks_primary_mtime(p1: u64, p2: u64, lock: Option<u64>)
    requires
        p1 != p2,
    ensures
        key_material(p1, lock) != key_material(p2, lock),
        cache_key_of(p1, lock) == cache_key_of(p2, lock) ==> sha256_of(key_material(p1, lock))
            == sha256_of(key_material(p2, lock)),
{
    lemma_le_bytes_injective(p1, p2);
    lemma_le_digits_len(p1 as nat, 8);
    lemma_le_digits_len(p2 as nat, 8);
    let m1 = key_material(p1, lock);
    let m2 = key_material(p2, lock);
    assert(m1.subrange(0, 8) =~= le_bytes(p1));
    assert(m2.subrange(0, 8) =~= le_bytes(p2));
    if cache_key_of(p1, lock) == cache_key_of(p2, lock) {
        lemma_hex_injective(sha256_of(m1), sha256_of(m2));
    }
}

/// Where SHA-256 keeps the two hashed inputs apart (they always differ, by
/// [`lemma_cache_key_tracks_primary_mtime`]), a change of the primary file's
/// time changes the key.
pub proof fn lemma_cache_key_changes_with_primary_mtime(p1: u64, p2: u64, lock: Option<u64>)
    requires
        p1 != p2,
        sha256_of(key_material(p1, lock)) != sha256_of(key_material(p2, lock)),
    ensures
        cache_key_of(p1, lock) != cache_key_of(p2, lock),
{
    if cache_key_of(p1, lock) == cache_key_of(p2, lock) {
        lemma_hex_injective(sha256_of(key_material(p1, lock)), sha256_of(key_material(p2, lock)));
    }
}

} // verus!
