//! Credential hashing: derives argon2id verification strings and checks
//! candidate passwords against stored ones.
//!
//! The hashing primitive produces a fixed 128-byte buffer holding a
//! zero-terminated ASCII verification string. Databases with text columns
//! cannot hold the padding, so the zero bytes are stripped here, at the
//! boundary, before a hash is handed out for storage; `verify` restores the
//! fixed-width buffer before checking. A stored hash longer than the native
//! width can never have come from `hash` and is rejected outright.

use rand::RngCore;
use sodiumoxide::crypto::pwhash::argon2id13;
use vstd::prelude::*;

verus! {

/// Width in bytes of the native argon2id verification-string buffer.
pub const HASH_WIDTH: usize = 128;

/// Whether the stored verification string `stored` (at its native width)
/// matches `password`. This is what `sodiumoxide`'s `pwhash_verify`
/// computes; it depends on its two arguments alone.
pub uninterp spec fn pwhash_matches(stored: Seq<u8>, password: Seq<u8>) -> bool;

/// `h` consists of `n` non-zero bytes followed by zeros.
pub open spec fn text_then_zeros(h: Seq<u8>, n: int) -> bool {
    &&& 0 <= n <= h.len()
    &&& forall|i: int| 0 <= i < n ==> h[i] != 0
    &&& forall|i: int| n <= i < h.len() ==> h[i] == 0
}

/// Index of the first zero byte of `h`, or its length if none occurs.
pub open spec fn first_zero(h: Seq<u8>) -> int
    decreases h.len(),
{
    if h.len() == 0 {
        0
    } else if h[0] == 0 {
        0
    } else {
        1 + first_zero(h.drop_first())
    }
}

/// `s` extended with zero bytes to the native buffer width.
pub open spec fn pad_to_width(s: Seq<u8>) -> Seq<u8> {
    s + Seq::new((HASH_WIDTH - s.len()) as nat, |i: int| 0u8)
}

/// What a successful `hash` of `password` promises of its result `h`:
/// a zero-free string that, restored to the native width, matches
/// `password` and no other password.
pub open spec fn is_hash_of(h: Seq<u8>, password: Seq<u8>) -> bool {
    &&& 0 < h.len() < HASH_WIDTH
    &&& forall|i: int| 0 <= i < h.len() ==> h[i] != 0
    &&& pwhash_matches(pad_to_width(h), password)
    &&& forall|p2: Seq<u8>| p2 != password ==> !pwhash_matches(pad_to_width(h), p2)
}

/// What `verify` returns for a stored hash `stored` and candidate `p`.
pub open spec fn spec_verify(stored: Seq<u8>, p: Seq<u8>) -> bool {
    stored.len() <= HASH_WIDTH && pwhash_matches(pad_to_width(stored), p)
}

/// Relies on `sodiumoxide::init`: readies the library; after a successful
/// call every function used here is safe to call from any thread.
#[verifier::external_body]
fn sodium_init() -> (r: bool) {
    sodiumoxide::init().is_ok()
}

/// Relies on `sodiumoxide::crypto::pwhash::argon2id13::pwhash` with the
/// interactive cost parameters: on success it fills a 128-byte buffer with
/// a zero-terminated ASCII verification string (a non-empty zero-free
/// prefix, zeros after it) that `pwhash_verify` accepts for `password`
/// and, being salted and collision-resistant, for no other password.
#[verifier::external_body]
fn pwhash_interactive(password: &Vec<u8>) -> (r: Option<Vec<u8>>)
    ensures
        match r {
            Some(raw) => {
                &&& raw@.len() == HASH_WIDTH
                &&& exists|n: int| 0 < n < HASH_WIDTH && text_then_zeros(raw@, n)
                &&& pwhash_matches(raw@, password@)
                &&& forall|p2: Seq<u8>| p2 != password@ ==> !pwhash_matches(raw@, p2)
            },
            None => true,
        },
{
    match argon2id13::pwhash(
        password.as_slice(),
        argon2id13::OPSLIMIT_INTERACTIVE,
        argon2id13::MEMLIMIT_INTERACTIVE,
    ) {
        Ok(hp) => Some(hp.0.to_vec()),
        Err(()) => None,
    }
}

/// Relies on `sodiumoxide::crypto::pwhash::argon2id13::pwhash_verify`
/// (with `HashedPassword::from_slice` converting the argument, which
/// always succeeds on a 128-byte slice): returns whether the buffer is a
/// verification string for `password`; the result depends on the two
/// arguments alone.
#[verifier::external_body]
fn pwhash_verify_width(stored: &Vec<u8>, password: &Vec<u8>) -> (r: bool)
    requires
        stored@.len() == HASH_WIDTH,
    ensures
        r == pwhash_matches(stored@, password@),
{
    match argon2id13::HashedPassword::from_slice(stored.as_slice()) {
        Some(hp) => argon2id13::pwhash_verify(&hp, password.as_slice()),
        None => false,
    }
}

/// The non-zero prefix of a text-then-zeros buffer ends exactly at its
/// first zero byte.
proof fn lemma_first_zero_of_padded(h: Seq<u8>, n: int)
    requires
        text_then_zeros(h, n),
        n < h.len(),
    ensures
        first_zero(h) == n,
    decreases h.len(),
{
    if h.len() > 0 && h[0] != 0 {
        lemma_first_zero_of_padded(h.drop_first(), n - 1);
    }
}

/// Copy of `v` up to (excluding) its first zero byte.
fn take_until_zero(v: &Vec<u8>) -> (r: Vec<u8>)
    ensures
        r@ == v@.take(first_zero(v@)),
        0 <= first_zero(v@) <= v@.len(),
{
    proof {
        lemma_first_zero_bounds(v@);
    }
    let mut r: Vec<u8> = Vec::new();
    let mut i: usize = 0;
    while i < v.len() && v[i] != 0
        invariant
            0 <= i <= v@.len(),
            r@ == v@.take(i as int),
            forall|j: int| 0 <= j < i ==> v@[j] != 0,
        decreases v@.len() - i,
    {
        r.push(v[i]);
        proof {
            assert(v@.take(i + 1) =~= v@.take(i as int).push(v@[i as int]));
        }
        i += 1;
    }
    proof {
        lemma_first_zero_at(v@, i as int);
    }
    r
}

/// `first_zero` stays within the sequence.
proof fn lemma_first_zero_bounds(h: Seq<u8>)
    ensures
        0 <= first_zero(h) <= h.len(),
    decreases h.len(),
{
    if h.len() > 0 && h[0] != 0 {
        lemma_first_zero_bounds(h.drop_first());
    }
}

/// A position with no zero before it and a zero at it (or the end)
/// is the first zero.
proof fn lemma_first_zero_at(h: Seq<u8>, n: int)
    requires
        0 <= n <= h.len(),
        forall|j: int| 0 <= j < n ==> h[j] != 0,
        n < h.len() ==> h[n] == 0,
    ensures
        first_zero(h) == n,
    decreases h.len(),
{
    if h.len() > 0 && h[0] != 0 {
        lemma_first_zero_at(h.drop_first(), n - 1);
    }
}

/// Derive a verification string for `password` and strip its zero
/// padding, ready for a text column. `None` when the hashing library
/// could not initialize or refused the computation (for example when the
/// operating system denied it memory).
pub fn hash(password: &Vec<u8>) -> (r: Option<Vec<u8>>)
    ensures
        match r {
            Some(h) => is_hash_of(h@, password@),
            None => true,
        },
{
    if !sodium_init() {
        return None;
    }
    let raw = match pwhash_interactive(password) {
        Some(raw) => raw,
        None => {
            return None;
        },
    };
    let ghost n = choose|n: int| 0 < n < HASH_WIDTH && text_then_zeros(raw@, n);
    proof {
        lemma_first_zero_of_padded(raw@, n);
    }
    let trimmed = take_until_zero(&raw);
    proof {
        assert(trimmed@ =~= raw@.take(n));
        assert(pad_to_width(trimmed@) =~= raw@);
    }
    Some(trimmed)
}

/// Check `password` against a stored, stripped hash. The stored hash is
/// restored to the native width by zero padding; one longer than that
/// width cannot have come from `hash` and is rejected without a library
/// call.
pub fn verify(stored: &Vec<u8>, password: &Vec<u8>) -> (r: bool)
    ensures
        r == spec_verify(stored@, password@),
{
    if stored.len() > HASH_WIDTH {
        return false;
    }
    let mut padded: Vec<u8> = Vec::new();
    let mut i: usize = 0;
    while i < stored.len()
        invariant
            0 <= i <= stored@.len(),
            padded@ == stored@.take(i as int),
        decreases stored@.len() - i,
    {
        padded.push(stored[i]);
        proof {
            assert(stored@.take(i + 1) =~= stored@.take(i as int).push(stored@[i as int]));
        }
        i += 1;
    }
    assert(padded@ =~= stored@);
    while padded.len() < HASH_WIDTH
        invariant
            padded@.len() <= HASH_WIDTH,
            stored@.len() <= padded@.len(),
            padded@ == pad_to_width(stored@).take(padded@.len() as int),
        decreases HASH_WIDTH - padded@.len(),
    {
        proof {
            assert(pad_to_width(stored@).take(padded@.len() as int + 1) =~= pad_to_width(
                stored@,
            ).take(padded@.len() as int).push(pad_to_width(stored@)[padded@.len() as int]));
        }
        padded.push(0u8);
    }
    proof {
        assert(padded@ =~= pad_to_width(stored@));
    }
    pwhash_verify_width(&padded, password)
}

/// Relies on `rand`'s thread-local generator (`thread_rng` /
/// `fill_bytes`): a fresh random 32-byte key, drawn once at startup to
/// sign sessions. Nothing can be promised of a random draw.
#[verifier::external_body]
pub fn random_redis_key() -> [u8; 32] {
    let mut key: [u8; 32] = [0u8; 32];
    rand::thread_rng().fill_bytes(&mut key);
    key
}

/// Law: a password verifies against its own stored hash, and no other
/// password does.
pub proof fn lemma_verify_of_hash(h: Seq<u8>, p: Seq<u8>, p2: Seq<u8>)
    requires
        is_hash_of(h, p),
    ensures
        spec_verify(h, p),
        p2 != p ==> !spec_verify(h, p2),
{
}

} // verus!
