//! Deterministic derivation of a dice roll from the two players' secrets.

use rand::{RngCore, SeedableRng};
use rand_chacha::ChaChaRng;
use sha2::{Digest, Sha256};
use vstd::prelude::*;

verus! {

/// The `n` lowest bytes of `x`, most significant first.
pub open spec fn be_bytes(x: nat, n: nat) -> Seq<u8>
    decreases n,
{
    if n == 0 {
        Seq::empty()
    } else {
        be_bytes(x / 256, (n - 1) as nat).push((x % 256) as u8)
    }
}

/// The bytes hashed to seed the dice: both secrets, 16 bytes each, big-endian,
/// the first player's secret first.
pub open spec fn combined_secret(s1: u128, s2: u128) -> Seq<u8> {
    be_bytes(s1 as nat, 16) + be_bytes(s2 as nat, 16)
}

/// The SHA-256 digest of `data`.
pub uninterp spec fn sha256_of(data: Seq<u8>) -> Seq<u8>;

/// The first 32-bit word that a ChaCha20 generator seeded with `seed` produces.
pub uninterp spec fn chacha_first_u32(seed: Seq<u8>) -> u32;

/// A dice roll in `1..=6` from a 32-bit word.
pub open spec fn roll_of_word(w: u32) -> u8 {
    ((w % 6) + 1) as u8
}

/// The roll that the secrets `s1` and `s2` decide.
pub open spec fn derived_roll(s1: u128, s2: u128) -> u8 {
    roll_of_word(chacha_first_u32(sha256_of(combined_secret(s1, s2))))
}

/// The first player wins on a roll of 1, 2 or 3.
pub open spec fn player1_wins_on(roll: u8) -> bool {
    roll <= 3
}

/// What the two secrets decide: the roll and whether the first player wins.
#[derive(Clone, Copy, Debug, PartialEq, Eq, Structural)]
pub struct Derived {
    pub roll: u8,
    pub player1_wins: bool,
}

pub open spec fn derive_spec(s1: u128, s2: u128) -> Derived {
    Derived { roll: derived_roll(s1, s2), player1_wins: player1_wins_on(derived_roll(s1, s2)) }
}

/// Appends the `n` lowest bytes of `x` to `out`, most significant first.
fn push_be_bytes(x: u128, n: usize, out: &mut Vec<u8>)
    ensures
        final(out)@ == old(out)@ + be_bytes(x as nat, n as nat),
    decreases n,
{
    if n > 0 {
        push_be_bytes(x / 256, n - 1, out);
        out.push((x % 256) as u8);
        assert(final(out)@ =~= old(out)@ + be_bytes(x as nat, n as nat));
    } else {
        assert(final(out)@ =~= old(out)@ + be_bytes(x as nat, n as nat));
    }
}

/// Both secrets as 16 big-endian bytes each, the first player's first.
pub fn encode_secrets(s1: u128, s2: u128) -> (r: Vec<u8>)
    ensures
        r@ == combined_secret(s1, s2),
        r@.len() == 32,
{
    let mut out: Vec<u8> = Vec::new();
    push_be_bytes(s1, 16, &mut out);
    push_be_bytes(s2, 16, &mut out);
    assert(out@ =~= combined_secret(s1, s2));
    proof {
        lemma_be_bytes_len(s1 as nat, 16);
        lemma_be_bytes_len(s2 as nat, 16);
    }
    out
}

proof fn lemma_be_bytes_len(x: nat, n: nat)
    ensures
        be_bytes(x, n).len() == n,
    decreases n,
{
    if n > 0 {
        lemma_be_bytes_len(x / 256, (n - 1) as nat);
    }
}

/// Relies on `sha2::Sha256::digest`: the 32-byte SHA-256 digest of `data`.
#[verifier::external_body]
fn sha256(data: &Vec<u8>) -> (r: [u8; 32])
    ensures
        r@ == sha256_of(data@),
        r@.len() == 32,
{
    Sha256::digest(data.as_slice()).into()
}

/// Relies on `rand_chacha::ChaChaRng::from_seed` and `RngCore::next_u32`: the
/// first word of a ChaCha20 stream seeded with `seed`.
#[verifier::external_body]
fn chacha_first_word(seed: [u8; 32]) -> (r: u32)
    ensures
        r == chacha_first_u32(seed@),
{
    ChaChaRng::from_seed(seed).next_u32()
}

/// A dice roll from a pseudorandom word: the word modulo 6, plus one.
pub fn roll_from_word(w: u32) -> (r: u8)
    ensures
        r == roll_of_word(w),
        1 <= r <= 6,
{
    ((w % 6) + 1) as u8
}

/// Derives the roll and the winner from the two players' secrets: the digest
/// of both secrets seeds a ChaCha20 generator, whose first word gives the roll.
pub fn derive_outcome(s1: u128, s2: u128) -> (r: Derived)
    ensures
        r == derive_spec(s1, s2),
        1 <= r.roll <= 6,
        r.player1_wins <==> r.roll <= 3,
{
    let bytes = encode_secrets(s1, s2);
    let seed = sha256(&bytes);
    let word = chacha_first_word(seed);
    let roll = roll_from_word(word);
    Derived { roll, player1_wins: roll <= 3 }
}

/// Every pair of secrets gives a roll between 1 and 6, and the first player
/// wins exactly on 1, 2 or 3.
pub proof fn lemma_derived_roll_in_range(s1: u128, s2: u128)
    ensures
        1 <= derive_spec(s1, s2).roll <= 6,
        derive_spec(s1, s2).player1_wins <==> derive_spec(s1, s2).roll <= 3,
{
}

/// Derivation is a function of the secrets alone: any two results of
/// `derive_outcome` on the same secrets are equal.
pub proof fn lemma_derive_deterministic(s1: u128, s2: u128, a: Derived, b: Derived)
    requires
        a == derive_spec(s1, s2),
        b == derive_spec(s1, s2),
    ensures
        a == b,
{
}

} // verus!
