//! The draw: from the clock reading to the winning ordinal.
//!
//! The time is written as eight bytes, most significant first, and hashed with SHA-256. The
//! first eight bytes of the digest, read least significant first, are multiplied by the
//! slot. The product is reduced modulo 2^32 and then modulo the number of tickets.
//!
//! Whoever knows the clock reading knows the winner: the draw is reproducible by design
//! and gives no protection against a caller who picks the moment of the call.

use vstd::prelude::*;

verus! {

/// The SHA-256 digest of `data`.
pub uninterp spec fn sha256(data: Seq<u8>) -> Seq<u8>;

/// `t` as an unsigned 64-bit number in two's complement.
pub open spec fn unsigned(t: i64) -> int {
    if t >= 0 {
        t as int
    } else {
        t + 0x1_0000_0000_0000_0000
    }
}

/// The eight bytes of `t`, most significant first.
pub open spec fn be_bytes(t: i64) -> Seq<u8> {
    let u: int = unsigned(t);
    seq![
        (u / 0x100_0000_0000_0000) as u8,
        (u / 0x1_0000_0000_0000 % 0x100) as u8,
        (u / 0x100_0000_0000 % 0x100) as u8,
        (u / 0x1_0000_0000 % 0x100) as u8,
        (u / 0x100_0000 % 0x100) as u8,
        (u / 0x1_0000 % 0x100) as u8,
        (u / 0x100 % 0x100) as u8,
        (u % 0x100) as u8,
    ]
}

/// The number that the first eight bytes of `digest` spell, least significant first.
pub open spec fn prefix(digest: Seq<u8>) -> int
    recommends
        digest.len() >= 8,
{
    digest[0] + digest[1] * 0x100 + digest[2] * 0x1_0000 + digest[3] * 0x100_0000 + digest[4]
        * 0x1_0000_0000 + digest[5] * 0x100_0000_0000 + digest[6] * 0x1_0000_0000_0000
        + digest[7] * 0x100_0000_0000_0000
}

/// The winning ordinal for a digest, a slot and a number of tickets.
pub open spec fn winning_ordinal(digest: Seq<u8>, slot: u64, tickets: u32) -> int
    recommends
        digest.len() >= 8,
        tickets > 0,
{
    ((prefix(digest) * slot) % 0x1_0000_0000) % (tickets as int)
}

/// The winning ordinal at a time and a slot, among `tickets` tickets.
pub open spec fn winner_at(unix_timestamp: i64, slot: u64, tickets: u32) -> int
    recommends
        tickets > 0,
{
    winning_ordinal(sha256(be_bytes(unix_timestamp)), slot, tickets)
}

/// The winning ordinal is the ordinal of a ticket sold.
pub proof fn lemma_winner_in_range(unix_timestamp: i64, slot: u64, tickets: u32)
    requires
        tickets > 0,
    ensures
        0 <= winner_at(unix_timestamp, slot, tickets) < tickets,
{
}

/// Calls `anchor_lang::solana_program::hash::hash`, which computes SHA-256 over `data`,
/// and hands back the digest's 32 bytes. The contract claims only that the digest is a
/// function of the bytes hashed; what SHA-256 computes is not stated here.
#[verifier::external_body]
pub(crate) fn digest_of(data: &[u8]) -> (digest: [u8; 32])
    ensures
        digest@ == sha256(data@),
{
    anchor_lang::solana_program::hash::hash(data).to_bytes()
}

/// Writes a time as the eight bytes that are hashed.
pub fn timestamp_bytes(t: i64) -> (bytes: [u8; 8])
    ensures
        bytes@ == be_bytes(t),
{
    let u: u64 = if t >= 0 {
        t as u64
    } else {
        (t - i64::MIN) as u64 + 0x8000_0000_0000_0000u64
    };
    let bytes: [u8; 8] = [
        (u / 0x100_0000_0000_0000) as u8,
        (u / 0x1_0000_0000_0000 % 0x100) as u8,
        (u / 0x100_0000_0000 % 0x100) as u8,
        (u / 0x1_0000_0000 % 0x100) as u8,
        (u / 0x100_0000 % 0x100) as u8,
        (u / 0x1_0000 % 0x100) as u8,
        (u / 0x100 % 0x100) as u8,
        (u % 0x100) as u8,
    ];
    assert(bytes@ =~= be_bytes(t));
    bytes
}

/// Picks the winning ordinal from a digest, a slot and the number of tickets sold.
pub fn winning_ticket(digest: &[u8; 32], slot: u64, tickets: u32) -> (winner: u32)
    requires
        tickets > 0,
    ensures
        winner == winning_ordinal(digest@, slot, tickets),
        winner < tickets,
{
    let low: u64 = digest[0] as u64 + digest[1] as u64 * 0x100 + digest[2] as u64 * 0x1_0000
        + digest[3] as u64 * 0x100_0000 + digest[4] as u64 * 0x1_0000_0000 + digest[5] as u64
        * 0x100_0000_0000 + digest[6] as u64 * 0x1_0000_0000_0000 + digest[7] as u64
        * 0x100_0000_0000_0000;
    assert(low as u128 * slot as u128 <= 0xffff_ffff_ffff_ffff * 0xffff_ffff_ffff_ffff)
        by (nonlinear_arith)
        requires
            low <= 0xffff_ffff_ffff_ffff,
            slot <= 0xffff_ffff_ffff_ffff,
    ;
    let product: u128 = low as u128 * slot as u128;
    let reduced: u32 = (product % 0x1_0000_0000u128) as u32;
    reduced % tickets
}

} // verus!
