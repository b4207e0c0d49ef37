use anchor_lang::solana_program::hash::hash;
use lottery::draw::{timestamp_bytes, winning_ticket};
use lottery::{pick_winner, Clock, Identity, Lottery, PickWinner};

const DIGEST_OF_1_700_000_000: [u8; 32] = [
    173, 188, 193, 145, 140, 158, 152, 157, 240, 103, 3, 117, 215, 250, 22, 149, 111, 27, 233, 198,
    168, 130, 41, 66, 221, 20, 111, 89, 244, 254, 34, 222,
];

fn drawn(unix_timestamp: i64, slot: u64, tickets: u32) -> u32 {
    let authority = Identity { bytes: [1; 32] };
    let lottery = Lottery {
        id: 6,
        authority,
        ticket_price: 1,
        last_ticket_id: tickets,
        winner_id: None,
        claimed: false,
    };
    let mut ctx = PickWinner { lottery, authority };
    let winner = pick_winner(&mut ctx, 6, &Clock { slot, unix_timestamp }).unwrap();
    assert_eq!(ctx.lottery, Lottery { winner_id: Some(winner), ..lottery });
    winner
}

#[test]
fn timestamp_bytes_are_most_significant_first() {
    assert_eq!(timestamp_bytes(1_700_000_000), [0, 0, 0, 0, 0x65, 0x53, 0xf1, 0x00]);
    assert_eq!(timestamp_bytes(0x0102_0304_0506_0708), [1, 2, 3, 4, 5, 6, 7, 8]);
    assert_eq!(timestamp_bytes(0), [0; 8]);
    assert_eq!(timestamp_bytes(i64::MAX), [0x7f, 0xff, 0xff, 0xff, 0xff, 0xff, 0xff, 0xff]);
}

#[test]
fn timestamp_bytes_of_negative_times_are_twos_complement() {
    assert_eq!(timestamp_bytes(-1), [0xff; 8]);
    assert_eq!(timestamp_bytes(-2), [0xff, 0xff, 0xff, 0xff, 0xff, 0xff, 0xff, 0xfe]);
    assert_eq!(timestamp_bytes(-256), [0xff, 0xff, 0xff, 0xff, 0xff, 0xff, 0xff, 0x00]);
    assert_eq!(timestamp_bytes(i64::MIN), [0x80, 0, 0, 0, 0, 0, 0, 0]);
    for t in [-1i64, -2, -256, i64::MIN, i64::MIN + 1, -1_700_000_000] {
        assert_eq!(timestamp_bytes(t), t.to_be_bytes());
    }
}

#[test]
fn winning_ticket_reads_the_prefix_least_significant_first() {
    let mut digest = [0u8; 32];
    digest[0] = 7;
    digest[1] = 1;
    assert_eq!(winning_ticket(&digest, 3, 10), 9);
    assert_eq!(winning_ticket(&digest, 1, 1_000), 263);
    digest[7] = 1;
    assert_eq!(winning_ticket(&digest, 1, 1_000), 263);
    digest[3] = 2;
    assert_eq!(winning_ticket(&digest, 1, u32::MAX), 0x0200_0107);
}

#[test]
fn winning_ticket_ignores_what_follows_the_prefix() {
    let mut digest = DIGEST_OF_1_700_000_000;
    let winner = winning_ticket(&digest, 250_000_003, 3);
    for i in 8..32 {
        digest[i] = !digest[i];
    }
    assert_eq!(winning_ticket(&digest, 250_000_003, 3), winner);
    assert_eq!(winner, 1);
}

#[test]
fn winning_ticket_reduces_modulo_two_to_the_32_then_by_the_count() {
    assert_eq!(winning_ticket(&DIGEST_OF_1_700_000_000, 3, 3), 2);
    assert_eq!(winning_ticket(&DIGEST_OF_1_700_000_000, 250_000_000, 3), 0);
    assert_eq!(winning_ticket(&DIGEST_OF_1_700_000_000, 250_000_001, 3), 2);
    assert_eq!(winning_ticket(&DIGEST_OF_1_700_000_000, 250_000_000, u32::MAX), 2_407_309_440);
}

#[test]
fn winning_ticket_takes_the_whole_product() {
    let digest = [0xffu8; 32];
    assert_eq!(winning_ticket(&digest, u64::MAX, 5), 1);
    assert_eq!(winning_ticket(&digest, u64::MAX, 1), 0);
    assert_eq!(winning_ticket(&digest, 1 << 32, 7), 0);
    assert_eq!(winning_ticket(&digest, (1 << 32) + 1, u32::MAX), 0xffff_ffff % u32::MAX);
}

#[test]
fn winning_ticket_at_slot_zero_is_ticket_zero() {
    assert_eq!(winning_ticket(&DIGEST_OF_1_700_000_000, 0, 5), 0);
    assert_eq!(drawn(1_700_000_000, 0, 5), 0);
}

#[test]
fn winning_ticket_is_one_of_the_tickets() {
    for tickets in [1u32, 2, 3, 10, 1_000, u32::MAX] {
        for slot in [0u64, 1, 2, 250_000_000, u64::MAX] {
            assert!(winning_ticket(&DIGEST_OF_1_700_000_000, slot, tickets) < tickets);
        }
    }
}

#[test]
fn pick_winner_hashes_the_time_with_sha256() {
    assert_eq!(drawn(1_700_000_000, 250_000_001, 3), 2);
    assert_eq!(drawn(1_700_000_000, 250_000_003, 3), 1);
    assert_eq!(drawn(1_700_000_000, 250_000_000, 3), 0);
    assert_eq!(drawn(-1, 7, 1_000), 590);
    assert_eq!(drawn(1_234_567_890, 987_654_321, 4_000_000_000), 1_128_392_890);
    assert_eq!(drawn(i64::MIN, u64::MAX, u32::MAX), 440_487_759);
    assert_eq!(drawn(0, 1, u32::MAX), 4_117_779_887);
}

#[test]
fn pick_winner_agrees_with_winning_ticket_on_the_digest() {
    for slot in [1u64, 2, 3, 250_000_001, 250_000_003] {
        for tickets in [1u32, 2, 3, 17] {
            assert_eq!(
                drawn(1_700_000_000, slot, tickets),
                winning_ticket(&DIGEST_OF_1_700_000_000, slot, tickets)
            );
        }
    }
}

#[test]
fn same_clock_same_winner() {
    assert_eq!(drawn(42, 43, 44), drawn(42, 43, 44));
}

#[test]
fn pick_winner_follows_the_formula_on_many_clocks() {
    let times = [0i64, 1, -1, 255, 256, 1_700_000_000, -1_700_000_000, i64::MAX, i64::MIN];
    let slots = [0u64, 1, 2, 255, 65_536, 250_000_001, 1 << 32, (1 << 32) + 1, u64::MAX];
    let counts = [1u32, 2, 3, 7, 1_000, 65_536, u32::MAX - 1, u32::MAX];
    for unix_timestamp in times {
        let digest = hash(&unix_timestamp.to_be_bytes()).to_bytes();
        let mut low = [0u8; 8];
        low.copy_from_slice(&digest[..8]);
        let number = u64::from_le_bytes(low) as u128;
        for slot in slots {
            let reduced = (number * slot as u128 % (1u128 << 32)) as u32;
            for tickets in counts {
                assert_eq!(drawn(unix_timestamp, slot, tickets), reduced % tickets);
                assert_eq!(winning_ticket(&digest, slot, tickets), reduced % tickets);
            }
        }
    }
}
