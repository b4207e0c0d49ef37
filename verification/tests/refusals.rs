use lottery::{
    buy_ticket, claim_price, pick_winner, BuyTicket, ClaimPrice, Clock, CreateLottery, Identity,
    Lottery, LotteryError, Master, PickWinner, Ticket,
};

fn who(n: u8) -> Identity {
    Identity { bytes: [n; 32] }
}

fn lottery_with(tickets: u32, winner_id: Option<u32>, claimed: bool) -> Lottery {
    Lottery {
        id: 3,
        authority: who(1),
        ticket_price: 50,
        last_ticket_id: tickets,
        winner_id,
        claimed,
    }
}

fn purchase(lottery: Lottery, funds: u64) -> BuyTicket {
    BuyTicket {
        lottery,
        lottery_lamports: 1_000,
        ticket: Ticket { id: 0, authority: who(0), lottery_id: 0 },
        buyer: who(9),
        buyer_lamports: funds,
    }
}

fn claim_of(lottery: Lottery, ticket_id: u32, owner: Identity, signer: Identity) -> ClaimPrice {
    ClaimPrice {
        lottery,
        lottery_lamports: 10_000,
        ticket: Ticket { id: ticket_id, authority: owner, lottery_id: 3 },
        authority: signer,
        authority_lamports: 7,
    }
}

const NOON: Clock = Clock { slot: 250_000_001, unix_timestamp: 1_700_000_000 };

#[test]
fn identities_are_equal_when_their_bytes_are() {
    assert_eq!(who(4), who(4));
    assert_ne!(who(4), who(5));
    let mut almost = who(4);
    almost.bytes[31] = 5;
    assert_ne!(who(4), almost);
    almost.bytes[31] = 4;
    assert_eq!(who(4), almost);
    let mut first_differs = who(4);
    first_differs.bytes[0] = 0;
    assert!(who(4) != first_differs);
}

#[test]
fn purchase_after_the_draw_gives_winner_already_exists() {
    let mut ctx = purchase(lottery_with(4, Some(2), false), 50);
    assert_eq!(ctx.refusal(), Some(LotteryError::WinnerAlreadyExists));
    assert_eq!(buy_ticket(&mut ctx, 3), Err(LotteryError::WinnerAlreadyExists));
}

#[test]
fn purchase_after_the_draw_is_refused_before_the_funds_are_looked_at() {
    let mut ctx = purchase(lottery_with(4, Some(2), true), 0);
    assert_eq!(buy_ticket(&mut ctx, 3), Err(LotteryError::WinnerAlreadyExists));
}

#[test]
fn purchase_without_the_price_gives_insufficient_funds() {
    let mut ctx = purchase(lottery_with(4, None, false), 49);
    let before = ctx;
    assert_eq!(ctx.refusal(), Some(LotteryError::InsufficientFunds));
    assert_eq!(buy_ticket(&mut ctx, 3), Err(LotteryError::InsufficientFunds));
    assert_eq!(ctx, before);
}

#[test]
fn purchase_with_exactly_the_price_is_accepted() {
    let mut ctx = purchase(lottery_with(4, None, false), 50);
    assert_eq!(buy_ticket(&mut ctx, 3), Ok(4));
    assert_eq!(ctx.buyer_lamports, 0);
    assert_eq!(ctx.lottery_lamports, 1_050);
}

#[test]
fn purchase_limits_are_the_count_and_the_balance() {
    assert!(purchase(lottery_with(u32::MAX - 1, None, false), 50).is_within_limits());
    assert!(!purchase(lottery_with(u32::MAX, None, false), 50).is_within_limits());
    assert!(purchase(lottery_with(u32::MAX, None, false), 49).is_within_limits());
    assert!(purchase(lottery_with(u32::MAX, Some(0), false), 50).is_within_limits());
    let mut rich = purchase(lottery_with(4, None, false), 50);
    rich.lottery_lamports = u64::MAX - 50;
    assert!(rich.is_within_limits());
    rich.lottery_lamports = u64::MAX - 49;
    assert!(!rich.is_within_limits());
}

#[test]
fn last_ticket_that_the_count_can_hold_is_sold() {
    let mut ctx = purchase(lottery_with(u32::MAX - 1, None, false), 50);
    assert_eq!(buy_ticket(&mut ctx, 3), Ok(u32::MAX - 1));
    assert_eq!(ctx.lottery.last_ticket_id, u32::MAX);
}

#[test]
fn draw_by_a_stranger_gives_unauthorized() {
    let lotteries = [
        lottery_with(4, None, false),
        lottery_with(0, None, false),
        lottery_with(4, Some(1), false),
    ];
    for lottery in lotteries {
        let mut ctx = PickWinner { lottery, authority: who(2) };
        assert_eq!(ctx.refusal(), Some(LotteryError::Unauthorized));
        assert_eq!(pick_winner(&mut ctx, 3, &NOON), Err(LotteryError::Unauthorized));
        assert_eq!(ctx.lottery, lottery);
    }
}

#[test]
fn draw_after_the_draw_gives_winner_already_exists() {
    let lotteries = [
        lottery_with(4, Some(0), false),
        lottery_with(4, Some(3), true),
        lottery_with(0, Some(0), false),
    ];
    for lottery in lotteries {
        let mut ctx = PickWinner { lottery, authority: who(1) };
        assert_eq!(pick_winner(&mut ctx, 3, &NOON), Err(LotteryError::WinnerAlreadyExists));
        assert_eq!(ctx.lottery, lottery);
    }
}

#[test]
fn draw_before_any_sale_gives_no_tickets() {
    let lottery = lottery_with(0, None, false);
    let mut ctx = PickWinner { lottery, authority: who(1) };
    assert_eq!(ctx.refusal(), Some(LotteryError::NoTickets));
    assert_eq!(pick_winner(&mut ctx, 3, &NOON), Err(LotteryError::NoTickets));
    assert_eq!(ctx.lottery, lottery);
}

#[test]
fn draw_with_one_ticket_picks_it() {
    let mut ctx = PickWinner { lottery: lottery_with(1, None, false), authority: who(1) };
    assert_eq!(ctx.refusal(), None);
    assert_eq!(pick_winner(&mut ctx, 3, &NOON), Ok(0));
    assert_eq!(ctx.lottery.winner_id, Some(0));
}

#[test]
fn claim_after_the_payout_gives_already_claimed() {
    let claimed = lottery_with(4, Some(2), true);
    let claims = [(2, who(5), who(5)), (1, who(5), who(5)), (2, who(5), who(6))];
    for (ticket_id, owner, signer) in claims {
        let mut ctx = claim_of(claimed, ticket_id, owner, signer);
        let before = ctx;
        assert_eq!(claim_price(&mut ctx, 3, ticket_id), Err(LotteryError::AlreadyClaimed));
        assert_eq!(ctx, before);
    }
}

#[test]
fn claim_before_the_draw_gives_winner_not_chosen() {
    for tickets in [0u32, 4] {
        let mut ctx = claim_of(lottery_with(tickets, None, false), 2, who(5), who(5));
        let before = ctx;
        assert_eq!(ctx.refusal(), Some(LotteryError::WinnerNotChosen));
        assert_eq!(claim_price(&mut ctx, 3, 2), Err(LotteryError::WinnerNotChosen));
        assert_eq!(ctx, before);
    }
}

#[test]
fn claim_with_another_ticket_gives_invalid_winner() {
    for (ticket_id, signer) in [(0u32, who(5)), (1, who(5)), (3, who(5)), (3, who(6))] {
        let mut ctx = claim_of(lottery_with(4, Some(2), false), ticket_id, who(5), signer);
        let before = ctx;
        assert_eq!(claim_price(&mut ctx, 3, ticket_id), Err(LotteryError::InvalidWinner));
        assert_eq!(ctx, before);
    }
}

#[test]
fn claim_by_someone_else_gives_unauthorized() {
    let mut ctx = claim_of(lottery_with(4, Some(2), false), 2, who(5), who(6));
    let before = ctx;
    assert_eq!(ctx.refusal(), Some(LotteryError::Unauthorized));
    assert_eq!(claim_price(&mut ctx, 3, 2), Err(LotteryError::Unauthorized));
    assert_eq!(ctx, before);
}

#[test]
fn claim_by_the_lottery_authority_without_the_ticket_gives_unauthorized() {
    let mut ctx = claim_of(lottery_with(4, Some(2), false), 2, who(5), who(1));
    assert_eq!(claim_price(&mut ctx, 3, 2), Err(LotteryError::Unauthorized));
}

#[test]
fn claim_limits_are_the_pot_in_the_balance_and_the_signers_balance() {
    let mut ctx = claim_of(lottery_with(4, Some(2), false), 2, who(5), who(5));
    ctx.lottery_lamports = 200;
    assert!(ctx.is_within_limits());
    ctx.lottery_lamports = 199;
    assert!(!ctx.is_within_limits());
    ctx.lottery_lamports = 200;
    ctx.authority_lamports = u64::MAX - 200;
    assert!(ctx.is_within_limits());
    ctx.authority_lamports = u64::MAX - 199;
    assert!(!ctx.is_within_limits());
    ctx.lottery.claimed = true;
    assert!(ctx.is_within_limits());
}

#[test]
fn claim_of_a_pot_beyond_u64_is_outside_the_limits() {
    let mut lottery = lottery_with(u32::MAX, Some(2), false);
    lottery.ticket_price = u64::MAX / 2;
    let mut ctx = claim_of(lottery, 2, who(5), who(5));
    ctx.lottery_lamports = u64::MAX;
    ctx.authority_lamports = 0;
    assert!(!ctx.is_within_limits());
    let refused = claim_of(lottery, 1, who(5), who(5));
    assert!(refused.is_within_limits());
}

#[test]
fn creation_takes_any_price() {
    for price in [0u64, 1, u64::MAX] {
        let mut ctx = CreateLottery {
            lottery: lottery_with(4, Some(2), true),
            master: Master { last_id: 8 },
            authority: who(3),
        };
        assert_eq!(lottery::create_lottery(&mut ctx, price), Ok(8));
        assert_eq!(ctx.lottery.ticket_price, price);
        assert_eq!(ctx.lottery.authority, who(3));
    }
}
