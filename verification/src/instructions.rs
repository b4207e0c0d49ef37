//! The five operations. Each either changes the records it is handed and says what it
//! did, or refuses and leaves every record and balance as it was.
//!
//! A call hands over the records that its arguments name (`addresses`). Where an accepted
//! call would leave the machine's integers, the call is not to be made (`within_limits`).

use vstd::prelude::*;
use crate::accounts::{BuyTicket, ClaimPrice, CreateLottery, InitMaster, PickWinner};
use crate::draw::{digest_of, timestamp_bytes, winner_at, winning_ticket};
use crate::records::{Clock, Lottery, LotteryError, Master, Ticket};

verus! {

/// Sets up the registry: the first lottery will get the number 0.
pub fn init_master(ctx: &mut InitMaster) -> (result: Result<(), LotteryError>)
    ensures
        result is Ok,
        final(ctx).master.last_id == 0,
{
    ctx.master = Master { last_id: 0 };
    Ok(())
}

/// Creates a lottery at `ticket_price`, any price, under the registry's next number, and
/// returns that number. The signer becomes the lottery's authority; the lottery has no
/// ticket, no winner and is not claimed. The registry's next number goes up by one.
pub fn create_lottery(ctx: &mut CreateLottery, ticket_price: u64) -> (result: Result<
    u32,
    LotteryError,
>)
    requires
        old(ctx).within_limits(),
    ensures
        result == Ok::<u32, LotteryError>(old(ctx).master.last_id),
        *final(ctx) == old(ctx).created(ticket_price),
        final(ctx).lottery.id == old(ctx).master.last_id,
        final(ctx).master.last_id == old(ctx).master.last_id + 1,
        final(ctx).lottery.wf(),
{
    let id: u32 = ctx.master.last_id;
    ctx.lottery = Lottery {
        id,
        authority: ctx.authority,
        ticket_price,
        last_ticket_id: 0,
        winner_id: None,
        claimed: false,
    };
    ctx.master.last_id = id + 1;
    Ok(id)
}

/// Sells the next ticket of lottery `lottery_id` to the buyer and returns its ordinal.
///
/// Refused with `WinnerAlreadyExists` once the winner is set, and otherwise with
/// `InsufficientFunds` if the buyer holds less than the price. An accepted purchase moves
/// the price from the buyer to the lottery, writes the ticket with the ordinal that the
/// count stood at, and raises the count by one: all of it, or nothing.
pub fn buy_ticket(ctx: &mut BuyTicket, lottery_id: u32) -> (result: Result<u32, LotteryError>)
    requires
        old(ctx).addresses(lottery_id),
        old(ctx).within_limits(),
    ensures
        old(ctx).rejection() matches Some(e) ==> result == Err::<u32, LotteryError>(e),
        old(ctx).rejection() is Some ==> *final(ctx) == *old(ctx),
        old(ctx).rejection() is None ==> result == Ok::<u32, LotteryError>(
            old(ctx).lottery.last_ticket_id,
        ),
        old(ctx).rejection() is None ==> *final(ctx) == old(ctx).sold(),
        old(ctx).lottery.winner_id is Some ==> result == Err::<u32, LotteryError>(
            LotteryError::WinnerAlreadyExists,
        ),
        result matches Ok(ordinal) ==> final(ctx).ticket.id == ordinal,
        result matches Ok(ordinal) ==> final(ctx).lottery.last_ticket_id == ordinal + 1,
        result is Ok ==> final(ctx).ticket.lottery_id == lottery_id,
        result is Ok ==> final(ctx).lottery_lamports == old(ctx).lottery_lamports
            + old(ctx).lottery.ticket_price,
        final(ctx).lottery_lamports + final(ctx).buyer_lamports == old(ctx).lottery_lamports
            + old(ctx).buyer_lamports,
        old(ctx).lottery.wf() ==> final(ctx).lottery.wf(),
{
    if let Some(e) = ctx.refusal() {
        return Err(e);
    }
    let price: u64 = ctx.lottery.ticket_price;
    let ordinal: u32 = ctx.lottery.last_ticket_id;
    ctx.buyer_lamports = ctx.buyer_lamports - price;
    ctx.lottery_lamports = ctx.lottery_lamports + price;
    ctx.ticket = Ticket { id: ordinal, authority: ctx.buyer, lottery_id };
    ctx.lottery.last_ticket_id = ordinal + 1;
    Ok(ordinal)
}

/// Draws the winner of lottery `lottery_id` at the clock reading and returns the winning
/// ordinal.
///
/// Refused with `Unauthorized` unless the signer is the lottery's authority, otherwise with
/// `WinnerAlreadyExists` if the winner is set, otherwise with `NoTickets` if no ticket was
/// sold. An accepted draw sets the winner to `winner_at` of the clock's time and slot and
/// the number of tickets sold, which is the ordinal of one of those tickets.
pub fn pick_winner(ctx: &mut PickWinner, lottery_id: u32, clock: &Clock) -> (result: Result<
    u32,
    LotteryError,
>)
    requires
        old(ctx).addresses(lottery_id),
    ensures
        old(ctx).rejection() matches Some(e) ==> result == Err::<u32, LotteryError>(e),
        old(ctx).rejection() is Some ==> *final(ctx) == *old(ctx),
        old(ctx).rejection() is None ==> result == Ok::<u32, LotteryError>(
            old(ctx).winner(*clock) as u32,
        ),
        old(ctx).rejection() is None ==> *final(ctx) == old(ctx).drawn(*clock),
        result matches Ok(winner) ==> winner == winner_at(
            clock.unix_timestamp,
            clock.slot,
            old(ctx).lottery.last_ticket_id,
        ),
        result matches Ok(winner) ==> winner < old(ctx).lottery.last_ticket_id,
        result matches Ok(winner) ==> final(ctx).lottery.winner_id == Some(winner),
        old(ctx).lottery.wf() ==> final(ctx).lottery.wf(),
{
    if let Some(e) = ctx.refusal() {
        return Err(e);
    }
    let stamp = timestamp_bytes(clock.unix_timestamp);
    let digest = digest_of(stamp.as_slice());
    let winner: u32 = winning_ticket(&digest, clock.slot, ctx.lottery.last_ticket_id);
    ctx.lottery.winner_id = Some(winner);
    Ok(winner)
}

/// Pays the pot of lottery `lottery_id` to the signer against ticket `ticket_id` and returns
/// the amount paid: the ticket price times the number of tickets sold.
///
/// Refused with `AlreadyClaimed` if the prize is paid, otherwise with `WinnerNotChosen` if
/// no winner is set, otherwise with `InvalidWinner` if the ticket is not the winning one,
/// otherwise with `Unauthorized` if the signer does not own the ticket. An accepted claim
/// moves the pot from the lottery to the signer and marks the lottery claimed: all of it,
/// or nothing.
pub fn claim_price(ctx: &mut ClaimPrice, lottery_id: u32, ticket_id: u32) -> (result: Result<
    u64,
    LotteryError,
>)
    requires
        old(ctx).addresses(lottery_id, ticket_id),
        old(ctx).within_limits(),
    ensures
        old(ctx).rejection() matches Some(e) ==> result == Err::<u64, LotteryError>(e),
        old(ctx).rejection() is Some ==> *final(ctx) == *old(ctx),
        old(ctx).rejection() is None ==> result == Ok::<u64, LotteryError>(
            old(ctx).lottery.pot() as u64,
        ),
        old(ctx).rejection() is None ==> *final(ctx) == old(ctx).paid(),
        old(ctx).lottery.claimed ==> result == Err::<u64, LotteryError>(
            LotteryError::AlreadyClaimed,
        ),
        result matches Ok(amount) ==> amount == old(ctx).lottery.ticket_price
            * old(ctx).lottery.last_ticket_id,
        result matches Ok(amount) ==> final(ctx).lottery_lamports == old(ctx).lottery_lamports
            - amount,
        result matches Ok(amount) ==> final(ctx).authority_lamports
            == old(ctx).authority_lamports + amount,
        result is Ok ==> old(ctx).lottery.winner_id == Some(ticket_id),
        result is Ok ==> final(ctx).lottery.claimed,
        final(ctx).lottery_lamports + final(ctx).authority_lamports == old(ctx).lottery_lamports
            + old(ctx).authority_lamports,
        old(ctx).lottery.wf() ==> final(ctx).lottery.wf(),
{
    if let Some(e) = ctx.refusal() {
        return Err(e);
    }
    let pot: u64 = ctx.lottery.ticket_price.checked_mul(
        ctx.lottery.last_ticket_id as u64,
    ).unwrap();
    ctx.lottery_lamports = ctx.lottery_lamports - pot;
    ctx.authority_lamports = ctx.authority_lamports + pot;
    ctx.lottery.claimed = true;
    Ok(pot)
}

} // verus!
