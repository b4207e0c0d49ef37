//! What holds of the records after every sequence of calls.
//!
//! A `Ledger` is the mathematical picture of the store that keeps the records: the registry,
//! the lotteries by number, the balance each lottery holds, the tickets each lottery has
//! sold, and the prizes it has paid. `step` looks up the records that a call names, applies
//! the operation as its contract states it, and stores the result. A call that names a
//! record that does not exist, or that would leave the machine's integers, is not made.

use vstd::prelude::*;
use crate::accounts::{BuyTicket, ClaimPrice, CreateLottery, PickWinner};
use crate::draw::lemma_winner_in_range;
use crate::identity::Identity;
use crate::records::{Clock, Lottery, Master, Ticket};

verus! {

/// One call, with what the caller brings to it.
pub enum Call {
    /// `create_lottery`; `reserve` is the balance that the new record starts with.
    CreateLottery { authority: Identity, ticket_price: u64, reserve: u64 },
    /// `buy_ticket`, by a buyer who holds `buyer_lamports`.
    BuyTicket { lottery_id: u32, buyer: Identity, buyer_lamports: u64 },
    /// `pick_winner`, at a clock reading.
    PickWinner { lottery_id: u32, authority: Identity, clock: Clock },
    /// `claim_price`, by a signer who holds `authority_lamports`.
    ClaimPrice { lottery_id: u32, ticket_id: u32, authority: Identity, authority_lamports: u64 },
}

/// The records of one deployment.
pub struct Ledger {
    /// The registry.
    pub master: Master,
    /// The lotteries, in the order of their creation.
    pub lotteries: Seq<Lottery>,
    /// For each lottery, the balance that its record started with.
    pub reserves: Seq<u64>,
    /// For each lottery, the balance that its record holds.
    pub lamports: Seq<u64>,
    /// For each lottery, the tickets it has sold, in the order of their sale.
    pub tickets: Seq<Seq<Ticket>>,
    /// For each lottery, the prizes it has paid.
    pub payouts: Seq<Seq<u64>>,
}

impl Ledger {
    /// The ledger after `init_master`: the registry at 0 and no lottery.
    pub open spec fn genesis() -> Ledger {
        Ledger {
            master: Master { last_id: 0 },
            lotteries: Seq::empty(),
            reserves: Seq::empty(),
            lamports: Seq::empty(),
            tickets: Seq::empty(),
            payouts: Seq::empty(),
        }
    }

    /// Lottery `id` exists, with all that the ledger keeps of it.
    pub open spec fn has(self, id: int) -> bool {
        &&& 0 <= id < self.lotteries.len()
        &&& id < self.reserves.len()
        &&& id < self.lamports.len()
        &&& id < self.tickets.len()
        &&& id < self.payouts.len()
    }

    /// The ledger after `create_lottery`.
    pub open spec fn create(self, authority: Identity, ticket_price: u64, reserve: u64) -> Ledger {
        let ctx = CreateLottery { lottery: arbitrary(), master: self.master, authority };
        if ctx.within_limits() {
            let after = ctx.created(ticket_price);
            Ledger {
                master: after.master,
                lotteries: self.lotteries.push(after.lottery),
                reserves: self.reserves.push(reserve),
                lamports: self.lamports.push(reserve),
                tickets: self.tickets.push(Seq::empty()),
                payouts: self.payouts.push(Seq::empty()),
            }
        } else {
            self
        }
    }

    /// The ledger after `buy_ticket`.
    pub open spec fn buy(self, lottery_id: u32, buyer: Identity, buyer_lamports: u64) -> Ledger {
        let id: int = lottery_id as int;
        let ctx = BuyTicket {
            lottery: self.lotteries[id],
            lottery_lamports: self.lamports[id],
            ticket: arbitrary(),
            buyer,
            buyer_lamports,
        };
        if self.has(id) && ctx.addresses(lottery_id) && ctx.within_limits() && ctx.rejection()
            is None {
            let after = ctx.sold();
            Ledger {
                lotteries: self.lotteries.update(id, after.lottery),
                lamports: self.lamports.update(id, after.lottery_lamports),
                tickets: self.tickets.update(id, self.tickets[id].push(after.ticket)),
                ..self
            }
        } else {
            self
        }
    }

    /// The ledger after `pick_winner`.
    pub open spec fn pick(self, lottery_id: u32, authority: Identity, clock: Clock) -> Ledger {
        let id: int = lottery_id as int;
        let ctx = PickWinner { lottery: self.lotteries[id], authority };
        if self.has(id) && ctx.addresses(lottery_id) && ctx.rejection() is None {
            Ledger { lotteries: self.lotteries.update(id, ctx.drawn(clock).lottery), ..self }
        } else {
            self
        }
    }

    /// The ledger after `claim_price`.
    pub open spec fn claim(
        self,
        lottery_id: u32,
        ticket_id: u32,
        authority: Identity,
        authority_lamports: u64,
    ) -> Ledger {
        let id: int = lottery_id as int;
        let ctx = ClaimPrice {
            lottery: self.lotteries[id],
            lottery_lamports: self.lamports[id],
            ticket: self.tickets[id][ticket_id as int],
            authority,
            authority_lamports,
        };
        if self.has(id) && ticket_id < self.tickets[id].len() && ctx.addresses(
            lottery_id,
            ticket_id,
        ) && ctx.within_limits() && ctx.rejection() is None {
            let after = ctx.paid();
            Ledger {
                lotteries: self.lotteries.update(id, after.lottery),
                lamports: self.lamports.update(id, after.lottery_lamports),
                payouts: self.payouts.update(
                    id,
                    self.payouts[id].push(ctx.lottery.pot() as u64),
                ),
                ..self
            }
        } else {
            self
        }
    }

    /// The ledger after one call.
    pub open spec fn step(self, call: Call) -> Ledger {
        match call {
            Call::CreateLottery { authority, ticket_price, reserve } => self.create(
                authority,
                ticket_price,
                reserve,
            ),
            Call::BuyTicket { lottery_id, buyer, buyer_lamports } => self.buy(
                lottery_id,
                buyer,
                buyer_lamports,
            ),
            Call::PickWinner { lottery_id, authority, clock } => self.pick(
                lottery_id,
                authority,
                clock,
            ),
            Call::ClaimPrice { lottery_id, ticket_id, authority, authority_lamports } => self.claim(
                lottery_id,
                ticket_id,
                authority,
                authority_lamports,
            ),
        }
    }

    /// The ledger after `init_master` and then `calls`, in their order.
    pub open spec fn run(calls: Seq<Call>) -> Ledger
        decreases calls.len(),
    {
        if calls.len() == 0 {
            Ledger::genesis()
        } else {
            Ledger::run(calls.drop_last()).step(calls.last())
        }
    }

    /// What holds of lottery `id` and of what the ledger keeps of it.
    ///
    /// The lottery carries its place in the order of creation as its number. No winner is
    /// set before a ticket is sold, and none is claimed before a winner is set. The tickets
    /// sold carry the ordinals 0, 1, 2, .. in the order of their sale, up to the count, and
    /// the lottery's number. Until the prize is paid the lottery holds its pot on top of
    /// what it started with and has paid nothing; from then on it holds what it started
    /// with and has paid the pot, once.
    pub open spec fn sound_at(self, id: int) -> bool {
        let lottery = self.lotteries[id];
        &&& lottery.id == id
        &&& lottery.wf()
        &&& self.tickets[id].len() == lottery.last_ticket_id
        &&& forall|j: int|
            0 <= j < self.tickets[id].len() ==> {
                &&& (#[trigger] self.tickets[id][j]).id == j
                &&& self.tickets[id][j].lottery_id == id
            }
        &&& !lottery.claimed ==> {
            &&& self.lamports[id] == self.reserves[id] + lottery.pot()
            &&& self.payouts[id] == Seq::<u64>::empty()
        }
        &&& lottery.claimed ==> {
            &&& self.lamports[id] == self.reserves[id]
            &&& self.payouts[id] == seq![lottery.pot() as u64]
            &&& lottery.pot() <= u64::MAX
        }
    }

    /// What holds of the whole ledger: the registry's next number is the number of
    /// lotteries created, and every lottery is sound.
    pub open spec fn inv(self) -> bool {
        &&& self.master.last_id == self.lotteries.len()
        &&& self.reserves.len() == self.lotteries.len()
        &&& self.lamports.len() == self.lotteries.len()
        &&& self.tickets.len() == self.lotteries.len()
        &&& self.payouts.len() == self.lotteries.len()
        &&& forall|id: int| 0 <= id < self.lotteries.len() ==> #[trigger] self.sound_at(id)
    }
}

/// A purchase that is accepted keeps the lottery and what the ledger keeps of it sound.
proof fn lemma_buy_keeps_inv(ledger: Ledger, lottery_id: u32, buyer: Identity, buyer_lamports: u64)
    requires
        ledger.inv(),
    ensures
        ledger.buy(lottery_id, buyer, buyer_lamports).inv(),
{
    let id: int = lottery_id as int;
    let after = ledger.buy(lottery_id, buyer, buyer_lamports);
    if after != ledger {
        let lottery = ledger.lotteries[id];
        assert(ledger.sound_at(id));
        assert(lottery.ticket_price * (lottery.last_ticket_id + 1) == lottery.ticket_price
            * lottery.last_ticket_id + lottery.ticket_price) by (nonlinear_arith);
        assert forall|k: int| 0 <= k < after.lotteries.len() implies #[trigger] after.sound_at(
            k,
        ) by {
            assert(ledger.sound_at(k));
        }
    }
}

/// A draw that is accepted keeps the lottery sound.
proof fn lemma_pick_keeps_inv(ledger: Ledger, lottery_id: u32, authority: Identity, clock: Clock)
    requires
        ledger.inv(),
    ensures
        ledger.pick(lottery_id, authority, clock).inv(),
{
    let id: int = lottery_id as int;
    let after = ledger.pick(lottery_id, authority, clock);
    if after != ledger {
        assert(ledger.sound_at(id));
        lemma_winner_in_range(
            clock.unix_timestamp,
            clock.slot,
            ledger.lotteries[id].last_ticket_id,
        );
        assert forall|k: int| 0 <= k < after.lotteries.len() implies #[trigger] after.sound_at(
            k,
        ) by {
            assert(ledger.sound_at(k));
        }
    }
}

/// A claim that is accepted keeps the lottery and what the ledger keeps of it sound.
proof fn lemma_claim_keeps_inv(
    ledger: Ledger,
    lottery_id: u32,
    ticket_id: u32,
    authority: Identity,
    authority_lamports: u64,
)
    requires
        ledger.inv(),
    ensures
        ledger.claim(lottery_id, ticket_id, authority, authority_lamports).inv(),
{
    let id: int = lottery_id as int;
    let after = ledger.claim(lottery_id, ticket_id, authority, authority_lamports);
    if after != ledger {
        assert(ledger.sound_at(id));
        assert(after.payouts[id] =~= seq![ledger.lotteries[id].pot() as u64]);
        assert forall|k: int| 0 <= k < after.lotteries.len() implies #[trigger] after.sound_at(
            k,
        ) by {
            assert(ledger.sound_at(k));
        }
    }
}

/// A lottery that is created gets the next number and is sound.
proof fn lemma_create_keeps_inv(
    ledger: Ledger,
    authority: Identity,
    ticket_price: u64,
    reserve: u64,
)
    requires
        ledger.inv(),
    ensures
        ledger.create(authority, ticket_price, reserve).inv(),
{
    let after = ledger.create(authority, ticket_price, reserve);
    if after != ledger {
        assert forall|k: int| 0 <= k < after.lotteries.len() implies #[trigger] after.sound_at(
            k,
        ) by {
            if k < ledger.lotteries.len() {
                assert(ledger.sound_at(k));
            }
        }
    }
}

/// Every call keeps the ledger as `inv` says.
pub proof fn lemma_step_keeps_inv(ledger: Ledger, call: Call)
    requires
        ledger.inv(),
    ensures
        ledger.step(call).inv(),
{
    match call {
        Call::CreateLottery { authority, ticket_price, reserve } => {
            lemma_create_keeps_inv(ledger, authority, ticket_price, reserve);
        },
        Call::BuyTicket { lottery_id, buyer, buyer_lamports } => {
            lemma_buy_keeps_inv(ledger, lottery_id, buyer, buyer_lamports);
        },
        Call::PickWinner { lottery_id, authority, clock } => {
            lemma_pick_keeps_inv(ledger, lottery_id, authority, clock);
        },
        Call::ClaimPrice { lottery_id, ticket_id, authority, authority_lamports } => {
            lemma_claim_keeps_inv(ledger, lottery_id, ticket_id, authority, authority_lamports);
        },
    }
}

/// After `init_master` and any calls, in any order, the ledger is as `inv` says.
pub proof fn lemma_run_keeps_inv(calls: Seq<Call>)
    ensures
        Ledger::run(calls).inv(),
    decreases calls.len(),
{
    if calls.len() > 0 {
        lemma_run_keeps_inv(calls.drop_last());
        lemma_step_keeps_inv(Ledger::run(calls.drop_last()), calls.last());
    }
}

/// After `init_master` and any calls, the lotteries carry the numbers 0, 1, 2, .. in the
/// order of their creation, without a gap and without a repeat, and the registry's next
/// number is the number of lotteries created.
pub proof fn lemma_lotteries_numbered_in_order(calls: Seq<Call>)
    ensures
        Ledger::run(calls).master.last_id == Ledger::run(calls).lotteries.len(),
        forall|i: int|
            0 <= i < Ledger::run(calls).lotteries.len() ==> (#[trigger] Ledger::run(
                calls,
            ).lotteries[i]).id == i,
{
    lemma_run_keeps_inv(calls);
    let ledger = Ledger::run(calls);
    assert forall|i: int| 0 <= i < ledger.lotteries.len() implies (
    #[trigger] ledger.lotteries[i]).id == i by {
        assert(ledger.sound_at(i));
    }
}

/// A `create_lottery` that the registry can still count adds one lottery after those that
/// exist, under the number that the registry stood at, and moves the registry on by one.
pub proof fn lemma_create_takes_next_number(
    ledger: Ledger,
    authority: Identity,
    ticket_price: u64,
    reserve: u64,
)
    requires
        ledger.inv(),
        ledger.master.last_id < u32::MAX,
    ensures
        ledger.create(authority, ticket_price, reserve).lotteries == ledger.lotteries.push(
            Lottery::opened(ledger.master.last_id, authority, ticket_price),
        ),
        ledger.create(authority, ticket_price, reserve).master.last_id == ledger.master.last_id
            + 1,
{
}

/// After `init_master` and any calls, however the purchases were interleaved, the tickets
/// that lottery `id` has sold carry the ordinals 0, 1, 2, .. in the order of their sale, up
/// to the lottery's count: no gap, no ordinal twice.
pub proof fn lemma_tickets_numbered_in_order(calls: Seq<Call>, id: int)
    requires
        0 <= id < Ledger::run(calls).lotteries.len(),
    ensures
        Ledger::run(calls).tickets[id].len() == Ledger::run(calls).lotteries[id].last_ticket_id,
        forall|j: int|
            0 <= j < Ledger::run(calls).tickets[id].len() ==> (#[trigger] Ledger::run(
                calls,
            ).tickets[id][j]).id == j,
        forall|j: int, k: int|
            0 <= j < k < Ledger::run(calls).tickets[id].len() ==> (#[trigger] Ledger::run(
                calls,
            ).tickets[id][j]).id != (#[trigger] Ledger::run(calls).tickets[id][k]).id,
{
    lemma_run_keeps_inv(calls);
    assert(Ledger::run(calls).sound_at(id));
}

/// After `init_master` and any calls, a lottery has paid at most one prize, and the prize
/// it paid is its ticket price times the number of tickets it sold.
pub proof fn lemma_one_prize_of_the_pot(calls: Seq<Call>, id: int)
    requires
        0 <= id < Ledger::run(calls).lotteries.len(),
    ensures
        Ledger::run(calls).payouts[id].len() <= 1,
        Ledger::run(calls).payouts[id].len() == 1 <==> Ledger::run(calls).lotteries[id].claimed,
        Ledger::run(calls).payouts[id].len() == 1 ==> Ledger::run(calls).payouts[id][0]
            == Ledger::run(calls).lotteries[id].ticket_price * Ledger::run(
            calls,
        ).lotteries[id].last_ticket_id,
{
    lemma_run_keeps_inv(calls);
    assert(Ledger::run(calls).sound_at(id));
}

/// After `init_master` and any calls, a lottery holds what its record started with and,
/// until its prize is paid, its pot on top of that.
pub proof fn lemma_balance_is_reserve_and_pot(calls: Seq<Call>, id: int)
    requires
        0 <= id < Ledger::run(calls).lotteries.len(),
    ensures
        Ledger::run(calls).lamports[id] == Ledger::run(calls).reserves[id] + (if Ledger::run(
            calls,
        ).lotteries[id].claimed {
            0
        } else {
            Ledger::run(calls).lotteries[id].pot()
        }),
{
    lemma_run_keeps_inv(calls);
    assert(Ledger::run(calls).sound_at(id));
}

/// What is settled stays settled, whatever is called next. The registry's number never
/// falls. A lottery keeps its number, its authority and its price, and its count never
/// falls. Once its winner is set, the winner and the count stay as they are; once it is
/// claimed, it stays claimed. The tickets sold and the prizes paid stay as they are: a call
/// can only add to them.
pub proof fn lemma_step_keeps_what_is_settled(ledger: Ledger, call: Call, id: int)
    requires
        ledger.inv(),
        0 <= id < ledger.lotteries.len(),
    ensures
        ledger.step(call).master.last_id >= ledger.master.last_id,
        id < ledger.step(call).lotteries.len(),
        ledger.step(call).lotteries[id].id == ledger.lotteries[id].id,
        ledger.step(call).lotteries[id].authority == ledger.lotteries[id].authority,
        ledger.step(call).lotteries[id].ticket_price == ledger.lotteries[id].ticket_price,
        ledger.step(call).lotteries[id].last_ticket_id >= ledger.lotteries[id].last_ticket_id,
        ledger.lotteries[id].winner_id is Some ==> ledger.step(call).lotteries[id].winner_id
            == ledger.lotteries[id].winner_id && ledger.step(call).lotteries[id].last_ticket_id
            == ledger.lotteries[id].last_ticket_id,
        ledger.lotteries[id].claimed ==> ledger.step(call).lotteries[id].claimed,
        ledger.tickets[id].is_prefix_of(ledger.step(call).tickets[id]),
        ledger.payouts[id].is_prefix_of(ledger.step(call).payouts[id]),
{
    assert(ledger.sound_at(id));
}

/// Once a lottery's winner is set, a purchase changes nothing: not the count, not a
/// balance, not a ticket.
pub proof fn lemma_no_sale_after_the_draw(
    ledger: Ledger,
    lottery_id: u32,
    buyer: Identity,
    buyer_lamports: u64,
)
    requires
        ledger.has(lottery_id as int),
        ledger.lotteries[lottery_id as int].winner_id is Some,
    ensures
        ledger.buy(lottery_id, buyer, buyer_lamports) == ledger,
{
}

/// Once a lottery's winner is set, a further draw changes nothing, whoever calls it and
/// whenever.
pub proof fn lemma_no_second_draw(
    ledger: Ledger,
    lottery_id: u32,
    authority: Identity,
    clock: Clock,
)
    requires
        ledger.has(lottery_id as int),
        ledger.lotteries[lottery_id as int].winner_id is Some,
    ensures
        ledger.pick(lottery_id, authority, clock) == ledger,
{
}

/// Once a lottery's prize is paid, a further claim changes nothing, whichever ticket is
/// presented and by whom.
pub proof fn lemma_no_second_claim(
    ledger: Ledger,
    lottery_id: u32,
    ticket_id: u32,
    authority: Identity,
    authority_lamports: u64,
)
    requires
        ledger.has(lottery_id as int),
        ledger.lotteries[lottery_id as int].claimed,
    ensures
        ledger.claim(lottery_id, ticket_id, authority, authority_lamports) == ledger,
{
}

} // verus!
