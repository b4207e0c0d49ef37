//! What each operation is handed: the records that the call addresses, the signer, and the
//! balances that the operation moves.
//!
//! The ledger looks the records up and stores them again after a successful call. For each
//! operation this module says which calls are refused and why (`rejection`), what the
//! records are after an accepted call, and which accepted calls stay within the machine's
//! integers (`within_limits`).

use vstd::prelude::*;
use crate::draw::winner_at;
use crate::identity::Identity;
use crate::records::{Clock, Lottery, LotteryError, Master, Ticket};

verus! {

/// For `init_master`: the registry's record, newly made.
#[derive(Clone, Copy, Debug, PartialEq, Eq)]
pub struct InitMaster {
    pub master: Master,
}

/// For `create_lottery`: the new lottery's record, the registry, and the signer, who becomes
/// the lottery's authority.
#[derive(Clone, Copy, Debug, PartialEq, Eq)]
pub struct CreateLottery {
    pub lottery: Lottery,
    pub master: Master,
    pub authority: Identity,
}

/// For `buy_ticket`: the lottery and the balance it holds, the new ticket's record, and the
/// buyer with the balance the buyer holds.
#[derive(Clone, Copy, Debug, PartialEq, Eq)]
pub struct BuyTicket {
    pub lottery: Lottery,
    pub lottery_lamports: u64,
    pub ticket: Ticket,
    pub buyer: Identity,
    pub buyer_lamports: u64,
}

/// For `pick_winner`: the lottery and the signer.
#[derive(Clone, Copy, Debug, PartialEq, Eq)]
pub struct PickWinner {
    pub lottery: Lottery,
    pub authority: Identity,
}

/// For `claim_price`: the lottery and the balance it holds, the ticket that is presented,
/// and the signer with the balance the signer holds.
#[derive(Clone, Copy, Debug, PartialEq, Eq)]
pub struct ClaimPrice {
    pub lottery: Lottery,
    pub lottery_lamports: u64,
    pub ticket: Ticket,
    pub authority: Identity,
    pub authority_lamports: u64,
}

impl CreateLottery {
    /// The registry can still count one lottery more.
    pub open spec fn within_limits(self) -> bool {
        self.master.last_id < u32::MAX
    }

    /// The records after the lottery has been created at `ticket_price`.
    pub open spec fn created(self, ticket_price: u64) -> CreateLottery {
        CreateLottery {
            lottery: Lottery::opened(self.master.last_id, self.authority, ticket_price),
            master: Master { last_id: (self.master.last_id + 1) as u32 },
            authority: self.authority,
        }
    }

    /// Tests `within_limits`.
    pub fn is_within_limits(&self) -> (fits: bool)
        ensures
            fits == self.within_limits(),
    {
        self.master.last_id < u32::MAX
    }
}

impl BuyTicket {
    /// The lottery handed over is the one that the call names.
    pub open spec fn addresses(self, lottery_id: u32) -> bool {
        self.lottery.id == lottery_id
    }

    /// Why the purchase is refused, if it is: the winner is set, or else the buyer cannot
    /// pay the price.
    pub open spec fn rejection(self) -> Option<LotteryError> {
        if self.lottery.winner_id is Some {
            Some(LotteryError::WinnerAlreadyExists)
        } else if self.buyer_lamports < self.lottery.ticket_price {
            Some(LotteryError::InsufficientFunds)
        } else {
            None
        }
    }

    /// A purchase that is accepted leaves the ticket count within `u32` and the lottery's
    /// balance within `u64`.
    pub open spec fn within_limits(self) -> bool {
        self.rejection() is None ==> {
            &&& self.lottery.last_ticket_id < u32::MAX
            &&& self.lottery_lamports + self.lottery.ticket_price <= u64::MAX
        }
    }

    /// The records after an accepted purchase: the price has moved from the buyer to the
    /// lottery, the ticket carries the next ordinal, and the count has gone up by one.
    pub open spec fn sold(self) -> BuyTicket {
        BuyTicket {
            lottery: Lottery {
                last_ticket_id: (self.lottery.last_ticket_id + 1) as u32,
                ..self.lottery
            },
            lottery_lamports: (self.lottery_lamports + self.lottery.ticket_price) as u64,
            ticket: Ticket {
                id: self.lottery.last_ticket_id,
                authority: self.buyer,
                lottery_id: self.lottery.id,
            },
            buyer: self.buyer,
            buyer_lamports: (self.buyer_lamports - self.lottery.ticket_price) as u64,
        }
    }

    /// Says why the purchase is refused, if it is.
    pub fn refusal(&self) -> (refusal: Option<LotteryError>)
        ensures
            refusal == self.rejection(),
    {
        if self.lottery.winner_id.is_some() {
            Some(LotteryError::WinnerAlreadyExists)
        } else if self.buyer_lamports < self.lottery.ticket_price {
            Some(LotteryError::InsufficientFunds)
        } else {
            None
        }
    }

    /// Tests `within_limits`.
    pub fn is_within_limits(&self) -> (fits: bool)
        ensures
            fits == self.within_limits(),
    {
        self.refusal().is_some() || (self.lottery.last_ticket_id < u32::MAX
            && self.lottery_lamports <= u64::MAX - self.lottery.ticket_price)
    }
}

impl PickWinner {
    /// The lottery handed over is the one that the call names.
    pub open spec fn addresses(self, lottery_id: u32) -> bool {
        self.lottery.id == lottery_id
    }

    /// Why the draw is refused, if it is: the signer is not the lottery's authority, or else
    /// the winner is set, or else no ticket was sold.
    pub open spec fn rejection(self) -> Option<LotteryError> {
        if self.authority != self.lottery.authority {
            Some(LotteryError::Unauthorized)
        } else if self.lottery.winner_id is Some {
            Some(LotteryError::WinnerAlreadyExists)
        } else if self.lottery.last_ticket_id == 0 {
            Some(LotteryError::NoTickets)
        } else {
            None
        }
    }

    /// The ordinal that a draw at `clock` picks among the tickets sold.
    pub open spec fn winner(self, clock: Clock) -> int {
        winner_at(clock.unix_timestamp, clock.slot, self.lottery.last_ticket_id)
    }

    /// The records after an accepted draw at `clock`.
    pub open spec fn drawn(self, clock: Clock) -> PickWinner {
        PickWinner {
            lottery: Lottery { winner_id: Some(self.winner(clock) as u32), ..self.lottery },
            authority: self.authority,
        }
    }

    /// Says why the draw is refused, if it is.
    pub fn refusal(&self) -> (refusal: Option<LotteryError>)
        ensures
            refusal == self.rejection(),
    {
        if self.authority != self.lottery.authority {
            Some(LotteryError::Unauthorized)
        } else if self.lottery.winner_id.is_some() {
            Some(LotteryError::WinnerAlreadyExists)
        } else if self.lottery.last_ticket_id == 0 {
            Some(LotteryError::NoTickets)
        } else {
            None
        }
    }
}

impl ClaimPrice {
    /// The lottery handed over is the one that the call names, and the ticket is the one
    /// with the ordinal named, sold by that lottery.
    pub open spec fn addresses(self, lottery_id: u32, ticket_id: u32) -> bool {
        &&& self.lottery.id == lottery_id
        &&& self.ticket.lottery_id == lottery_id
        &&& self.ticket.id == ticket_id
    }

    /// Why the claim is refused, if it is: the prize is paid, or else no winner is set, or
    /// else the ticket is not the winning one, or else the signer does not own the ticket.
    pub open spec fn rejection(self) -> Option<LotteryError> {
        if self.lottery.claimed {
            Some(LotteryError::AlreadyClaimed)
        } else if self.lottery.winner_id is None {
            Some(LotteryError::WinnerNotChosen)
        } else if self.lottery.winner_id != Some(self.ticket.id) {
            Some(LotteryError::InvalidWinner)
        } else if self.authority != self.ticket.authority {
            Some(LotteryError::Unauthorized)
        } else {
            None
        }
    }

    /// A claim that is accepted finds the pot in the lottery's balance and leaves the
    /// signer's balance within `u64`.
    pub open spec fn within_limits(self) -> bool {
        self.rejection() is None ==> {
            &&& self.lottery.pot() <= self.lottery_lamports
            &&& self.authority_lamports + self.lottery.pot() <= u64::MAX
        }
    }

    /// The records after an accepted claim: the pot has moved from the lottery to the
    /// signer, and the lottery is claimed.
    pub open spec fn paid(self) -> ClaimPrice {
        ClaimPrice {
            lottery: Lottery { claimed: true, ..self.lottery },
            lottery_lamports: (self.lottery_lamports - self.lottery.pot()) as u64,
            ticket: self.ticket,
            authority: self.authority,
            authority_lamports: (self.authority_lamports + self.lottery.pot()) as u64,
        }
    }

    /// Says why the claim is refused, if it is.
    pub fn refusal(&self) -> (refusal: Option<LotteryError>)
        ensures
            refusal == self.rejection(),
    {
        if self.lottery.claimed {
            return Some(LotteryError::AlreadyClaimed);
        }
        match self.lottery.winner_id {
            None => Some(LotteryError::WinnerNotChosen),
            Some(winner) => {
                if winner != self.ticket.id {
                    Some(LotteryError::InvalidWinner)
                } else if self.authority != self.ticket.authority {
                    Some(LotteryError::Unauthorized)
                } else {
                    None
                }
            },
        }
    }

    /// Tests `within_limits`.
    pub fn is_within_limits(&self) -> (fits: bool)
        ensures
            fits == self.within_limits(),
    {
        if self.refusal().is_some() {
            return true;
        }
        match self.lottery.ticket_price.checked_mul(self.lottery.last_ticket_id as u64) {
            None => false,
            Some(pot) => pot <= self.lottery_lamports && self.authority_lamports <= u64::MAX
                - pot,
        }
    }
}

/// A draw on a lottery whose winner an accepted draw has set is refused, whoever signs.
pub proof fn lemma_second_draw_refused(first: PickWinner, clock: Clock, second: PickWinner)
    requires
        first.rejection() is None,
        second.lottery == first.drawn(clock).lottery,
    ensures
        second.rejection() is Some,
        second.authority == second.lottery.authority ==> second.rejection() == Some(
            LotteryError::WinnerAlreadyExists,
        ),
{
}

/// A claim on a lottery whose prize an accepted claim has paid is refused with
/// `AlreadyClaimed`, whichever ticket is presented and whoever signs.
pub proof fn lemma_second_claim_refused(first: ClaimPrice, second: ClaimPrice)
    requires
        first.rejection() is None,
        second.lottery == first.paid().lottery,
    ensures
        second.rejection() == Some(LotteryError::AlreadyClaimed),
{
}

} // verus!
