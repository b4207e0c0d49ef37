//! The persistent records: the registry, a lottery and a ticket, with the clock reading and
//! the errors that the operations on them return.

use vstd::prelude::*;
use crate::identity::Identity;

verus! {

/// The registry, one per deployment: the number that the next lottery will get.
#[derive(Clone, Copy, Debug, PartialEq, Eq)]
pub struct Master {
    pub last_id: u32,
}

/// One lottery.
///
/// `last_ticket_id` counts the tickets sold so far and is the ordinal of the next ticket.
#[derive(Clone, Copy, Debug, PartialEq, Eq)]
pub struct Lottery {
    pub id: u32,
    pub authority: Identity,
    pub ticket_price: u64,
    pub last_ticket_id: u32,
    pub winner_id: Option<u32>,
    pub claimed: bool,
}

/// One ticket: its ordinal within its lottery, its owner and the lottery's number.
#[derive(Clone, Copy, Debug, PartialEq, Eq)]
pub struct Ticket {
    pub id: u32,
    pub authority: Identity,
    pub lottery_id: u32,
}

/// The ledger's clock at the time of a call: the slot it is in and the time in seconds.
#[derive(Clone, Copy, Debug, PartialEq, Eq)]
pub struct Clock {
    pub slot: u64,
    pub unix_timestamp: i64,
}

/// Why an operation was refused. A refused operation changes nothing.
#[derive(Clone, Copy, Debug, PartialEq, Eq, Structural)]
pub enum LotteryError {
    /// A draw or a purchase after the winner has been set.
    WinnerAlreadyExists,
    /// A draw before any ticket was sold.
    NoTickets,
    /// A claim after the prize has been paid.
    AlreadyClaimed,
    /// A claim with a ticket that is not the winning one.
    InvalidWinner,
    /// A claim before the draw.
    WinnerNotChosen,
    /// A purchase by a buyer who holds less than the ticket price.
    InsufficientFunds,
    /// A draw by someone other than the lottery's authority, or a claim by someone other
    /// than the ticket's owner.
    Unauthorized,
}

impl Lottery {
    /// What holds of a lottery at all times: a winner is one of the tickets sold, and
    /// only a lottery with a winner is claimed.
    pub open spec fn wf(self) -> bool {
        &&& self.winner_id matches Some(w) ==> w < self.last_ticket_id
        &&& self.claimed ==> self.winner_id is Some
    }

    /// The pooled value: the price of every ticket sold.
    pub open spec fn pot(self) -> int {
        self.ticket_price * self.last_ticket_id
    }

    /// A lottery as it is created: no ticket, no winner, nothing claimed.
    pub open spec fn opened(id: u32, authority: Identity, ticket_price: u64) -> Lottery {
        Lottery { id, authority, ticket_price, last_ticket_id: 0, winner_id: None, claimed: false }
    }
}

} // verus!
