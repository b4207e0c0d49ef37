//! A custodial lottery as a state machine over plain records.
//!
//! Buyers pay the ticket price into a lottery and get numbered tickets. The lottery's
//! authority draws the winning ticket from the ledger's clock. The owner of the winning
//! ticket takes the pot, once.
//!
//! The records live in a ledger outside this library, which looks them up, hands them to an
//! operation of `instructions` in one of the structs of `accounts`, and stores them again
//! when the operation has accepted the call. `ledger` states and proves what then holds of
//! the records after every sequence of calls.

pub mod accounts;
pub mod draw;
pub mod identity;
pub mod instructions;
pub mod ledger;
pub mod records;

pub use crate::accounts::{BuyTicket, ClaimPrice, CreateLottery, InitMaster, PickWinner};
pub use crate::identity::Identity;
pub use crate::instructions::{buy_ticket, claim_price, create_lottery, init_master, pick_winner};
pub use crate::records::{Clock, Lottery, LotteryError, Master, Ticket};
