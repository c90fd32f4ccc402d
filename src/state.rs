//! The game's single persisted record, payments, transfers and errors.

use vstd::prelude::*;

verus! {

/// The stake each player escrows, in the smallest unit of the stake denomination.
pub const ENTRY_FEE: u128 = 1_000_000;

/// What the winner receives: both stakes.
pub const PAYOUT: u128 = 2_000_000;

/// The denomination in which stakes are paid.
pub const STAKE_DENOM: &'static str = "uscrt";

/// A payment attached to an invocation.
#[derive(Clone, Debug, PartialEq, Eq)]
pub struct Coin {
    pub denom: String,
    pub amount: u128,
}

/// An instruction to pay `amount` of `denom` from the contract to `to`.
#[derive(Clone, Debug, PartialEq, Eq)]
pub struct Transfer {
    pub to: String,
    pub amount: u128,
    pub denom: String,
}

/// Whether the game has been decided.
#[derive(Clone, Debug, PartialEq, Eq)]
pub enum Outcome {
    Unresolved,
    Resolved { roll: u8, winner: String },
}

/// The game: two player slots, each with its secret, and the outcome.
/// A secret means something only while its slot is occupied.
#[derive(Clone, Debug, PartialEq, Eq)]
pub struct GameState {
    pub player1: Option<String>,
    pub player1_secret: u128,
    pub player2: Option<String>,
    pub player2_secret: u128,
    pub outcome: Outcome,
}

/// Why an invocation was refused; a refused invocation changes nothing.
#[derive(Clone, Debug, PartialEq, Eq)]
pub enum ContractError {
    InvalidPayment,
    GameFull,
    NotAPlayer,
    GameAlreadyOver { winner: String },
    StillWaitingForPlayers,
}

/// Exactly one coin, of the entry fee, in the stake denomination.
pub open spec fn valid_payment(funds: Seq<Coin>) -> bool {
    &&& funds.len() == 1
    &&& funds[0].amount == ENTRY_FEE
    &&& funds[0].denom@ == STAKE_DENOM@
}

/// The slot holds the identity `who`.
pub open spec fn occupied_by(slot: Option<String>, who: String) -> bool {
    match slot {
        Some(p) => p@ == who@,
        None => false,
    }
}

impl GameState {
    /// The game's invariant: slot 2 is filled only after slot 1, the game is
    /// resolved exactly when both slots are filled, and a resolved game holds a
    /// roll in `1..=6` and a winner who is one of its players.
    pub open spec fn wf(&self) -> bool {
        &&& (self.player2 is Some ==> self.player1 is Some)
        &&& (self.outcome is Resolved <==> (self.player1 is Some && self.player2 is Some))
        &&& match self.outcome {
            Outcome::Resolved { roll, winner } => {
                &&& 1 <= roll <= 6
                &&& (occupied_by(self.player1, winner) || occupied_by(self.player2, winner))
            },
            Outcome::Unresolved => true,
        }
    }

    /// No player has joined.
    pub open spec fn is_empty_game(&self) -> bool {
        &&& self.player1 is None
        &&& self.player2 is None
        &&& self.outcome is Unresolved
    }

    /// The game as it is created: no players, no secrets, no outcome.
    pub fn new() -> (r: GameState)
        ensures
            r.wf(),
            r.is_empty_game(),
            r.player1_secret == 0,
            r.player2_secret == 0,
    {
        GameState {
            player1: None,
            player1_secret: 0,
            player2: None,
            player2_secret: 0,
            outcome: Outcome::Unresolved,
        }
    }

    /// Tests the invariant, for a state that comes from outside the library.
    pub fn is_well_formed(&self) -> (r: bool)
        ensures
            r == self.wf(),
    {
        let roll_ok = match &self.outcome {
            Outcome::Resolved { roll, winner } => {
                let in_range = 1 <= *roll && *roll <= 6;
                let is_p1 = match &self.player1 {
                    Some(p) => *p == *winner,
                    None => false,
                };
                let is_p2 = match &self.player2 {
                    Some(p) => *p == *winner,
                    None => false,
                };
                in_range && (is_p1 || is_p2)
            },
            Outcome::Unresolved => true,
        };
        let p1 = self.player1.is_some();
        let p2 = self.player2.is_some();
        let resolved = match &self.outcome {
            Outcome::Resolved { .. } => true,
            Outcome::Unresolved => false,
        };
        (!p2 || p1) && (resolved == (p1 && p2)) && roll_ok
    }
}

impl ContractError {
    /// The human-readable message of the error.
    pub fn message(&self) -> (r: String)
        ensures
            match self {
                ContractError::InvalidPayment => r@ == "Must deposit 1 SCRT to enter the game."@,
                ContractError::GameFull => r@ == "Game is full."@,
                ContractError::NotAPlayer => r@ == "You are not a player."@,
                ContractError::GameAlreadyOver { winner } => r@
                    == "Game is already over. Winner is "@ + winner@ + "."@,
                ContractError::StillWaitingForPlayers => r@ == "Still waiting for players."@,
            },
    {
        match self {
            ContractError::InvalidPayment => String::from_str("Must deposit 1 SCRT to enter the game."),
            ContractError::GameFull => String::from_str("Game is full."),
            ContractError::NotAPlayer => String::from_str("You are not a player."),
            ContractError::GameAlreadyOver { winner } => {
                String::from_str("Game is already over. Winner is ").concat(winner.as_str()).concat(
                    ".",
                )
            },
            ContractError::StillWaitingForPlayers => String::from_str("Still waiting for players."),
        }
    }
}

} // verus!
