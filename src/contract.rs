//! The game's entry points: creation, joining, leaving and the result query.

use crate::outcome::{derive_outcome, derive_spec};
use crate::state::{
    occupied_by, valid_payment, Coin, ContractError, GameState, Outcome, Transfer, ENTRY_FEE,
    PAYOUT, STAKE_DENOM,
};
use vstd::prelude::*;

verus! {

/// The message that creates the game; it carries nothing.
#[derive(Clone, Debug, PartialEq, Eq)]
pub struct InitMsg {}

/// The messages that change the game.
#[derive(Clone, Debug, PartialEq, Eq)]
pub enum HandleMsg {
    Join { secret: u128 },
    Leave {},
}

/// The messages that read the game.
#[derive(Clone, Debug, PartialEq, Eq)]
pub enum QueryMsg {
    GetResult {},
}

/// The decided game as a query reports it.
#[derive(Clone, Debug, PartialEq, Eq)]
pub struct GameResult {
    pub winner: String,
    pub dice_roll: u8,
}

/// `t` pays `amount` of the stake denomination to `to`.
pub open spec fn pays(t: Transfer, to: String, amount: u128) -> bool {
    &&& t.to@ == to@
    &&& t.amount == amount
    &&& t.denom@ == STAKE_DENOM@
}

/// The game after `sender`, with `secret`, takes the first slot.
pub open spec fn with_player1(pre: GameState, sender: String, secret: u128) -> GameState {
    GameState { player1: Some(sender), player1_secret: secret, ..pre }
}

/// The winner that the secrets decide between the occupant of the first slot
/// and `sender`, who takes the second.
pub open spec fn decided_winner(pre: GameState, sender: String, secret: u128) -> String {
    if derive_spec(pre.player1_secret, secret).player1_wins {
        pre.player1.unwrap()
    } else {
        sender
    }
}

/// What a join does to `pre` and what it returns, for every game `pre`.
pub open spec fn join_post(
    pre: GameState,
    post: GameState,
    sender: String,
    funds: Seq<Coin>,
    secret: u128,
    r: Result<Option<Transfer>, ContractError>,
) -> bool {
    if !valid_payment(funds) {
        r == Err::<Option<Transfer>, ContractError>(ContractError::InvalidPayment) && post == pre
    } else if pre.player1 is None {
        r == Ok::<Option<Transfer>, ContractError>(None) && post == with_player1(pre, sender, secret)
    } else if pre.player2 is None {
        let winner = decided_winner(pre, sender, secret);
        &&& r is Ok
        &&& r->Ok_0 is Some
        &&& pays(r->Ok_0->Some_0, winner, PAYOUT)
        &&& post.player1 == pre.player1
        &&& post.player1_secret == pre.player1_secret
        &&& post.player2 == Some(sender)
        &&& post.player2_secret == secret
        &&& post.outcome matches Outcome::Resolved { roll, winner: w }
        &&& roll == derive_spec(pre.player1_secret, secret).roll
        &&& w@ == winner@
    } else {
        r == Err::<Option<Transfer>, ContractError>(ContractError::GameFull) && post == pre
    }
}

/// What a leave does to `pre` and what it returns, for every game `pre`.
pub open spec fn leave_post(
    pre: GameState,
    post: GameState,
    sender: String,
    r: Result<Option<Transfer>, ContractError>,
) -> bool {
    if !occupied_by(pre.player1, sender) {
        r == Err::<Option<Transfer>, ContractError>(ContractError::NotAPlayer) && post == pre
    } else if let Outcome::Resolved { winner, .. } = pre.outcome {
        r == Err::<Option<Transfer>, ContractError>(ContractError::GameAlreadyOver { winner })
            && post == pre
    } else {
        &&& r is Ok
        &&& r->Ok_0 is Some
        &&& pays(r->Ok_0->Some_0, sender, ENTRY_FEE)
        &&& post == GameState { player1: None, player1_secret: 0, ..pre }
    }
}

/// A refund as a handler's result.
pub open spec fn as_response(r: Result<Transfer, ContractError>) -> Result<
    Option<Transfer>,
    ContractError,
> {
    match r {
        Ok(t) => Ok(Some(t)),
        Err(e) => Err(e),
    }
}

/// What a result query returns for `state`.
pub open spec fn query_post(state: GameState, r: Result<GameResult, ContractError>) -> bool {
    match state.outcome {
        Outcome::Unresolved => r == Err::<GameResult, ContractError>(
            ContractError::StillWaitingForPlayers,
        ),
        Outcome::Resolved { roll, winner } => r == Ok::<GameResult, ContractError>(
            GameResult { winner, dice_roll: roll },
        ),
    }
}

/// Creates the game with both slots free.
pub fn init(msg: InitMsg) -> (r: GameState)
    ensures
        r.wf(),
        r.is_empty_game(),
        r.player1_secret == 0,
        r.player2_secret == 0,
{
    GameState::new()
}

/// A transfer of `amount` in the stake denomination to `to`.
fn transfer_to(to: String, amount: u128) -> (t: Transfer)
    ensures
        pays(t, to, amount),
        t.to == to,
{
    Transfer { to, amount, denom: String::from_str(STAKE_DENOM) }
}

/// Tests that the attached funds are exactly one entry fee in the stake denomination.
pub fn is_valid_payment(funds: &Vec<Coin>) -> (r: bool)
    ensures
        r == valid_payment(funds@),
{
    if funds.len() != 1 {
        return false;
    }
    let denom = String::from_str(STAKE_DENOM);
    funds[0].amount == ENTRY_FEE && funds[0].denom == denom
}

/// `sender` joins with `secret`, paying `funds`. The first to join takes
/// slot 1; the second takes slot 2, which decides the game and pays the
/// winner both stakes. Any payment but one coin of the entry fee is refused,
/// and so is every join once the game is decided.
pub fn join(state: &mut GameState, sender: String, funds: &Vec<Coin>, secret: u128) -> (r: Result<
    Option<Transfer>,
    ContractError,
>)
    requires
        old(state).wf(),
    ensures
        final(state).wf(),
        join_post(*old(state), *final(state), sender, funds@, secret, r),
{
    if !is_valid_payment(funds) {
        return Err(ContractError::InvalidPayment);
    }
    if state.player1.is_none() {
        state.player1 = Some(sender);
        state.player1_secret = secret;
        Ok(None)
    } else if state.player2.is_none() {
        let d = derive_outcome(state.player1_secret, secret);
        let winner = if d.player1_wins {
            match &state.player1 {
                Some(p) => p.clone(),
                None => sender.clone(),
            }
        } else {
            sender.clone()
        };
        state.player2 = Some(sender);
        state.player2_secret = secret;
        state.outcome = Outcome::Resolved { roll: d.roll, winner: winner.clone() };
        Ok(Some(transfer_to(winner, PAYOUT)))
    } else {
        Err(ContractError::GameFull)
    }
}

/// `sender` leaves the undecided game from slot 1 and is refunded the entry
/// fee. Only the occupant of slot 1 can leave, and only before the game is
/// decided.
pub fn leave(state: &mut GameState, sender: String) -> (r: Result<Transfer, ContractError>)
    requires
        old(state).wf(),
    ensures
        final(state).wf(),
        leave_post(*old(state), *final(state), sender, as_response(r)),
{
    let is_player1 = match &state.player1 {
        Some(p) => *p == sender,
        None => false,
    };
    if !is_player1 {
        return Err(ContractError::NotAPlayer);
    }
    if let Outcome::Resolved { winner, .. } = &state.outcome {
        return Err(ContractError::GameAlreadyOver { winner: winner.clone() });
    }
    state.player1 = None;
    state.player1_secret = 0;
    Ok(transfer_to(sender, ENTRY_FEE))
}

/// Runs one message from `sender` with `funds` attached.
pub fn handle(state: &mut GameState, sender: String, funds: &Vec<Coin>, msg: HandleMsg) -> (r:
    Result<Option<Transfer>, ContractError>)
    requires
        old(state).wf(),
    ensures
        final(state).wf(),
        match msg {
            HandleMsg::Join { secret } => join_post(
                *old(state),
                *final(state),
                sender,
                funds@,
                secret,
                r,
            ),
            HandleMsg::Leave {  } => leave_post(*old(state), *final(state), sender, r),
        },
{
    match msg {
        HandleMsg::Join { secret } => join(state, sender, funds, secret),
        HandleMsg::Leave {  } => match leave(state, sender) {
            Ok(t) => Ok(Some(t)),
            Err(e) => Err(e),
        },
    }
}

/// The winner and the roll of the decided game; refused while the game is
/// undecided.
pub fn query(state: &GameState, msg: QueryMsg) -> (r: Result<GameResult, ContractError>)
    ensures
        query_post(*state, r),
{
    match msg {
        QueryMsg::GetResult {  } => match &state.outcome {
            Outcome::Resolved { roll, winner } => Ok(
                GameResult { winner: winner.clone(), dice_roll: *roll },
            ),
            Outcome::Unresolved => Err(ContractError::StillWaitingForPlayers),
        },
    }
}

/// A join that does not attach exactly one coin of the entry fee in the stake
/// denomination is refused as an invalid payment, whatever the game's state,
/// and changes nothing.
pub proof fn lemma_join_needs_exact_payment(
    pre: GameState,
    post: GameState,
    sender: String,
    funds: Seq<Coin>,
    secret: u128,
    r: Result<Option<Transfer>, ContractError>,
)
    requires
        !valid_payment(funds),
        join_post(pre, post, sender, funds, secret, r),
    ensures
        r == Err::<Option<Transfer>, ContractError>(ContractError::InvalidPayment),
        post == pre,
{
}

/// Once the game is decided, every properly paid join is refused because the
/// game is full, and changes nothing.
pub proof fn lemma_join_after_resolution_is_full(
    pre: GameState,
    post: GameState,
    sender: String,
    funds: Seq<Coin>,
    secret: u128,
    r: Result<Option<Transfer>, ContractError>,
)
    requires
        pre.wf(),
        pre.outcome is Resolved,
        valid_payment(funds),
        join_post(pre, post, sender, funds, secret, r),
    ensures
        r == Err::<Option<Transfer>, ContractError>(ContractError::GameFull),
        post == pre,
{
}

/// When slot 1 is filled and slot 2 is free, its occupant's leave refunds
/// exactly the entry fee to them and leaves a game with no players.
pub proof fn lemma_leave_refunds_and_empties(
    pre: GameState,
    post: GameState,
    sender: String,
    r: Result<Option<Transfer>, ContractError>,
)
    requires
        pre.wf(),
        occupied_by(pre.player1, sender),
        pre.player2 is None,
        leave_post(pre, post, sender, r),
    ensures
        r matches Ok(Some(t)) && pays(t, sender, ENTRY_FEE),
        post.is_empty_game(),
        post.wf(),
{
}

/// Once the game is decided, a leave by the occupant of slot 1 is refused as
/// too late, the error carries the recorded winner, and nothing changes.
pub proof fn lemma_leave_after_resolution_names_winner(
    pre: GameState,
    post: GameState,
    sender: String,
    r: Result<Option<Transfer>, ContractError>,
)
    requires
        pre.wf(),
        occupied_by(pre.player1, sender),
        pre.outcome is Resolved,
        leave_post(pre, post, sender, r),
    ensures
        r == Err::<Option<Transfer>, ContractError>(
            ContractError::GameAlreadyOver { winner: pre.outcome->winner },
        ),
        post == pre,
{
}

/// A decided game is final: neither a join nor a leave, by anyone and with
/// any payment, changes it.
pub proof fn lemma_resolved_game_is_final(
    pre: GameState,
    post: GameState,
    sender: String,
    funds: Seq<Coin>,
    msg: HandleMsg,
    r: Result<Option<Transfer>, ContractError>,
)
    requires
        pre.wf(),
        pre.outcome is Resolved,
        match msg {
            HandleMsg::Join { secret } => join_post(pre, post, sender, funds, secret, r),
            HandleMsg::Leave {  } => leave_post(pre, post, sender, r),
        },
    ensures
        post == pre,
        r is Err,
{
}

/// Before both players have joined, a result query is refused; after, it
/// returns exactly the recorded winner and roll.
pub proof fn lemma_query_reports_outcome(state: GameState, r: Result<GameResult, ContractError>)
    requires
        state.wf(),
        query_post(state, r),
    ensures
        !(state.player1 is Some && state.player2 is Some) ==> r == Err::<
            GameResult,
            ContractError,
        >(ContractError::StillWaitingForPlayers),
        state.player1 is Some && state.player2 is Some ==> r == Ok::<GameResult, ContractError>(
            GameResult { winner: state.outcome->winner, dice_roll: state.outcome->roll },
        ),
{
}

} // verus!
