use rand::{RngCore, SeedableRng};
use rand_chacha::ChaChaRng;
use secret_dice::contract::{
    handle, init, is_valid_payment, join, leave, query, GameResult, HandleMsg, InitMsg, QueryMsg,
};
use secret_dice::outcome::{derive_outcome, encode_secrets, roll_from_word};
use secret_dice::state::{
    Coin, ContractError, GameState, Outcome, ENTRY_FEE, PAYOUT, STAKE_DENOM,
};
use sha2::{Digest, Sha256};

fn fee() -> Vec<Coin> {
    vec![Coin { denom: STAKE_DENOM.to_string(), amount: ENTRY_FEE }]
}

fn expected_roll(s1: u128, s2: u128) -> u8 {
    let mut bytes = s1.to_be_bytes().to_vec();
    bytes.extend(s2.to_be_bytes().to_vec());
    let seed: [u8; 32] = Sha256::digest(&bytes).into();
    let mut rng = ChaChaRng::from_seed(seed);
    ((rng.next_u32() % 6) + 1) as u8
}

#[test]
fn encode_secrets_is_big_endian_concatenation() {
    let s1: u128 = 0x0102030405060708090a0b0c0d0e0f10;
    let s2: u128 = 5;
    let mut expected = s1.to_be_bytes().to_vec();
    expected.extend(s2.to_be_bytes().to_vec());
    assert_eq!(encode_secrets(s1, s2), expected);
}

#[test]
fn roll_from_word_values() {
    assert_eq!(roll_from_word(0), 1);
    assert_eq!(roll_from_word(5), 6);
    assert_eq!(roll_from_word(6), 1);
    assert_eq!(roll_from_word(u32::MAX), (u32::MAX % 6 + 1) as u8);
}

#[test]
fn derive_matches_hash_and_generator() {
    for (s1, s2) in [(5u128, 9u128), (0, 0), (u128::MAX, 1), (9, 5), (123456789, u128::MAX)] {
        let d = derive_outcome(s1, s2);
        assert_eq!(d.roll, expected_roll(s1, s2));
        assert!(d.roll >= 1 && d.roll <= 6);
        assert_eq!(d.player1_wins, d.roll <= 3);
    }
}

#[test]
fn derive_is_deterministic() {
    for s in 0u128..50 {
        let a = derive_outcome(s, s * 7 + 3);
        let b = derive_outcome(s, s * 7 + 3);
        assert_eq!(a, b);
        assert!(a.roll >= 1 && a.roll <= 6);
    }
}

#[test]
fn init_gives_empty_game() {
    let st = init(InitMsg {});
    assert_eq!(st, GameState::new());
    assert_eq!(st.player1, None);
    assert_eq!(st.player2, None);
    assert_eq!(st.outcome, Outcome::Unresolved);
    assert!(st.is_well_formed());
}

#[test]
fn payment_checks() {
    assert!(is_valid_payment(&fee()));
    assert!(!is_valid_payment(&vec![]));
    assert!(!is_valid_payment(&vec![Coin { denom: "uscrt".to_string(), amount: 999_999 }]));
    assert!(!is_valid_payment(&vec![Coin { denom: "uatom".to_string(), amount: ENTRY_FEE }]));
    let mut two = fee();
    two.extend(fee());
    assert!(!is_valid_payment(&two));
}

#[test]
fn invalid_payment_refused_in_every_state() {
    let bad = vec![Coin { denom: "uscrt".to_string(), amount: 2_000_000 }];
    let mut st = init(InitMsg {});
    assert_eq!(join(&mut st, "a".to_string(), &bad, 1), Err(ContractError::InvalidPayment));
    assert_eq!(st, init(InitMsg {}));
    join(&mut st, "a".to_string(), &fee(), 1).unwrap();
    let before = st.clone();
    assert_eq!(join(&mut st, "b".to_string(), &vec![], 2), Err(ContractError::InvalidPayment));
    assert_eq!(st, before);
    join(&mut st, "b".to_string(), &fee(), 2).unwrap();
    let before = st.clone();
    assert_eq!(join(&mut st, "c".to_string(), &bad, 3), Err(ContractError::InvalidPayment));
    assert_eq!(st, before);
}

#[test]
fn full_game_scenario() {
    let mut st = init(InitMsg {});
    assert_eq!(join(&mut st, "alice".to_string(), &fee(), 5), Ok(None));
    assert_eq!(st.player1, Some("alice".to_string()));
    assert_eq!(st.player1_secret, 5);
    assert_eq!(st.player2, None);
    assert_eq!(st.outcome, Outcome::Unresolved);
    assert_eq!(
        query(&st, QueryMsg::GetResult {}),
        Err(ContractError::StillWaitingForPlayers)
    );

    let t = join(&mut st, "bob".to_string(), &fee(), 9).unwrap().unwrap();
    let roll = expected_roll(5, 9);
    let winner = if roll <= 3 { "alice" } else { "bob" };
    assert_eq!(t.to, winner);
    assert_eq!(t.amount, PAYOUT);
    assert_eq!(t.amount, 2 * ENTRY_FEE);
    assert_eq!(t.denom, STAKE_DENOM);
    assert_eq!(st.player2, Some("bob".to_string()));
    assert_eq!(st.player2_secret, 9);
    assert_eq!(st.outcome, Outcome::Resolved { roll, winner: winner.to_string() });
    assert!(st.is_well_formed());

    let before = st.clone();
    assert_eq!(join(&mut st, "carol".to_string(), &fee(), 1), Err(ContractError::GameFull));
    assert_eq!(st, before);
    assert_eq!(
        query(&st, QueryMsg::GetResult {}),
        Ok(GameResult { winner: winner.to_string(), dice_roll: roll })
    );
}

#[test]
fn leave_before_second_player_refunds() {
    let mut st = init(InitMsg {});
    join(&mut st, "alice".to_string(), &fee(), 5).unwrap();
    let t = leave(&mut st, "alice".to_string()).unwrap();
    assert_eq!(t.to, "alice");
    assert_eq!(t.amount, ENTRY_FEE);
    assert_eq!(t.denom, STAKE_DENOM);
    assert_eq!(st.player1, None);
    assert_eq!(st.player2, None);
    assert_eq!(st.outcome, Outcome::Unresolved);
    assert_eq!(join(&mut st, "bob".to_string(), &fee(), 7), Ok(None));
    assert_eq!(st.player1, Some("bob".to_string()));
    assert_eq!(st.player1_secret, 7);
}

#[test]
fn leave_by_non_player_refused() {
    let mut st = init(InitMsg {});
    assert_eq!(leave(&mut st, "alice".to_string()), Err(ContractError::NotAPlayer));
    join(&mut st, "alice".to_string(), &fee(), 5).unwrap();
    let before = st.clone();
    assert_eq!(leave(&mut st, "bob".to_string()), Err(ContractError::NotAPlayer));
    assert_eq!(st, before);
}

#[test]
fn leave_after_resolution_names_winner() {
    let mut st = init(InitMsg {});
    join(&mut st, "alice".to_string(), &fee(), 5).unwrap();
    let t = join(&mut st, "bob".to_string(), &fee(), 9).unwrap().unwrap();
    let before = st.clone();
    let e = leave(&mut st, "alice".to_string()).unwrap_err();
    assert_eq!(e, ContractError::GameAlreadyOver { winner: t.to.clone() });
    assert_eq!(e.message(), format!("Game is already over. Winner is {}.", t.to));
    assert_eq!(st, before);
    assert_eq!(leave(&mut st, "bob".to_string()), Err(ContractError::NotAPlayer));
}

#[test]
fn error_messages() {
    assert_eq!(ContractError::InvalidPayment.message(), "Must deposit 1 SCRT to enter the game.");
    assert_eq!(ContractError::GameFull.message(), "Game is full.");
    assert_eq!(ContractError::NotAPlayer.message(), "You are not a player.");
    assert_eq!(
        ContractError::GameAlreadyOver { winner: "bob".to_string() }.message(),
        "Game is already over. Winner is bob."
    );
    assert_eq!(ContractError::StillWaitingForPlayers.message(), "Still waiting for players.");
}

#[test]
fn handle_dispatches() {
    let mut st = init(InitMsg {});
    assert_eq!(
        handle(&mut st, "alice".to_string(), &fee(), HandleMsg::Join { secret: 1 }),
        Ok(None)
    );
    let r = handle(&mut st, "alice".to_string(), &vec![], HandleMsg::Leave {}).unwrap().unwrap();
    assert_eq!(r.to, "alice");
    assert_eq!(r.amount, ENTRY_FEE);
    assert_eq!(st.player1, None);
}

#[test]
fn well_formedness_check() {
    let mut st = init(InitMsg {});
    st.player2 = Some("bob".to_string());
    assert!(!st.is_well_formed());
    let st2 = GameState {
        player1: Some("a".to_string()),
        player1_secret: 0,
        player2: Some("b".to_string()),
        player2_secret: 0,
        outcome: Outcome::Resolved { roll: 7, winner: "a".to_string() },
    };
    assert!(!st2.is_well_formed());
    let st3 = GameState { outcome: Outcome::Resolved { roll: 2, winner: "c".to_string() }, ..st2.clone() };
    assert!(!st3.is_well_formed());
    let st4 = GameState { outcome: Outcome::Resolved { roll: 2, winner: "b".to_string() }, ..st2 };
    assert!(st4.is_well_formed());
}
