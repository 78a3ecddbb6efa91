use game_server::first_turn_decision_wait_queue_response::FirstTurnDecisionWaitQueueResponse;
use game_server::mulligan_monitor::{
    next_mulligan_monitor_step, MulliganMonitorStep, MULLIGAN_FINISHED_WAIT_MS,
    MULLIGAN_RECHECK_WAIT_MS,
};
use game_server::rock_paper_scissors::{
    am_i_win, beats, choice_of_text, decide_rock_paper_scissors_winner, RockPaperScissorsChoice,
    RockPaperScissorsEffect,
};
use game_server::unit_basic_attack::{check_unit_basic_attack, UnitBasicAttackVerdict};

#[test]
fn wait_queue_response_gives_back_its_success() {
    assert!(FirstTurnDecisionWaitQueueResponse::new(true).get_is_success());
    assert!(!FirstTurnDecisionWaitQueueResponse::new(false).get_is_success());
}

#[test]
fn choices_are_read_exactly() {
    assert_eq!(choice_of_text("Rock"), Some(RockPaperScissorsChoice::Rock));
    assert_eq!(choice_of_text("Paper"), Some(RockPaperScissorsChoice::Paper));
    assert_eq!(choice_of_text("Scissors"), Some(RockPaperScissorsChoice::Scissors));
    for text in ["rock", "ROCK", "Rock ", "", "Scissor", "Papers", "Lizard"] {
        assert_eq!(choice_of_text(text), None, "{text:?}");
    }
}

#[test]
fn winning_pairs() {
    assert!(am_i_win("Rock", "Scissors"));
    assert!(am_i_win("Paper", "Rock"));
    assert!(am_i_win("Scissors", "Paper"));
    assert!(!am_i_win("Scissors", "Rock"));
    assert!(!am_i_win("Rock", "Paper"));
    assert!(!am_i_win("Paper", "Scissors"));
}

#[test]
fn draws_and_unknown_choices_are_no_win() {
    for hand in ["Rock", "Paper", "Scissors"] {
        assert!(!am_i_win(hand, hand));
        assert!(!am_i_win(hand, "Spock"));
        assert!(!am_i_win("Spock", hand));
    }
    assert!(!am_i_win("", ""));
}

#[test]
fn never_two_winners_and_different_hands_have_one() {
    let texts = ["Rock", "Paper", "Scissors", "rock", ""];
    for a in texts {
        for b in texts {
            assert!(!(am_i_win(a, b) && am_i_win(b, a)));
            let known = choice_of_text(a).is_some() && choice_of_text(b).is_some();
            if known && a != b {
                assert_ne!(am_i_win(a, b), am_i_win(b, a));
            }
        }
    }
}

#[test]
fn each_hand_beats_exactly_one() {
    let hands = [
        RockPaperScissorsChoice::Rock,
        RockPaperScissorsChoice::Paper,
        RockPaperScissorsChoice::Scissors,
    ];
    for hand in hands {
        assert_eq!(hands.iter().filter(|other| beats(hand, **other)).count(), 1);
        assert_eq!(hands.iter().filter(|other| beats(**other, hand)).count(), 1);
    }
}

#[test]
fn winner_gets_turn_energy_and_card() {
    let decision = decide_rock_paper_scissors_winner(7, "Paper", "Rock");
    assert_eq!(decision.result, "WIN");
    assert_eq!(
        decision.effects,
        vec![
            RockPaperScissorsEffect::NextGameTurn { account_unique_id: 7 },
            RockPaperScissorsEffect::AddFieldEnergy { account_unique_id: 7, amount: 1 },
            RockPaperScissorsEffect::DrawDeckCard { account_unique_id: 7, count: 1 },
        ]
    );
}

#[test]
fn loser_gets_nothing() {
    for (mine, theirs) in [("Rock", "Paper"), ("Rock", "Rock"), ("Nothing", "Rock")] {
        let decision = decide_rock_paper_scissors_winner(3, mine, theirs);
        assert_eq!(decision.result, "LOSE");
        assert!(decision.effects.is_empty());
    }
}

#[test]
fn basic_attack_possible_when_every_check_passes() {
    let verdict = check_unit_basic_attack(Some(false), Some(1), Some(2), Some(3), 3);
    assert_eq!(verdict, UnitBasicAttackVerdict::Possible);
    assert!(verdict.is_possible());
}

#[test]
fn basic_attack_refused_after_turn_action() {
    let verdict = check_unit_basic_attack(Some(true), Some(1), Some(2), Some(9), 1);
    assert_eq!(verdict, UnitBasicAttackVerdict::TurnActionUsed);
    assert!(!verdict.is_possible());
    assert_eq!(
        check_unit_basic_attack(None, Some(1), Some(2), Some(9), 1),
        UnitBasicAttackVerdict::TurnActionUsed
    );
}

#[test]
fn basic_attack_refused_in_deployment_round() {
    assert_eq!(
        check_unit_basic_attack(Some(false), Some(4), Some(4), Some(9), 1),
        UnitBasicAttackVerdict::DeployedThisRound
    );
    // Neither round could be looked up: both stand as -1 and are equal.
    assert_eq!(
        check_unit_basic_attack(Some(false), None, None, Some(9), 1),
        UnitBasicAttackVerdict::DeployedThisRound
    );
    // A missing player round is -1, which a unit deployed in round -1 matches.
    assert_eq!(
        check_unit_basic_attack(Some(false), Some(-1), None, Some(9), 1),
        UnitBasicAttackVerdict::DeployedThisRound
    );
}

#[test]
fn basic_attack_refused_without_energy() {
    assert_eq!(
        check_unit_basic_attack(Some(false), Some(1), Some(2), Some(2), 3),
        UnitBasicAttackVerdict::NotEnoughEnergy
    );
    // Unknown energy stands as -1: only an attack needing at most -1 passes.
    assert_eq!(
        check_unit_basic_attack(Some(false), Some(1), Some(2), None, 0),
        UnitBasicAttackVerdict::NotEnoughEnergy
    );
    assert_eq!(
        check_unit_basic_attack(Some(false), Some(1), Some(2), None, -1),
        UnitBasicAttackVerdict::Possible
    );
}

#[test]
fn checks_come_in_order() {
    assert_eq!(
        check_unit_basic_attack(Some(true), Some(2), Some(2), Some(0), 5),
        UnitBasicAttackVerdict::TurnActionUsed
    );
    assert_eq!(
        check_unit_basic_attack(Some(false), Some(2), Some(2), Some(0), 5),
        UnitBasicAttackVerdict::DeployedThisRound
    );
}

#[test]
fn more_energy_keeps_an_attack_possible() {
    for energy in 3..10 {
        for required in -2..=3 {
            assert!(check_unit_basic_attack(Some(false), Some(1), Some(2), Some(energy), required)
                .is_possible());
        }
    }
}

#[test]
fn unknown_unit_never_attacks() {
    for round in [None, Some(-1), Some(0), Some(5)] {
        assert!(!check_unit_basic_attack(None, None, round, None, -100).is_possible());
    }
}

#[test]
fn mulligan_monitor_stops_when_both_finished() {
    assert_eq!(
        next_mulligan_monitor_step(true, true),
        MulliganMonitorStep::Finish { wait_ms: MULLIGAN_FINISHED_WAIT_MS }
    );
    assert_eq!(MULLIGAN_FINISHED_WAIT_MS, 2000);
}

#[test]
fn mulligan_monitor_keeps_watching_otherwise() {
    for (first, second) in [(true, false), (false, true), (false, false)] {
        assert_eq!(
            next_mulligan_monitor_step(first, second),
            MulliganMonitorStep::KeepWatching { wait_ms: MULLIGAN_RECHECK_WAIT_MS }
        );
    }
    assert_eq!(MULLIGAN_RECHECK_WAIT_MS, 3000);
}
