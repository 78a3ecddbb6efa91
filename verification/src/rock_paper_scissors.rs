use vstd::prelude::*;

verus! {

/// A hand of rock-paper-scissors.
#[derive(Debug, Clone, Copy, PartialEq, Eq, Structural)]
pub enum RockPaperScissorsChoice {
    Rock,
    Paper,
    Scissors,
}

pub open spec fn rock_text() -> Seq<char> {
    seq!['R', 'o', 'c', 'k']
}

pub open spec fn paper_text() -> Seq<char> {
    seq!['P', 'a', 'p', 'e', 'r']
}

pub open spec fn scissors_text() -> Seq<char> {
    seq!['S', 'c', 'i', 's', 's', 'o', 'r', 's']
}

/// The text that a winner is answered with.
pub open spec fn win_text() -> Seq<char> {
    seq!['W', 'I', 'N']
}

/// The text that anyone who did not win is answered with.
pub open spec fn lose_text() -> Seq<char> {
    seq!['L', 'O', 'S', 'E']
}

/// The hand that a stored choice names: exactly "Rock", "Paper" or
/// "Scissors"; any other text names none.
pub open spec fn spec_choice_of_text(text: Seq<char>) -> Option<RockPaperScissorsChoice> {
    if text == rock_text() {
        Some(RockPaperScissorsChoice::Rock)
    } else if text == paper_text() {
        Some(RockPaperScissorsChoice::Paper)
    } else if text == scissors_text() {
        Some(RockPaperScissorsChoice::Scissors)
    } else {
        None
    }
}

/// Rock beats scissors, paper beats rock, scissors beat paper.
pub open spec fn spec_beats(mine: RockPaperScissorsChoice, theirs: RockPaperScissorsChoice) -> bool {
    match (mine, theirs) {
        (RockPaperScissorsChoice::Rock, RockPaperScissorsChoice::Scissors) => true,
        (RockPaperScissorsChoice::Paper, RockPaperScissorsChoice::Rock) => true,
        (RockPaperScissorsChoice::Scissors, RockPaperScissorsChoice::Paper) => true,
        _ => false,
    }
}

/// A player wins when both texts name hands and theirs beats the opponent's;
/// a draw, or a text that names no hand, is no win.
pub open spec fn spec_am_i_win(my_choice: Seq<char>, opponent_choice: Seq<char>) -> bool {
    match (spec_choice_of_text(my_choice), spec_choice_of_text(opponent_choice)) {
        (Some(mine), Some(theirs)) => spec_beats(mine, theirs),
        _ => false,
    }
}

/// Whether `text` holds exactly the characters of `expected`.
fn text_equals(text: &str, expected: &str) -> (equal: bool)
    ensures
        equal == (text@ == expected@),
{
    let len = text.unicode_len();
    if len != expected.unicode_len() {
        return false;
    }
    let mut i: usize = 0;
    while i < len
        invariant
            len == text@.len(),
            len == expected@.len(),
            i <= len,
            forall|k: int| 0 <= k < i ==> text@[k] == expected@[k],
        decreases len - i,
    {
        if text.get_char(i) != expected.get_char(i) {
            return false;
        }
        i = i + 1;
    }
    assert(text@ =~= expected@);
    true
}

/// The hand that a stored choice names, if any.
pub fn choice_of_text(text: &str) -> (choice: Option<RockPaperScissorsChoice>)
    ensures
        choice == spec_choice_of_text(text@),
{
    proof {
        reveal_strlit("Rock");
        reveal_strlit("Paper");
        reveal_strlit("Scissors");
        assert("Rock"@ =~= rock_text());
        assert("Paper"@ =~= paper_text());
        assert("Scissors"@ =~= scissors_text());
    }
    if text_equals(text, "Rock") {
        Some(RockPaperScissorsChoice::Rock)
    } else if text_equals(text, "Paper") {
        Some(RockPaperScissorsChoice::Paper)
    } else if text_equals(text, "Scissors") {
        Some(RockPaperScissorsChoice::Scissors)
    } else {
        None
    }
}

/// Whether `mine` beats `theirs`.
pub fn beats(mine: RockPaperScissorsChoice, theirs: RockPaperScissorsChoice) -> (wins: bool)
    ensures
        wins == spec_beats(mine, theirs),
{
    match (mine, theirs) {
        (RockPaperScissorsChoice::Rock, RockPaperScissorsChoice::Scissors) => true,
        (RockPaperScissorsChoice::Paper, RockPaperScissorsChoice::Rock) => true,
        (RockPaperScissorsChoice::Scissors, RockPaperScissorsChoice::Paper) => true,
        _ => false,
    }
}

/// Whether the player whose stored choice is `my_choice` wins against
/// `opponent_choice`.
pub fn am_i_win(my_choice: &str, opponent_choice: &str) -> (wins: bool)
    ensures
        wins == spec_am_i_win(my_choice@, opponent_choice@),
{
    match (choice_of_text(my_choice), choice_of_text(opponent_choice)) {
        (Some(mine), Some(theirs)) => beats(mine, theirs),
        _ => false,
    }
}

/// A change to the game that deciding a rock-paper-scissors round calls for.
#[derive(Debug, Clone, Copy, PartialEq, Eq, Structural)]
pub enum RockPaperScissorsEffect {
    /// The player takes the next game turn.
    NextGameTurn { account_unique_id: i32 },
    /// The player's field energy grows by `amount`.
    AddFieldEnergy { account_unique_id: i32, amount: i32 },
    /// The player draws `count` cards from their deck.
    DrawDeckCard { account_unique_id: i32, count: i32 },
}

/// What the winner check answers a player, and the changes it makes first.
#[derive(Debug)]
pub struct RockPaperScissorsWinnerDecision {
    /// "WIN" or "LOSE".
    pub result: String,
    /// The changes to make, in this order, before answering.
    pub effects: Vec<RockPaperScissorsEffect>,
}

/// The changes that a round's outcome calls for: a winner takes the next
/// turn, one field energy and one card; anyone else gets nothing.
pub open spec fn spec_winner_effects(account_unique_id: i32, wins: bool) -> Seq<RockPaperScissorsEffect> {
    if wins {
        seq![
            RockPaperScissorsEffect::NextGameTurn { account_unique_id },
            RockPaperScissorsEffect::AddFieldEnergy { account_unique_id, amount: 1 },
            RockPaperScissorsEffect::DrawDeckCard { account_unique_id, count: 1 },
        ]
    } else {
        seq![]
    }
}

/// The answer for a round's outcome.
pub open spec fn spec_winner_result(wins: bool) -> Seq<char> {
    if wins {
        win_text()
    } else {
        lose_text()
    }
}

/// Decides the rock-paper-scissors round of `account_unique_id`, whose
/// stored choice is `my_choice`, against the opponent's stored choice.
pub fn decide_rock_paper_scissors_winner(
    account_unique_id: i32,
    my_choice: &str,
    opponent_choice: &str,
) -> (decision: RockPaperScissorsWinnerDecision)
    ensures
        decision.result@ == spec_winner_result(spec_am_i_win(my_choice@, opponent_choice@)),
        decision.effects@ == spec_winner_effects(
            account_unique_id,
            spec_am_i_win(my_choice@, opponent_choice@),
        ),
{
    let wins = am_i_win(my_choice, opponent_choice);
    let mut effects: Vec<RockPaperScissorsEffect> = Vec::new();
    if wins {
        effects.push(RockPaperScissorsEffect::NextGameTurn { account_unique_id });
        effects.push(RockPaperScissorsEffect::AddFieldEnergy { account_unique_id, amount: 1 });
        effects.push(RockPaperScissorsEffect::DrawDeckCard { account_unique_id, count: 1 });
        proof {
            reveal_strlit("WIN");
            assert("WIN"@ =~= win_text());
            assert(effects@ =~= spec_winner_effects(account_unique_id, wins));
        }
        RockPaperScissorsWinnerDecision { result: String::from_str("WIN"), effects }
    } else {
        proof {
            reveal_strlit("LOSE");
            assert("LOSE"@ =~= lose_text());
            assert(effects@ =~= spec_winner_effects(account_unique_id, wins));
        }
        RockPaperScissorsWinnerDecision { result: String::from_str("LOSE"), effects }
    }
}

/// Two players are never both winners of one round.
pub proof fn lemma_no_mutual_win(first_choice: Seq<char>, second_choice: Seq<char>)
    ensures
        !(spec_am_i_win(first_choice, second_choice) && spec_am_i_win(second_choice, first_choice)),
{
}

/// A player who chose the same hand as the opponent does not win.
pub proof fn lemma_draw_is_no_win(my_choice: Seq<char>, opponent_choice: Seq<char>)
    requires
        spec_choice_of_text(my_choice) == spec_choice_of_text(opponent_choice),
    ensures
        !spec_am_i_win(my_choice, opponent_choice),
{
}

/// Of two players whose texts name different hands, exactly one wins.
pub proof fn lemma_different_hands_have_one_winner(first_choice: Seq<char>, second_choice: Seq<char>)
    requires
        spec_choice_of_text(first_choice) is Some,
        spec_choice_of_text(second_choice) is Some,
        spec_choice_of_text(first_choice) != spec_choice_of_text(second_choice),
    ensures
        spec_am_i_win(first_choice, second_choice) != spec_am_i_win(second_choice, first_choice),
{
}

/// A player whose text, or whose opponent's text, names no hand does not win.
pub proof fn lemma_unknown_choice_is_no_win(my_choice: Seq<char>, opponent_choice: Seq<char>)
    requires
        spec_choice_of_text(my_choice) is None || spec_choice_of_text(opponent_choice) is None,
    ensures
        !spec_am_i_win(my_choice, opponent_choice),
{
}

/// Each hand beats exactly one hand and is beaten by exactly one other.
pub proof fn lemma_each_hand_beats_exactly_one(hand: RockPaperScissorsChoice)
    ensures
        exists|other: RockPaperScissorsChoice| #[trigger] spec_beats(hand, other),
        forall|a: RockPaperScissorsChoice, b: RockPaperScissorsChoice|
            spec_beats(hand, a) && spec_beats(hand, b) ==> a == b,
        exists|other: RockPaperScissorsChoice| #[trigger] spec_beats(other, hand),
        forall|a: RockPaperScissorsChoice, b: RockPaperScissorsChoice|
            spec_beats(a, hand) && spec_beats(b, hand) ==> a == b,
{
    match hand {
        RockPaperScissorsChoice::Rock => {
            assert(spec_beats(hand, RockPaperScissorsChoice::Scissors));
            assert(spec_beats(RockPaperScissorsChoice::Paper, hand));
        },
        RockPaperScissorsChoice::Paper => {
            assert(spec_beats(hand, RockPaperScissorsChoice::Rock));
            assert(spec_beats(RockPaperScissorsChoice::Scissors, hand));
        },
        RockPaperScissorsChoice::Scissors => {
            assert(spec_beats(hand, RockPaperScissorsChoice::Paper));
            assert(spec_beats(RockPaperScissorsChoice::Rock, hand));
        },
    }
}

/// Only a winner's round changes the game: the changes are made exactly when
/// the answer is "WIN".
pub proof fn lemma_rewards_only_for_winner(account_unique_id: i32, wins: bool)
    ensures
        (spec_winner_effects(account_unique_id, wins).len() > 0) == (spec_winner_result(wins)
            == win_text()),
{
    assert(lose_text() != win_text()) by {
        assert(lose_text().len() != win_text().len());
    }
}

/// A player wins exactly with "Rock" against "Scissors", "Paper" against
/// "Rock", or "Scissors" against "Paper", each spelt exactly so; every other
/// pair of texts is no win.
pub proof fn lemma_winning_texts(my_choice: Seq<char>, opponent_choice: Seq<char>)
    ensures
        spec_am_i_win(my_choice, opponent_choice) <==> {
            ||| my_choice == seq!['R', 'o', 'c', 'k'] && opponent_choice == seq![
                'S',
                'c',
                'i',
                's',
                's',
                'o',
                'r',
                's',
            ]
            ||| my_choice == seq!['P', 'a', 'p', 'e', 'r'] && opponent_choice == seq![
                'R',
                'o',
                'c',
                'k',
            ]
            ||| my_choice == seq!['S', 'c', 'i', 's', 's', 'o', 'r', 's'] && opponent_choice
                == seq!['P', 'a', 'p', 'e', 'r']
        },
{
    assert(rock_text() != paper_text()) by {
        assert(rock_text().len() != paper_text().len());
    }
    assert(rock_text() != scissors_text()) by {
        assert(rock_text().len() != scissors_text().len());
    }
    assert(paper_text() != scissors_text()) by {
        assert(paper_text().len() != scissors_text().len());
    }
}

/// Whatever the account, a winning round answers "WIN" and gives that same
/// account exactly the next turn, one field energy and one card, in this
/// order; a round that is not won answers "LOSE" and changes nothing.
pub proof fn lemma_winner_rewards(account_unique_id: i32, wins: bool)
    ensures
        wins ==> spec_winner_result(wins) == seq!['W', 'I', 'N'],
        wins ==> spec_winner_effects(account_unique_id, wins) == seq![
            RockPaperScissorsEffect::NextGameTurn { account_unique_id },
            RockPaperScissorsEffect::AddFieldEnergy { account_unique_id, amount: 1 },
            RockPaperScissorsEffect::DrawDeckCard { account_unique_id, count: 1 },
        ],
        !wins ==> spec_winner_result(wins) == seq!['L', 'O', 'S', 'E'],
        !wins ==> spec_winner_effects(account_unique_id, wins).len() == 0,
{
}

} // verus!
