use vstd::prelude::*;

verus! {

/// What stands in for a round number or an energy count that could not be
/// looked up.
pub const MISSING_NUMBER: i32 = -1;

/// The outcome of checking whether a field unit may make a basic attack,
/// with the first check that failed.
#[derive(Debug, Clone, Copy, PartialEq, Eq, Structural)]
pub enum UnitBasicAttackVerdict {
    /// Every check passed.
    Possible,
    /// The unit has already acted this turn, or its turn state is unknown.
    TurnActionUsed,
    /// The unit was summoned in the player's current round.
    DeployedThisRound,
    /// The unit holds less energy than the basic attack needs.
    NotEnoughEnergy,
}

impl UnitBasicAttackVerdict {
    pub open spec fn spec_is_possible(self) -> bool {
        self == UnitBasicAttackVerdict::Possible
    }

    /// Whether the verdict allows the attack.
    pub fn is_possible(&self) -> (possible: bool)
        ensures
            possible == self.spec_is_possible(),
    {
        match self {
            UnitBasicAttackVerdict::Possible => true,
            _ => false,
        }
    }
}

/// A looked-up number, or `MISSING_NUMBER` where the lookup found nothing.
pub open spec fn number_or_missing(looked_up: Option<i32>) -> i32 {
    match looked_up {
        Some(n) => n,
        None => MISSING_NUMBER,
    }
}

/// The verdict on a basic attack, from what was looked up of the unit and
/// of its player. The checks come in order: the unit's turn action (an
/// unknown one counts as used), then the round it was deployed in against
/// the player's current round, then its energy against what the attack
/// needs; the first that fails is the verdict.
pub open spec fn spec_unit_basic_attack_verdict(
    turn_action: Option<bool>,
    field_unit_deployed_round: Option<i32>,
    player_current_round: Option<i32>,
    total_energy_count_of_field_unit: Option<i32>,
    basic_attack_required_energy_count: i32,
) -> UnitBasicAttackVerdict {
    if turn_action != Some(false) {
        UnitBasicAttackVerdict::TurnActionUsed
    } else if number_or_missing(player_current_round) == number_or_missing(
        field_unit_deployed_round,
    ) {
        UnitBasicAttackVerdict::DeployedThisRound
    } else if basic_attack_required_energy_count > number_or_missing(
        total_energy_count_of_field_unit,
    ) {
        UnitBasicAttackVerdict::NotEnoughEnergy
    } else {
        UnitBasicAttackVerdict::Possible
    }
}

fn or_missing(looked_up: Option<i32>) -> (n: i32)
    ensures
        n == number_or_missing(looked_up),
{
    match looked_up {
        Some(n) => n,
        None => MISSING_NUMBER,
    }
}

/// Decides whether a field unit may make a basic attack now.
pub fn check_unit_basic_attack(
    turn_action: Option<bool>,
    field_unit_deployed_round: Option<i32>,
    player_current_round: Option<i32>,
    total_energy_count_of_field_unit: Option<i32>,
    basic_attack_required_energy_count: i32,
) -> (verdict: UnitBasicAttackVerdict)
    ensures
        verdict == spec_unit_basic_attack_verdict(
            turn_action,
            field_unit_deployed_round,
            player_current_round,
            total_energy_count_of_field_unit,
            basic_attack_required_energy_count,
        ),
{
    let turn_action_used = match turn_action {
        Some(used) => used,
        None => true,
    };
    if turn_action_used {
        return UnitBasicAttackVerdict::TurnActionUsed;
    }
    if or_missing(player_current_round) == or_missing(field_unit_deployed_round) {
        return UnitBasicAttackVerdict::DeployedThisRound;
    }
    if basic_attack_required_energy_count > or_missing(total_energy_count_of_field_unit) {
        return UnitBasicAttackVerdict::NotEnoughEnergy;
    }
    UnitBasicAttackVerdict::Possible
}

/// A basic attack is allowed exactly when the unit has not acted this turn,
/// was not deployed in the player's current round, and holds at least the
/// energy it needs.
pub proof fn lemma_possible_iff_all_checks_pass(
    turn_action: Option<bool>,
    field_unit_deployed_round: Option<i32>,
    player_current_round: Option<i32>,
    total_energy_count_of_field_unit: Option<i32>,
    basic_attack_required_energy_count: i32,
)
    ensures
        spec_unit_basic_attack_verdict(
            turn_action,
            field_unit_deployed_round,
            player_current_round,
            total_energy_count_of_field_unit,
            basic_attack_required_energy_count,
        ).spec_is_possible() <==> {
            &&& turn_action == Some(false)
            &&& number_or_missing(field_unit_deployed_round) != number_or_missing(
                player_current_round,
            )
            &&& basic_attack_required_energy_count <= number_or_missing(
                total_energy_count_of_field_unit,
            )
        },
{
}

/// A unit of which nothing could be looked up never attacks.
pub proof fn lemma_unknown_unit_never_attacks(
    player_current_round: Option<i32>,
    basic_attack_required_energy_count: i32,
)
    ensures
        !spec_unit_basic_attack_verdict(
            None,
            None,
            player_current_round,
            None,
            basic_attack_required_energy_count,
        ).spec_is_possible(),
{
}

/// More energy never takes away an attack that was allowed, and a cheaper
/// attack is allowed wherever a dearer one was.
pub proof fn lemma_energy_monotone(
    turn_action: Option<bool>,
    field_unit_deployed_round: Option<i32>,
    player_current_round: Option<i32>,
    energy: i32,
    more_energy: i32,
    required: i32,
    less_required: i32,
)
    requires
        energy <= more_energy,
        less_required <= required,
        spec_unit_basic_attack_verdict(
            turn_action,
            field_unit_deployed_round,
            player_current_round,
            Some(energy),
            required,
        ).spec_is_possible(),
    ensures
        spec_unit_basic_attack_verdict(
            turn_action,
            field_unit_deployed_round,
            player_current_round,
            Some(more_energy),
            less_required,
        ).spec_is_possible(),
{
}

/// A number that was found stands as itself; only a missing one stands
/// as -1.
pub proof fn lemma_looked_up_number_stands_as_itself(n: i32)
    ensures
        number_or_missing(Some(n)) == n,
        number_or_missing(None) == -1,
{
}

/// For a unit and player that were both found, the verdict compares the
/// looked-up values themselves: a unit that has acted is refused first, then
/// one deployed in the player's current round, then one whose energy is below
/// what the attack needs; any other may attack.
pub proof fn lemma_verdict_on_found_values(
    acted: bool,
    deployed_round: i32,
    current_round: i32,
    energy: i32,
    required: i32,
)
    ensures
        spec_unit_basic_attack_verdict(
            Some(acted),
            Some(deployed_round),
            Some(current_round),
            Some(energy),
            required,
        ) == (if acted {
            UnitBasicAttackVerdict::TurnActionUsed
        } else if deployed_round == current_round {
            UnitBasicAttackVerdict::DeployedThisRound
        } else if required > energy {
            UnitBasicAttackVerdict::NotEnoughEnergy
        } else {
            UnitBasicAttackVerdict::Possible
        }),
        spec_unit_basic_attack_verdict(
            Some(acted),
            Some(deployed_round),
            Some(current_round),
            Some(energy),
            required,
        ).spec_is_possible() <==> (!acted && deployed_round != current_round && required
            <= energy),
{
}

/// A turn state that could not be looked up counts as an action already
/// taken, and a round or an energy count that could not be looked up counts
/// as -1.
pub proof fn lemma_missing_values(
    turn_action: Option<bool>,
    field_unit_deployed_round: Option<i32>,
    player_current_round: Option<i32>,
    total_energy_count_of_field_unit: Option<i32>,
    required: i32,
)
    ensures
        spec_unit_basic_attack_verdict(
            None,
            field_unit_deployed_round,
            player_current_round,
            total_energy_count_of_field_unit,
            required,
        ) == UnitBasicAttackVerdict::TurnActionUsed,
        spec_unit_basic_attack_verdict(
            turn_action,
            None,
            player_current_round,
            total_energy_count_of_field_unit,
            required,
        ) == spec_unit_basic_attack_verdict(
            turn_action,
            Some(-1i32),
            player_current_round,
            total_energy_count_of_field_unit,
            required,
        ),
        spec_unit_basic_attack_verdict(
            turn_action,
            field_unit_deployed_round,
            None,
            total_energy_count_of_field_unit,
            required,
        ) == spec_unit_basic_attack_verdict(
            turn_action,
            field_unit_deployed_round,
            Some(-1i32),
            total_energy_count_of_field_unit,
            required,
        ),
        spec_unit_basic_attack_verdict(
            turn_action,
            field_unit_deployed_round,
            player_current_round,
            None,
            required,
        ) == spec_unit_basic_attack_verdict(
            turn_action,
            field_unit_deployed_round,
            player_current_round,
            Some(-1i32),
            required,
        ),
{
}

} // verus!
