//! The fixed-point battery solver.
//!
//! Batteries add mass, mass adds to the propellant that a target needs, and
//! propellant adds to the energy, hence the batteries, that the burn needs.
//! The solver starts from no battery and raises the count to the demand of
//! the stage as it then stands, until the stage carries what it demands.

use vstd::prelude::*;
use crate::demand::{battery_demand, batteries_for_propellant, get_number_of_batteries, lemma_batteries_monotonic, max_propellant, maximum_propellant, required_batteries_for_xenon, required_propellant};
use crate::laws::law_fixed_point;
use crate::mass::wet_mass;
use crate::stage::{ConfigError, Stage, COUNT_LIMIT, PROPELLANT_BOUND, QUANTITY_LIMIT};

verus! {

/// The number of battery counts that the solver tries before it gives up.
pub const ITERATION_LIMIT: u32 = 100;

/// Why the solver returned no battery count.
#[derive(Clone, Copy, Debug, PartialEq, Eq, Structural)]
pub enum SizingError {
    /// The request was refused before any trial.
    InvalidConfiguration(ConfigError),
    /// At some trial the required propellant exceeded the maximum.
    CapacityInfeasible,
    /// The trials were used up before the count met its own demand.
    NonConvergence,
}

/// The fault of a tank count, if it has one: a count of zero or above the
/// limit, or a maximum propellant that takes more batteries than the limit.
pub open spec fn tank_fault(stage: Stage, tank_num: nat) -> Option<ConfigError> {
    if tank_num == 0 || tank_num > COUNT_LIMIT {
        Some(ConfigError::TankCount)
    } else if batteries_for_propellant(stage, max_propellant(stage, tank_num)) > COUNT_LIMIT {
        Some(ConfigError::BatteryDemand)
    } else {
        None
    }
}

/// The fault of a request, if it has one: that of the tank count, else the
/// dead weight. No target has a fault.
pub open spec fn request_error(
    stage: Stage,
    tank_num: nat,
    target_dv: nat,
    added_dead_weight: nat,
) -> Option<ConfigError> {
    if tank_fault(stage, tank_num) is Some {
        tank_fault(stage, tank_num)
    } else if added_dead_weight > QUANTITY_LIMIT {
        Some(ConfigError::DeadWeight)
    } else {
        None
    }
}

/// The battery demand of the stage with `battery_num` batteries, its tanks
/// against the maximum propellant of `tank_num` tanks.
pub open spec fn demand_at(
    stage: Stage,
    tank_num: nat,
    target_dv: nat,
    added_dead_weight: nat,
    battery_num: nat,
) -> Option<nat> {
    battery_demand(
        stage,
        tank_num,
        battery_num,
        target_dv,
        max_propellant(stage, tank_num),
        added_dead_weight,
    )
}

/// Whether the stage with `battery_num` batteries carries what it demands.
pub open spec fn self_consistent(
    stage: Stage,
    tank_num: nat,
    target_dv: nat,
    added_dead_weight: nat,
    battery_num: nat,
) -> bool {
    demand_at(stage, tank_num, target_dv, added_dead_weight, battery_num) is Some && demand_at(
        stage,
        tank_num,
        target_dv,
        added_dead_weight,
        battery_num,
    )->0 <= battery_num
}

/// The search from the trial count `current` with `trials_left` trials to go:
/// infeasible where the demand is, the demand itself where `current` meets it,
/// else the search from the demand with one trial fewer.
pub open spec fn search(
    stage: Stage,
    tank_num: nat,
    target_dv: nat,
    added_dead_weight: nat,
    current: nat,
    trials_left: nat,
) -> Result<nat, SizingError>
    decreases trials_left,
{
    if trials_left == 0 {
        Err(SizingError::NonConvergence)
    } else {
        match demand_at(stage, tank_num, target_dv, added_dead_weight, current) {
            None => Err(SizingError::CapacityInfeasible),
            Some(new) => if current >= new {
                Ok(new)
            } else {
                search(
                    stage,
                    tank_num,
                    target_dv,
                    added_dead_weight,
                    new,
                    (trials_left - 1) as nat,
                )
            },
        }
    }
}

/// What the solver returns: the fault of the request, or the search from no
/// battery with the full number of trials.
pub open spec fn minimum_batteries(
    stage: Stage,
    tank_num: nat,
    target_dv: nat,
    added_dead_weight: nat,
) -> Result<nat, SizingError> {
    match request_error(stage, tank_num, target_dv, added_dead_weight) {
        Some(e) => Err(SizingError::InvalidConfiguration(e)),
        None => search(stage, tank_num, target_dv, added_dead_weight, 0, ITERATION_LIMIT as nat),
    }
}

/// Whether `r` is what the solver returns.
pub open spec fn is_solution(
    stage: Stage,
    tank_num: nat,
    target_dv: nat,
    added_dead_weight: nat,
    r: Result<u32, SizingError>,
) -> bool {
    match r {
        Ok(n) => minimum_batteries(stage, tank_num, target_dv, added_dead_weight) == Ok::<
            nat,
            SizingError,
        >(n as nat),
        Err(e) => minimum_batteries(stage, tank_num, target_dv, added_dead_weight) == Err::<
            nat,
            SizingError,
        >(e),
    }
}

/// Checks a tank count.
pub fn check_tank_num(stage: &Stage, tank_num: u32) -> (fault: Option<ConfigError>)
    ensures
        fault == tank_fault(*stage, tank_num as nat),
{
    if tank_num == 0 || tank_num > COUNT_LIMIT {
        return Some(ConfigError::TankCount);
    }
    let max_xenon: u128 = maximum_propellant(stage, tank_num);
    if required_batteries_for_xenon(stage, max_xenon) > COUNT_LIMIT as u128 {
        return Some(ConfigError::BatteryDemand);
    }
    None
}

/// Checks a request before any trial.
pub fn check_request(
    stage: &Stage,
    tank_num: u32,
    target_dv: u64,
    added_dead_weight: u64,
) -> (fault: Option<ConfigError>)
    ensures
        fault == request_error(
            *stage,
            tank_num as nat,
            target_dv as nat,
            added_dead_weight as nat,
        ),
{
    let fault = check_tank_num(stage, tank_num);
    if fault.is_some() {
        return fault;
    }
    if added_dead_weight > QUANTITY_LIMIT {
        return Some(ConfigError::DeadWeight);
    }
    None
}

/// No feasible demand exceeds the demand of the maximum propellant.
pub proof fn lemma_demand_bounded(
    stage: Stage,
    tank_num: nat,
    target_dv: nat,
    added_dead_weight: nat,
    battery_num: nat,
)
    requires
        stage.wf(),
    ensures
        demand_at(stage, tank_num, target_dv, added_dead_weight, battery_num) is Some ==> demand_at(
            stage,
            tank_num,
            target_dv,
            added_dead_weight,
            battery_num,
        )->0 <= batteries_for_propellant(stage, max_propellant(stage, tank_num)),
{
    let wet: nat = wet_mass(stage, tank_num, battery_num, added_dead_weight);
    if demand_at(stage, tank_num, target_dv, added_dead_weight, battery_num) is Some {
        lemma_batteries_monotonic(
            stage,
            required_propellant(stage, target_dv, wet),
            max_propellant(stage, tank_num),
        );
    }
}

/// The battery counts that the search tries from `current` on, in order.
pub open spec fn trial_counts(
    stage: Stage,
    tank_num: nat,
    target_dv: nat,
    added_dead_weight: nat,
    current: nat,
    trials_left: nat,
) -> Seq<nat>
    decreases trials_left,
{
    if trials_left == 0 {
        Seq::<nat>::empty()
    } else {
        match demand_at(stage, tank_num, target_dv, added_dead_weight, current) {
            None => seq![current],
            Some(new) => if current >= new {
                seq![current]
            } else {
                seq![current] + trial_counts(
                    stage,
                    tank_num,
                    target_dv,
                    added_dead_weight,
                    new,
                    (trials_left - 1) as nat,
                )
            },
        }
    }
}

/// The battery counts that the solver tries: none where the request has a
/// fault, else those of the search from no battery.
pub open spec fn observed_trials(
    stage: Stage,
    tank_num: nat,
    target_dv: nat,
    added_dead_weight: nat,
) -> Seq<nat> {
    if request_error(stage, tank_num, target_dv, added_dead_weight) is Some {
        Seq::<nat>::empty()
    } else {
        trial_counts(stage, tank_num, target_dv, added_dead_weight, 0, ITERATION_LIMIT as nat)
    }
}

/// The counts of a list of trials as natural numbers.
pub open spec fn counts(trials: Seq<u32>) -> Seq<nat> {
    trials.map_values(|c: u32| c as nat)
}

/// The smallest number of batteries with which the stage of `tank_num` tanks
/// and `added_dead_weight` carries the energy for the target `target_dv`,
/// together with the battery counts that were tried, in order.
pub fn solve_observed(
    stage: &Stage,
    tank_num: u32,
    target_dv: u64,
    added_dead_weight: u64,
) -> (r: (Result<u32, SizingError>, Vec<u32>))
    ensures
        is_solution(*stage, tank_num as nat, target_dv as nat, added_dead_weight as nat, r.0),
        r.0 is Ok ==> r.0->Ok_0 <= COUNT_LIMIT && demand_at(
            *stage,
            tank_num as nat,
            target_dv as nat,
            added_dead_weight as nat,
            r.0->Ok_0 as nat,
        ) == Some(r.0->Ok_0 as nat),
        counts(r.1@) == observed_trials(
            *stage,
            tank_num as nat,
            target_dv as nat,
            added_dead_weight as nat,
        ),
{
    let mut observed: Vec<u32> = Vec::new();
    match check_request(stage, tank_num, target_dv, added_dead_weight) {
        Some(e) => {
            assert(counts(observed@) =~= Seq::<nat>::empty());
            return (Err(SizingError::InvalidConfiguration(e)), observed);
        },
        None => {},
    }
    stage.validity();
    assert(counts(observed@) =~= Seq::<nat>::empty());
    let max_xenon: u128 = maximum_propellant(stage, tank_num);
    let mut current_batteries: u32 = 0;
    let mut trials: u32 = 0;
    while trials < ITERATION_LIMIT
        invariant
            stage.wf(),
            trials <= ITERATION_LIMIT,
            current_batteries <= COUNT_LIMIT,
            max_xenon == max_propellant(*stage, tank_num as nat),
            max_xenon <= PROPELLANT_BOUND,
            request_error(*stage, tank_num as nat, target_dv as nat, added_dead_weight as nat)
                is None,
            minimum_batteries(
                *stage,
                tank_num as nat,
                target_dv as nat,
                added_dead_weight as nat,
            ) == search(
                *stage,
                tank_num as nat,
                target_dv as nat,
                added_dead_weight as nat,
                current_batteries as nat,
                (ITERATION_LIMIT - trials) as nat,
            ),
            observed_trials(
                *stage,
                tank_num as nat,
                target_dv as nat,
                added_dead_weight as nat,
            ) == counts(observed@) + trial_counts(
                *stage,
                tank_num as nat,
                target_dv as nat,
                added_dead_weight as nat,
                current_batteries as nat,
                (ITERATION_LIMIT - trials) as nat,
            ),
        decreases ITERATION_LIMIT - trials,
    {
        let ghost before: Seq<nat> = counts(observed@);
        let ghost current: nat = current_batteries as nat;
        observed.push(current_batteries);
        assert(counts(observed@) =~= before + seq![current]);
        let new_batteries = get_number_of_batteries(
            stage,
            tank_num,
            current_batteries,
            target_dv,
            max_xenon,
            added_dead_weight,
        );
        proof {
            lemma_demand_bounded(
                *stage,
                tank_num as nat,
                target_dv as nat,
                added_dead_weight as nat,
                current_batteries as nat,
            );
        }
        match new_batteries {
            None => {
                return (Err(SizingError::CapacityInfeasible), observed);
            },
            Some(new_batteries) => {
                if current_batteries as u128 >= new_batteries {
                    proof {
                        law_fixed_point(
                            *stage,
                            tank_num as nat,
                            target_dv as nat,
                            added_dead_weight as nat,
                        );
                    }
                    return (Ok(new_batteries as u32), observed);
                } else {
                    current_batteries = new_batteries as u32;
                    assert(before + (seq![current] + trial_counts(
                        *stage,
                        tank_num as nat,
                        target_dv as nat,
                        added_dead_weight as nat,
                        current_batteries as nat,
                        (ITERATION_LIMIT - trials - 1) as nat,
                    )) =~= (before + seq![current]) + trial_counts(
                        *stage,
                        tank_num as nat,
                        target_dv as nat,
                        added_dead_weight as nat,
                        current_batteries as nat,
                        (ITERATION_LIMIT - trials - 1) as nat,
                    ));
                }
            },
        }
        trials = trials + 1;
    }
    assert(counts(observed@) + Seq::<nat>::empty() =~= counts(observed@));
    (Err(SizingError::NonConvergence), observed)
}

/// The smallest number of batteries with which the stage of `tank_num` tanks
/// and `added_dead_weight` carries the energy for the target `target_dv`.
pub fn solve(
    stage: &Stage,
    tank_num: u32,
    target_dv: u64,
    added_dead_weight: u64,
) -> (r: Result<u32, SizingError>)
    ensures
        is_solution(*stage, tank_num as nat, target_dv as nat, added_dead_weight as nat, r),
        r is Ok ==> r->Ok_0 <= COUNT_LIMIT && demand_at(
            *stage,
            tank_num as nat,
            target_dv as nat,
            added_dead_weight as nat,
            r->Ok_0 as nat,
        ) == Some(r->Ok_0 as nat),
{
    solve_observed(stage, tank_num, target_dv, added_dead_weight).0
}

} // verus!
