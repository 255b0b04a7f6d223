//! What holds of the solver's result: it is the smallest battery count that
//! meets its own demand, and it follows the target and the tank count.

use vstd::prelude::*;
use crate::demand::{lemma_battery_demand_order, lemma_feasible_reaches, max_propellant, required_propellant, DENSITY_UNIT};
use crate::mass::{dry_mass, wet_mass};
use crate::performance::reaches;
use crate::solver::{demand_at, is_solution, minimum_batteries, observed_trials, request_error, search, self_consistent, trial_counts, SizingError, ITERATION_LIMIT};
use crate::stage::Stage;

verus! {

/// Whether the demand at no battery count up to `barrier` exceeds `barrier`.
pub open spec fn closed_below(
    stage: Stage,
    tank_num: nat,
    target_dv: nat,
    added_dead_weight: nat,
    barrier: nat,
) -> bool {
    forall|c: nat|
        c <= barrier && (#[trigger] demand_at(stage, tank_num, target_dv, added_dead_weight, c))
            is Some ==> demand_at(stage, tank_num, target_dv, added_dead_weight, c)->0 <= barrier
}

/// Whether the demand is feasible at every battery count up to `barrier`.
pub open spec fn feasible_below(
    stage: Stage,
    tank_num: nat,
    target_dv: nat,
    added_dead_weight: nat,
    barrier: nat,
) -> bool {
    forall|c: nat|
        c <= barrier ==> (#[trigger] demand_at(stage, tank_num, target_dv, added_dead_weight, c))
            is Some
}

/// A search ends in a battery count, in a lack of capacity or in a lack of
/// trials.
pub proof fn lemma_search_outcomes(
    stage: Stage,
    tank_num: nat,
    target_dv: nat,
    added_dead_weight: nat,
    current: nat,
    trials_left: nat,
)
    ensures
        search(stage, tank_num, target_dv, added_dead_weight, current, trials_left) is Ok
            || search(stage, tank_num, target_dv, added_dead_weight, current, trials_left)
            == Err::<nat, SizingError>(SizingError::CapacityInfeasible) || search(
            stage,
            tank_num,
            target_dv,
            added_dead_weight,
            current,
            trials_left,
        ) == Err::<nat, SizingError>(SizingError::NonConvergence),
    decreases trials_left,
{
    if trials_left > 0 {
        match demand_at(stage, tank_num, target_dv, added_dead_weight, current) {
            None => {},
            Some(new) => {
                if current < new {
                    lemma_search_outcomes(
                        stage,
                        tank_num,
                        target_dv,
                        added_dead_weight,
                        new,
                        (trials_left - 1) as nat,
                    );
                }
            },
        }
    }
}

/// A search that starts at or below a barrier which the demand never crosses
/// ends at or below it, fails for capacity only where some demand below the
/// barrier is infeasible, and converges if it has more trials than there are
/// counts between its start and the barrier.
pub proof fn lemma_search_below(
    stage: Stage,
    tank_num: nat,
    target_dv: nat,
    added_dead_weight: nat,
    current: nat,
    trials_left: nat,
    barrier: nat,
)
    requires
        current <= barrier,
        closed_below(stage, tank_num, target_dv, added_dead_weight, barrier),
    ensures
        search(stage, tank_num, target_dv, added_dead_weight, current, trials_left) is Ok
            ==> search(stage, tank_num, target_dv, added_dead_weight, current, trials_left)->Ok_0
            <= barrier,
        feasible_below(stage, tank_num, target_dv, added_dead_weight, barrier) ==> search(
            stage,
            tank_num,
            target_dv,
            added_dead_weight,
            current,
            trials_left,
        ) != Err::<nat, SizingError>(SizingError::CapacityInfeasible),
        trials_left > barrier - current ==> search(
            stage,
            tank_num,
            target_dv,
            added_dead_weight,
            current,
            trials_left,
        ) != Err::<nat, SizingError>(SizingError::NonConvergence),
    decreases trials_left,
{
    if trials_left > 0 {
        match demand_at(stage, tank_num, target_dv, added_dead_weight, current) {
            None => {},
            Some(new) => {
                if current < new {
                    lemma_search_below(
                        stage,
                        tank_num,
                        target_dv,
                        added_dead_weight,
                        new,
                        (trials_left - 1) as nat,
                        barrier,
                    );
                }
            },
        }
    }
}

/// A search that starts at a count not above its own demand ends, where it
/// converges, at a count that equals its own demand.
pub proof fn lemma_search_ascending(
    stage: Stage,
    tank_num: nat,
    target_dv: nat,
    added_dead_weight: nat,
    current: nat,
    trials_left: nat,
)
    requires
        stage.wf(),
        demand_at(stage, tank_num, target_dv, added_dead_weight, current) is Some ==> current
            <= demand_at(stage, tank_num, target_dv, added_dead_weight, current)->0,
    ensures
        search(stage, tank_num, target_dv, added_dead_weight, current, trials_left) is Ok ==> {
            let n = search(
                stage,
                tank_num,
                target_dv,
                added_dead_weight,
                current,
                trials_left,
            )->Ok_0;
            current <= n && demand_at(stage, tank_num, target_dv, added_dead_weight, n) == Some(n)
        },
    decreases trials_left,
{
    if trials_left > 0 {
        match demand_at(stage, tank_num, target_dv, added_dead_weight, current) {
            None => {},
            Some(new) => {
                if current < new {
                    let max: nat = max_propellant(stage, tank_num);
                    lemma_battery_demand_order(
                        stage,
                        tank_num,
                        tank_num,
                        current,
                        new,
                        target_dv,
                        target_dv,
                        max,
                        max,
                        added_dead_weight,
                        added_dead_weight,
                    );
                    lemma_search_ascending(
                        stage,
                        tank_num,
                        target_dv,
                        added_dead_weight,
                        new,
                        (trials_left - 1) as nat,
                    );
                }
            },
        }
    }
}

/// The demand never crosses a battery count that meets its own demand, and is
/// feasible everywhere below it.
pub proof fn lemma_self_consistent_is_barrier(
    stage: Stage,
    tank_num: nat,
    target_dv: nat,
    added_dead_weight: nat,
    battery_num: nat,
)
    requires
        stage.wf(),
        self_consistent(stage, tank_num, target_dv, added_dead_weight, battery_num),
    ensures
        closed_below(stage, tank_num, target_dv, added_dead_weight, battery_num),
        feasible_below(stage, tank_num, target_dv, added_dead_weight, battery_num),
{
    let max: nat = max_propellant(stage, tank_num);
    assert forall|c: nat| c <= battery_num implies (#[trigger] demand_at(
        stage,
        tank_num,
        target_dv,
        added_dead_weight,
        c,
    )) is Some && demand_at(stage, tank_num, target_dv, added_dead_weight, c)->0
        <= battery_num by {
        lemma_battery_demand_order(
            stage,
            tank_num,
            tank_num,
            c,
            battery_num,
            target_dv,
            target_dv,
            max,
            max,
            added_dead_weight,
            added_dead_weight,
        );
    }
}

/// The battery count that the solver returns meets its own demand exactly:
/// computed again for the stage with that many batteries, the required
/// propellant is within the maximum and the required battery count is the
/// same.
pub proof fn law_fixed_point(
    stage: Stage,
    tank_num: nat,
    target_dv: nat,
    added_dead_weight: nat,
)
    requires
        stage.wf(),
        minimum_batteries(stage, tank_num, target_dv, added_dead_weight) is Ok,
    ensures
        ({
            let n = minimum_batteries(stage, tank_num, target_dv, added_dead_weight)->Ok_0;
            &&& demand_at(stage, tank_num, target_dv, added_dead_weight, n) == Some(n)
            &&& self_consistent(stage, tank_num, target_dv, added_dead_weight, n)
            &&& required_propellant(
                stage,
                target_dv,
                wet_mass(stage, tank_num, n, added_dead_weight),
            ) <= max_propellant(stage, tank_num)
        }),
{
    lemma_search_ascending(
        stage,
        tank_num,
        target_dv,
        added_dead_weight,
        0,
        ITERATION_LIMIT as nat,
    );
}

/// Where the density is at most one kilogram per unit, the stage with the
/// battery count that the solver returns reaches the target.
pub proof fn law_reaches_target(
    stage: Stage,
    tank_num: nat,
    target_dv: nat,
    added_dead_weight: nat,
)
    requires
        stage.wf(),
        stage.tank().density <= DENSITY_UNIT,
        minimum_batteries(stage, tank_num, target_dv, added_dead_weight) is Ok,
    ensures
        ({
            let n = minimum_batteries(stage, tank_num, target_dv, added_dead_weight)->Ok_0;
            reaches(
                stage,
                target_dv,
                dry_mass(stage, tank_num, n, added_dead_weight),
                wet_mass(stage, tank_num, n, added_dead_weight),
            )
        }),
{
    law_fixed_point(stage, tank_num, target_dv, added_dead_weight);
    let n = minimum_batteries(stage, tank_num, target_dv, added_dead_weight)->Ok_0;
    lemma_feasible_reaches(stage, tank_num, n, target_dv, added_dead_weight);
}

/// The solver succeeds whenever the request has no fault and some battery
/// count below the number of trials meets its own demand.
pub proof fn law_self_consistent_below_limit(
    stage: Stage,
    tank_num: nat,
    target_dv: nat,
    added_dead_weight: nat,
    battery_num: nat,
)
    requires
        stage.wf(),
        request_error(stage, tank_num, target_dv, added_dead_weight) is None,
        self_consistent(stage, tank_num, target_dv, added_dead_weight, battery_num),
        battery_num < ITERATION_LIMIT,
    ensures
        minimum_batteries(stage, tank_num, target_dv, added_dead_weight) is Ok,
{
    lemma_self_consistent_is_barrier(stage, tank_num, target_dv, added_dead_weight, battery_num);
    lemma_search_below(
        stage,
        tank_num,
        target_dv,
        added_dead_weight,
        0,
        ITERATION_LIMIT as nat,
        battery_num,
    );
    lemma_search_outcomes(
        stage,
        tank_num,
        target_dv,
        added_dead_weight,
        0,
        ITERATION_LIMIT as nat,
    );
}

/// The solver succeeds exactly when one of the battery counts that it tries
/// is at least its own demand. It tries none where the request has a fault,
/// at most as many as it has trials, and none after one whose propellant
/// exceeds the maximum.
pub proof fn law_filled_iff_trials_meet(
    stage: Stage,
    tank_num: nat,
    target_dv: nat,
    added_dead_weight: nat,
)
    requires
        stage.wf(),
    ensures
        observed_trials(stage, tank_num, target_dv, added_dead_weight).len() <= ITERATION_LIMIT,
        minimum_batteries(stage, tank_num, target_dv, added_dead_weight) is Ok <==> exists|
            i: int,
        |
            0 <= i < observed_trials(stage, tank_num, target_dv, added_dead_weight).len()
                && self_consistent(
                stage,
                tank_num,
                target_dv,
                added_dead_weight,
                #[trigger] observed_trials(stage, tank_num, target_dv, added_dead_weight)[i],
            ),
{
    let trials = observed_trials(stage, tank_num, target_dv, added_dead_weight);
    if request_error(stage, tank_num, target_dv, added_dead_weight) is None {
        lemma_trials_of_failure(
            stage,
            tank_num,
            target_dv,
            added_dead_weight,
            0,
            ITERATION_LIMIT as nat,
        );
        if minimum_batteries(stage, tank_num, target_dv, added_dead_weight) is Ok {
            lemma_trials_end_self_consistent(
                stage,
                tank_num,
                target_dv,
                added_dead_weight,
                0,
                ITERATION_LIMIT as nat,
            );
            let last: int = trials.len() - 1;
            assert(self_consistent(stage, tank_num, target_dv, added_dead_weight, trials[last]));
        }
    }
}

/// A search makes at most as many trials as it was given, and where it fails
/// none of its trials is at least its own demand.
pub proof fn lemma_trials_of_failure(
    stage: Stage,
    tank_num: nat,
    target_dv: nat,
    added_dead_weight: nat,
    current: nat,
    trials_left: nat,
)
    ensures
        trial_counts(stage, tank_num, target_dv, added_dead_weight, current, trials_left).len()
            <= trials_left,
        search(stage, tank_num, target_dv, added_dead_weight, current, trials_left) is Err
            ==> forall|i: int|
            0 <= i < trial_counts(
                stage,
                tank_num,
                target_dv,
                added_dead_weight,
                current,
                trials_left,
            ).len() ==> !self_consistent(
                stage,
                tank_num,
                target_dv,
                added_dead_weight,
                #[trigger] trial_counts(
                    stage,
                    tank_num,
                    target_dv,
                    added_dead_weight,
                    current,
                    trials_left,
                )[i],
            ),
    decreases trials_left,
{
    if trials_left > 0 {
        match demand_at(stage, tank_num, target_dv, added_dead_weight, current) {
            None => {},
            Some(new) => {
                if current < new {
                    lemma_trials_of_failure(
                        stage,
                        tank_num,
                        target_dv,
                        added_dead_weight,
                        new,
                        (trials_left - 1) as nat,
                    );
                    let rest = trial_counts(
                        stage,
                        tank_num,
                        target_dv,
                        added_dead_weight,
                        new,
                        (trials_left - 1) as nat,
                    );
                    let all = trial_counts(
                        stage,
                        tank_num,
                        target_dv,
                        added_dead_weight,
                        current,
                        trials_left,
                    );
                    assert(all =~= seq![current] + rest);
                    if search(stage, tank_num, target_dv, added_dead_weight, current, trials_left)
                        is Err {
                        assert forall|i: int| 0 <= i < all.len() implies !self_consistent(
                            stage,
                            tank_num,
                            target_dv,
                            added_dead_weight,
                            #[trigger] all[i],
                        ) by {
                            if i > 0 {
                                assert(all[i] == rest[i - 1]);
                            }
                        }
                    }
                }
            },
        }
    }
}

/// Where a search converges, its trials are at most as many as it was given,
/// and the last of them is at least its own demand.
pub proof fn lemma_trials_end_self_consistent(
    stage: Stage,
    tank_num: nat,
    target_dv: nat,
    added_dead_weight: nat,
    current: nat,
    trials_left: nat,
)
    requires
        search(stage, tank_num, target_dv, added_dead_weight, current, trials_left) is Ok,
    ensures
        ({
            let trials = trial_counts(
                stage,
                tank_num,
                target_dv,
                added_dead_weight,
                current,
                trials_left,
            );
            &&& 0 < trials.len() <= trials_left
            &&& self_consistent(
                stage,
                tank_num,
                target_dv,
                added_dead_weight,
                trials[trials.len() - 1],
            )
        }),
    decreases trials_left,
{
    if trials_left > 0 {
        match demand_at(stage, tank_num, target_dv, added_dead_weight, current) {
            None => {},
            Some(new) => {
                if current < new {
                    lemma_trials_end_self_consistent(
                        stage,
                        tank_num,
                        target_dv,
                        added_dead_weight,
                        new,
                        (trials_left - 1) as nat,
                    );
                }
            },
        }
    }
}

/// The solver returns the smallest battery count that meets its own demand:
/// no count that does is below the result.
pub proof fn law_smallest(
    stage: Stage,
    tank_num: nat,
    target_dv: nat,
    added_dead_weight: nat,
    battery_num: nat,
)
    requires
        stage.wf(),
        minimum_batteries(stage, tank_num, target_dv, added_dead_weight) is Ok,
        self_consistent(stage, tank_num, target_dv, added_dead_weight, battery_num),
    ensures
        minimum_batteries(stage, tank_num, target_dv, added_dead_weight)->Ok_0 <= battery_num,
{
    lemma_self_consistent_is_barrier(stage, tank_num, target_dv, added_dead_weight, battery_num);
    lemma_search_below(
        stage,
        tank_num,
        target_dv,
        added_dead_weight,
        0,
        ITERATION_LIMIT as nat,
        battery_num,
    );
}

/// Where the solver reports that the propellant exceeds the maximum, no
/// battery count at all meets its own demand.
pub proof fn law_capacity_infeasible(
    stage: Stage,
    tank_num: nat,
    target_dv: nat,
    added_dead_weight: nat,
    battery_num: nat,
)
    requires
        stage.wf(),
        minimum_batteries(stage, tank_num, target_dv, added_dead_weight) == Err::<
            nat,
            SizingError,
        >(SizingError::CapacityInfeasible),
    ensures
        !self_consistent(stage, tank_num, target_dv, added_dead_weight, battery_num),
{
    if self_consistent(stage, tank_num, target_dv, added_dead_weight, battery_num) {
        lemma_self_consistent_is_barrier(
            stage,
            tank_num,
            target_dv,
            added_dead_weight,
            battery_num,
        );
        lemma_search_below(
            stage,
            tank_num,
            target_dv,
            added_dead_weight,
            0,
            ITERATION_LIMIT as nat,
            battery_num,
        );
    }
}

/// Where the solver runs out of trials, every battery count that meets its
/// own demand is at least the number of trials.
pub proof fn law_non_convergence(
    stage: Stage,
    tank_num: nat,
    target_dv: nat,
    added_dead_weight: nat,
    battery_num: nat,
)
    requires
        stage.wf(),
        minimum_batteries(stage, tank_num, target_dv, added_dead_weight) == Err::<
            nat,
            SizingError,
        >(SizingError::NonConvergence),
        self_consistent(stage, tank_num, target_dv, added_dead_weight, battery_num),
    ensures
        battery_num >= ITERATION_LIMIT,
{
    lemma_self_consistent_is_barrier(stage, tank_num, target_dv, added_dead_weight, battery_num);
    lemma_search_below(
        stage,
        tank_num,
        target_dv,
        added_dead_weight,
        0,
        ITERATION_LIMIT as nat,
        battery_num,
    );
}

/// The solver is a function of its inputs: two results for the same stage,
/// tank count, target and dead weight are equal.
pub proof fn law_deterministic(
    stage: Stage,
    tank_num: nat,
    target_dv: nat,
    added_dead_weight: nat,
    r1: Result<u32, SizingError>,
    r2: Result<u32, SizingError>,
)
    requires
        is_solution(stage, tank_num, target_dv, added_dead_weight, r1),
        is_solution(stage, tank_num, target_dv, added_dead_weight, r2),
    ensures
        r1 == r2,
{
}

/// Raising the target never makes an unachievable target achievable, but for
/// the case that the trials ran out: where the solver fails for a target for
/// another reason, it fails for every larger target.
pub proof fn law_unachievable_stays(
    stage: Stage,
    tank_num: nat,
    target_dv1: nat,
    target_dv2: nat,
    added_dead_weight: nat,
)
    requires
        stage.wf(),
        target_dv1 <= target_dv2,
        minimum_batteries(stage, tank_num, target_dv1, added_dead_weight) is Err,
        minimum_batteries(stage, tank_num, target_dv1, added_dead_weight) != Err::<
            nat,
            SizingError,
        >(SizingError::NonConvergence),
    ensures
        minimum_batteries(stage, tank_num, target_dv2, added_dead_weight) is Err,
{
    if minimum_batteries(stage, tank_num, target_dv2, added_dead_weight) is Ok {
        law_target_monotonic(stage, tank_num, target_dv1, target_dv2, added_dead_weight);
        lemma_search_outcomes(
            stage,
            tank_num,
            target_dv1,
            added_dead_weight,
            0,
            ITERATION_LIMIT as nat,
        );
    }
}

/// Raising the target never lowers the battery count: where the solver
/// succeeds for a target, for every smaller target it does not fail for
/// capacity, returns no larger a count where it succeeds, and succeeds
/// whenever the count for the larger target is below the number of trials.
pub proof fn law_target_monotonic(
    stage: Stage,
    tank_num: nat,
    target_dv1: nat,
    target_dv2: nat,
    added_dead_weight: nat,
)
    requires
        stage.wf(),
        target_dv1 <= target_dv2,
        minimum_batteries(stage, tank_num, target_dv2, added_dead_weight) is Ok,
    ensures
        minimum_batteries(stage, tank_num, target_dv1, added_dead_weight) != Err::<
            nat,
            SizingError,
        >(SizingError::CapacityInfeasible),
        minimum_batteries(stage, tank_num, target_dv1, added_dead_weight) is Ok
            ==> minimum_batteries(stage, tank_num, target_dv1, added_dead_weight)->Ok_0
            <= minimum_batteries(stage, tank_num, target_dv2, added_dead_weight)->Ok_0,
        minimum_batteries(stage, tank_num, target_dv2, added_dead_weight)->Ok_0
            < ITERATION_LIMIT ==> minimum_batteries(
            stage,
            tank_num,
            target_dv1,
            added_dead_weight,
        ) is Ok,
{
    let n2 = minimum_batteries(stage, tank_num, target_dv2, added_dead_weight)->Ok_0;
    let max: nat = max_propellant(stage, tank_num);
    law_fixed_point(stage, tank_num, target_dv2, added_dead_weight);
    assert(request_error(stage, tank_num, target_dv1, added_dead_weight) is None);
    assert forall|c: nat| c <= n2 implies (#[trigger] demand_at(
        stage,
        tank_num,
        target_dv1,
        added_dead_weight,
        c,
    )) is Some && demand_at(stage, tank_num, target_dv1, added_dead_weight, c)->0 <= n2 by {
        lemma_battery_demand_order(
            stage,
            tank_num,
            tank_num,
            c,
            n2,
            target_dv1,
            target_dv2,
            max,
            max,
            added_dead_weight,
            added_dead_weight,
        );
    }
    lemma_search_below(
        stage,
        tank_num,
        target_dv1,
        added_dead_weight,
        0,
        ITERATION_LIMIT as nat,
        n2,
    );
    lemma_search_outcomes(
        stage,
        tank_num,
        target_dv1,
        added_dead_weight,
        0,
        ITERATION_LIMIT as nat,
    );
}

/// Adding tanks never lowers the battery count for a target: where the solver
/// succeeds for two tank counts, the smaller one gets no larger a count.
pub proof fn law_tank_monotonic(
    stage: Stage,
    tank_num1: nat,
    tank_num2: nat,
    target_dv: nat,
    added_dead_weight: nat,
)
    requires
        stage.wf(),
        tank_num1 <= tank_num2,
        minimum_batteries(stage, tank_num1, target_dv, added_dead_weight) is Ok,
        minimum_batteries(stage, tank_num2, target_dv, added_dead_weight) is Ok,
    ensures
        minimum_batteries(stage, tank_num1, target_dv, added_dead_weight)->Ok_0
            <= minimum_batteries(stage, tank_num2, target_dv, added_dead_weight)->Ok_0,
{
    let n2 = minimum_batteries(stage, tank_num2, target_dv, added_dead_weight)->Ok_0;
    let max1: nat = max_propellant(stage, tank_num1);
    let max2: nat = max_propellant(stage, tank_num2);
    law_fixed_point(stage, tank_num2, target_dv, added_dead_weight);
    assert forall|c: nat|
        c <= n2 && (#[trigger] demand_at(stage, tank_num1, target_dv, added_dead_weight, c))
            is Some implies demand_at(stage, tank_num1, target_dv, added_dead_weight, c)->0
        <= n2 by {
        lemma_battery_demand_order(
            stage,
            tank_num2,
            tank_num2,
            c,
            n2,
            target_dv,
            target_dv,
            max2,
            max2,
            added_dead_weight,
            added_dead_weight,
        );
        lemma_battery_demand_order(
            stage,
            tank_num1,
            tank_num2,
            c,
            c,
            target_dv,
            target_dv,
            max1,
            max2,
            added_dead_weight,
            added_dead_weight,
        );
    }
    lemma_search_below(
        stage,
        tank_num1,
        target_dv,
        added_dead_weight,
        0,
        ITERATION_LIMIT as nat,
        n2,
    );
}

} // verus!
