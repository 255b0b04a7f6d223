use limits_of_ions::dawn::{
    dawn_stage, target_dvs, target_tanks, DAWN_EC_DRAIN, DAWN_ISP, DAWN_MASS, DAWN_THRUST,
    DAWN_XENON_DRAIN, G_0, G_KERBIN, KILOGRAM, MIN_XENON_TANK_CAPACITY, MIN_XENON_TANK_DRY,
    XENON_DENSITY,
};
use limits_of_ions::demand::{get_number_of_batteries, maximum_propellant};
use limits_of_ions::mass::dry_and_wet_mass;
use limits_of_ions::performance::reaches_target;
use limits_of_ions::solver::{
    check_request, check_tank_num, solve, solve_observed, SizingError, ITERATION_LIMIT,
};
use limits_of_ions::stage::{
    BatterySpec, ConfigError, EngineSpec, Stage, TankSpec, COUNT_LIMIT, QUANTITY_LIMIT,
};
use limits_of_ions::sweep::{size_stage, SizingResult};

/// The parts of the sweep, with another battery.
fn stage_with_battery(mass: u64, capacity: u64) -> Stage {
    Stage::new(
        EngineSpec {
            dry_mass: DAWN_MASS,
            thrust: DAWN_THRUST,
            isp: DAWN_ISP,
            propellant_drain: DAWN_XENON_DRAIN,
            power_drain: DAWN_EC_DRAIN,
        },
        TankSpec {
            dry_mass: MIN_XENON_TANK_DRY,
            capacity: MIN_XENON_TANK_CAPACITY,
            density: XENON_DENSITY,
        },
        BatterySpec { mass, capacity },
        G_0,
        G_KERBIN,
    )
    .unwrap()
}

/// Batteries of 12 kg that hold 4 EC: the count creeps up by ones.
fn creeping_stage() -> Stage {
    stage_with_battery(12 * KILOGRAM, 4_000)
}

#[test]
fn one_tank_ten_metres_per_second() {
    let stage: Stage = dawn_stage();
    assert_eq!(solve(&stage, 1, 10_000, 0), Ok(1));
    let sizing: SizingResult = size_stage(&stage, 1, 10_000, 0).unwrap();
    assert_eq!(sizing.battery_num, 1);
    assert!(sizing.dv >= 10_000);
    assert_eq!(sizing.dv, 5_786_507);
    // 2000 N / 309 kg / 9.81 m/s² = 0.6598.
    assert_eq!(sizing.twr, 660);
}

#[test]
fn one_tank_fifteen_hundred_metres_per_second() {
    let stage: Stage = dawn_stage();
    // 108.7 units are required, against a maximum of 1 * 405 * 0.1 = 40.5.
    assert_eq!(maximum_propellant(&stage, 1), 40_500_000);
    assert_eq!(solve(&stage, 1, 1_500_000, 0), Err(SizingError::CapacityInfeasible));
    assert_eq!(size_stage(&stage, 1, 1_500_000, 0), Err(SizingError::CapacityInfeasible));
    assert_eq!(
        solve_observed(&stage, 1, 1_500_000, 0),
        (Err(SizingError::CapacityInfeasible), vec![0])
    );
}

#[test]
fn one_tank_four_hundred_and_fifty_metres_per_second() {
    let stage: Stage = dawn_stage();
    // The trials are 0, 6, 7; at 7 the stage demands 7.
    assert_eq!(solve(&stage, 1, 450_000, 0), Ok(7));
    assert_eq!(
        size_stage(&stage, 1, 450_000, 0),
        Ok(SizingResult { dv: 5_240_347, twr: 601, battery_num: 7 })
    );
}

#[test]
fn twenty_tanks_fifteen_hundred_metres_per_second() {
    let stage: Stage = dawn_stage();
    assert_eq!(maximum_propellant(&stage, 20), 810_000_000);
    assert_eq!(
        size_stage(&stage, 20, 1_500_000, 0),
        Ok(SizingResult { dv: 21_886_932, twr: 104, battery_num: 127 })
    );
    assert_eq!(
        size_stage(&stage, 20, 1_500_000, 500 * KILOGRAM),
        Err(SizingError::CapacityInfeasible)
    );
}

#[test]
fn a_second_tank_makes_the_target_feasible() {
    let stage: Stage = dawn_stage();
    assert_eq!(solve(&stage, 1, 500_000, 0), Err(SizingError::CapacityInfeasible));
    assert_eq!(solve(&stage, 2, 500_000, 0), Ok(9));
    assert_eq!(
        size_stage(&stage, 2, 500_000, 0),
        Ok(SizingResult { dv: 9_241_954, twr: 506, battery_num: 9 })
    );
}

#[test]
fn more_tanks_may_take_more_trials_than_there_are() {
    let stage: Stage = creeping_stage();
    assert_eq!(solve(&stage, 20, 72_460, 0), Ok(2033));
    assert_eq!(solve(&stage, 21, 72_460, 0), Err(SizingError::NonConvergence));
}

#[test]
fn more_tanks_may_leave_the_maximum_behind() {
    // Parts of a few micrograms, where every rounding shows.
    let stage: Stage = Stage::new(
        EngineSpec {
            dry_mass: 10,
            thrust: DAWN_THRUST,
            isp: DAWN_ISP,
            propellant_drain: DAWN_XENON_DRAIN,
            power_drain: 1_000_000,
        },
        TankSpec { dry_mass: 1_000, capacity: 1_000, density: 1 },
        BatterySpec { mass: 1_000, capacity: 10 },
        G_0,
        G_KERBIN,
    )
    .unwrap();
    assert_eq!(solve(&stage, 3, 17_437, 0), Ok(1));
    assert_eq!(solve(&stage, 5, 17_437, 0), Err(SizingError::CapacityInfeasible));
    assert_eq!(solve(&stage, 8, 17_437, 0), Ok(2));
}

#[test]
fn no_target_needs_no_battery() {
    let stage: Stage = dawn_stage();
    assert_eq!(solve(&stage, 1, 0, 0), Ok(0));
    assert_eq!(
        size_stage(&stage, 1, 0, 0),
        Ok(SizingResult { dv: 5_888_816, twr: 671, battery_num: 0 })
    );
}

#[test]
fn an_engine_that_draws_no_power_needs_no_battery() {
    let stage: Stage = Stage::new(
        EngineSpec {
            dry_mass: DAWN_MASS,
            thrust: DAWN_THRUST,
            isp: DAWN_ISP,
            propellant_drain: DAWN_XENON_DRAIN,
            power_drain: 0,
        },
        dawn_stage().get_tank(),
        dawn_stage().get_battery(),
        G_0,
        G_KERBIN,
    )
    .unwrap();
    assert_eq!(solve(&stage, 1, 450_000, 0), Ok(0));
    assert_eq!(solve(&stage, 1, 1_500_000, 0), Err(SizingError::CapacityInfeasible));
}

#[test]
fn trials_run_out() {
    // The count would settle at 2372, after more than a hundred trials.
    let stage: Stage = creeping_stage();
    assert_eq!(ITERATION_LIMIT, 100);
    assert_eq!(solve(&stage, 20, 73_000, 0), Err(SizingError::NonConvergence));
    assert_eq!(size_stage(&stage, 20, 73_000, 0), Err(SizingError::NonConvergence));
    let max: u128 = maximum_propellant(&stage, 20);
    assert_eq!(get_number_of_batteries(&stage, 20, 2372, 73_000, max, 0), Some(2372));
}

#[test]
fn a_smaller_target_may_take_more_trials() {
    let stage: Stage = creeping_stage();
    assert_eq!(solve(&stage, 20, 72_460, 0), Ok(2033));
    assert_eq!(solve(&stage, 20, 72_457, 0), Err(SizingError::NonConvergence));
    let max: u128 = maximum_propellant(&stage, 20);
    assert_eq!(get_number_of_batteries(&stage, 20, 2032, 72_457, max, 0), Some(2032));
}

#[test]
fn zero_tanks_are_refused() {
    let stage: Stage = dawn_stage();
    let fault: SizingError = SizingError::InvalidConfiguration(ConfigError::TankCount);
    assert_eq!(solve(&stage, 0, 10_000, 0), Err(fault));
    assert_eq!(solve(&stage, COUNT_LIMIT + 1, 10_000, 0), Err(fault));
    assert_eq!(size_stage(&stage, 0, 10_000, 0), Err(fault));
    assert_eq!(check_request(&stage, 0, 10_000, 0), Some(ConfigError::TankCount));
}

#[test]
fn too_much_dead_weight_is_refused() {
    let stage: Stage = dawn_stage();
    assert_eq!(
        solve(&stage, 1, 10_000, QUANTITY_LIMIT + 1),
        Err(SizingError::InvalidConfiguration(ConfigError::DeadWeight))
    );
    assert_eq!(solve(&stage, 1, 10_000, QUANTITY_LIMIT), Err(SizingError::CapacityInfeasible));
}

#[test]
fn no_target_is_refused() {
    let stage: Stage = dawn_stage();
    for dv in [164_751_720u64, 164_751_721, 2_086_451_700, QUANTITY_LIMIT + 1, u64::MAX] {
        assert_eq!(check_request(&stage, 1, dv, 0), None);
        assert_eq!(solve(&stage, 1, dv, 0), Err(SizingError::CapacityInfeasible));
        assert_eq!(solve(&stage, 20, dv, 0), Err(SizingError::CapacityInfeasible));
        assert_eq!(
            solve_observed(&stage, 20, dv, 0),
            (Err(SizingError::CapacityInfeasible), vec![0])
        );
    }
}

#[test]
fn a_battery_demand_beyond_the_limit_is_refused() {
    // With batteries of 0.001 EC the maximum propellant of one tank takes
    // 728334 of them, that of two tanks 1456667.
    let stage: Stage = stage_with_battery(5 * KILOGRAM, 1);
    assert_eq!(check_tank_num(&stage, 1), None);
    assert_eq!(check_tank_num(&stage, 2), Some(ConfigError::BatteryDemand));
    assert_eq!(
        solve(&stage, 2, 10_000, 0),
        Err(SizingError::InvalidConfiguration(ConfigError::BatteryDemand))
    );
    assert_eq!(solve(&stage, 1, 10_000, 0), Err(SizingError::CapacityInfeasible));
}

#[test]
fn tank_counts_are_checked() {
    let stage: Stage = dawn_stage();
    assert_eq!(check_tank_num(&stage, 0), Some(ConfigError::TankCount));
    assert_eq!(check_tank_num(&stage, 1), None);
    // 137299 tanks take 999995 batteries, 137300 take 1000002.
    assert_eq!(check_tank_num(&stage, 137_299), None);
    assert_eq!(check_tank_num(&stage, 137_300), Some(ConfigError::BatteryDemand));
    assert_eq!(check_tank_num(&stage, COUNT_LIMIT), Some(ConfigError::BatteryDemand));
    assert_eq!(check_tank_num(&stage, COUNT_LIMIT + 1), Some(ConfigError::TankCount));
}

#[test]
fn faults_are_named_in_order() {
    let stage: Stage = stage_with_battery(5 * KILOGRAM, 1);
    assert_eq!(check_request(&stage, 0, u64::MAX, u64::MAX), Some(ConfigError::TankCount));
    assert_eq!(check_request(&stage, 2, u64::MAX, u64::MAX), Some(ConfigError::BatteryDemand));
    assert_eq!(check_request(&stage, 1, u64::MAX, u64::MAX), Some(ConfigError::DeadWeight));
    assert_eq!(check_request(&stage, 1, u64::MAX, 0), None);
    assert_eq!(check_request(&stage, 1, 10_000, 0), None);
}

#[test]
fn the_result_meets_its_own_demand() {
    let stage: Stage = dawn_stage();
    let mut filled: u32 = 0;
    for t in target_tanks() {
        let max: u128 = maximum_propellant(&stage, t);
        for dv in target_dvs() {
            if let Ok(n) = solve(&stage, t, dv, 0) {
                filled += 1;
                assert_eq!(get_number_of_batteries(&stage, t, n, dv, max, 0), Some(n as u128));
                let (dry, wet): (u128, u128) = dry_and_wet_mass(&stage, t, n, 0);
                assert!(reaches_target(&stage, dv, dry, wet));
            }
        }
    }
    assert_eq!(filled, 208);
}

#[test]
fn no_smaller_count_meets_its_own_demand() {
    let stage: Stage = dawn_stage();
    let n: u32 = solve(&stage, 20, 1_500_000, 0).unwrap();
    assert_eq!(n, 127);
    let max: u128 = maximum_propellant(&stage, 20);
    let mut b: u32 = 0;
    while b < n {
        let demand: u128 = get_number_of_batteries(&stage, 20, b, 1_500_000, max, 0).unwrap();
        assert!(demand > b as u128);
        b += 1;
    }
}

#[test]
fn without_capacity_no_count_meets_its_own_demand() {
    let stage: Stage = dawn_stage();
    assert_eq!(solve(&stage, 5, 1_500_000, 0), Err(SizingError::CapacityInfeasible));
    let max: u128 = maximum_propellant(&stage, 5);
    let mut b: u32 = 0;
    while b <= 2000 {
        match get_number_of_batteries(&stage, 5, b, 1_500_000, max, 0) {
            Some(demand) => assert!(demand > b as u128),
            None => {}
        }
        b += 1;
    }
    assert_eq!(get_number_of_batteries(&stage, 5, 0, 1_500_000, max, 0), Some(34));
    assert_eq!(get_number_of_batteries(&stage, 5, 34, 1_500_000, max, 0), None);
}

#[test]
fn a_count_below_the_trials_that_meets_its_demand_is_found() {
    let stage: Stage = dawn_stage();
    for t in target_tanks() {
        let max: u128 = maximum_propellant(&stage, t);
        for dv in target_dvs() {
            let mut b: u32 = 0;
            let mut met: bool = false;
            while b < ITERATION_LIMIT && !met {
                met = match get_number_of_batteries(&stage, t, b, dv, max, 0) {
                    Some(demand) => demand <= b as u128,
                    None => false,
                };
                b += 1;
            }
            if met {
                assert!(solve(&stage, t, dv, 0).is_ok());
            }
        }
    }
}

#[test]
fn a_larger_target_never_takes_fewer_batteries() {
    let stage: Stage = dawn_stage();
    for weight in [0, 300 * KILOGRAM, 500 * KILOGRAM] {
        for t in target_tanks() {
            let mut previous: Option<u32> = Some(0);
            for dv in target_dvs() {
                match (previous, solve(&stage, t, dv, weight)) {
                    (Some(less), Ok(more)) => {
                        assert!(less <= more);
                        previous = Some(more);
                    }
                    (None, Ok(_)) => panic!("feasible again at {} with {} tanks", dv, t),
                    (_, Err(_)) => previous = None,
                }
            }
        }
    }
}

#[test]
fn more_tanks_never_take_fewer_batteries() {
    let stage: Stage = dawn_stage();
    for dv in target_dvs() {
        let mut previous: Option<u32> = None;
        for t in target_tanks() {
            match (previous, solve(&stage, t, dv, 0)) {
                (Some(fewer), Ok(n)) => {
                    assert!(fewer <= n);
                    previous = Some(n);
                }
                (None, Ok(n)) => previous = Some(n),
                (Some(_), Err(_)) => panic!("unachievable again at {} with {} tanks", dv, t),
                (None, Err(_)) => {}
            }
        }
    }
    let counts: Vec<Result<u32, SizingError>> =
        target_tanks().into_iter().map(|t| solve(&stage, t, 450_000, 0)).collect();
    let expected: Vec<Result<u32, SizingError>> =
        [7, 8, 11, 12, 13, 15, 18, 20, 23, 29].into_iter().map(Ok).collect();
    assert_eq!(counts, expected);
    let unachievable: Result<u32, SizingError> = Err(SizingError::CapacityInfeasible);
    assert_eq!(solve(&stage, 1, 1_000_000, 0), unachievable);
    assert_eq!(solve(&stage, 2, 1_000_000, 0), unachievable);
    assert_eq!(solve(&stage, 4, 1_000_000, 0), Ok(26));
    assert_eq!(solve(&stage, 20, 1_000_000, 0), Ok(74));
}

#[test]
fn the_solver_is_a_function_of_its_inputs() {
    let stage: Stage = dawn_stage();
    let again: Stage = dawn_stage();
    for t in target_tanks() {
        for dv in target_dvs() {
            assert_eq!(solve(&stage, t, dv, 0), solve(&again, t, dv, 0));
            assert_eq!(
                size_stage(&stage, t, dv, 100 * KILOGRAM),
                size_stage(&stage, t, dv, 100 * KILOGRAM)
            );
        }
    }
}

#[test]
fn dead_weight_lowers_what_one_battery_achieves() {
    let stage: Stage = dawn_stage();
    assert_eq!(
        size_stage(&stage, 1, 10_000, 100 * KILOGRAM),
        Ok(SizingResult { dv: 4_294_848, twr: 498, battery_num: 1 })
    );
    assert_eq!(
        size_stage(&stage, 1, 10_000, 500 * KILOGRAM),
        Ok(SizingResult { dv: 2_115_344, twr: 252, battery_num: 1 })
    );
}

#[test]
fn observed_trials_of_a_feasible_target() {
    let stage: Stage = dawn_stage();
    assert_eq!(
        solve_observed(&stage, 20, 1_500_000, 0),
        (Ok(127), vec![0, 86, 114, 123, 126, 127])
    );
    assert_eq!(solve_observed(&stage, 1, 450_000, 0), (Ok(7), vec![0, 6, 7]));
    assert_eq!(solve_observed(&stage, 1, 10_000, 0), (Ok(1), vec![0, 1]));
    assert_eq!(solve_observed(&stage, 1, 0, 0), (Ok(0), vec![0]));
}

#[test]
fn observed_trials_without_capacity() {
    let stage: Stage = dawn_stage();
    // Without batteries the propellant is within the maximum; with 7 it is
    // not.
    assert_eq!(
        solve_observed(&stage, 1, 500_000, 0),
        (Err(SizingError::CapacityInfeasible), vec![0, 7])
    );
    assert_eq!(
        solve_observed(&stage, 5, 1_500_000, 0),
        (Err(SizingError::CapacityInfeasible), vec![0, 34])
    );
}

#[test]
fn observed_trials_of_a_refused_request() {
    let stage: Stage = dawn_stage();
    assert_eq!(
        solve_observed(&stage, 0, 10_000, 0),
        (Err(SizingError::InvalidConfiguration(ConfigError::TankCount)), vec![])
    );
}

#[test]
fn observed_trials_that_run_out() {
    let stage: Stage = creeping_stage();
    let max: u128 = maximum_propellant(&stage, 20);
    let (result, trials): (Result<u32, SizingError>, Vec<u32>) =
        solve_observed(&stage, 20, 72_457, 0);
    assert_eq!(result, Err(SizingError::NonConvergence));
    assert_eq!(trials.len(), 100);
    assert_eq!(trials[0], 0);
    assert_eq!(trials[99], 2031);
    for i in 1..100 {
        assert!(trials[i - 1] < trials[i]);
        assert_eq!(
            get_number_of_batteries(&stage, 20, trials[i - 1], 72_457, max, 0),
            Some(trials[i] as u128)
        );
    }
    let (next, all): (Result<u32, SizingError>, Vec<u32>) = solve_observed(&stage, 20, 72_460, 0);
    assert_eq!(next, Ok(2033));
    assert_eq!(all.len(), 100);
    assert_eq!(all[99], 2033);
}
