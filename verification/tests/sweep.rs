use limits_of_ions::dawn::{
    dawn_stage, dead_weights, target_dvs, target_tanks, DAWN_EC_DRAIN, DAWN_ISP, DAWN_MASS,
    DAWN_THRUST, DAWN_XENON_DRAIN, G_0, G_KERBIN, KILOGRAM, MIN_BATTERY_MASS,
    MIN_XENON_TANK_CAPACITY, MIN_XENON_TANK_DRY, XENON_DENSITY,
};
use limits_of_ions::stage::{
    BatterySpec, ConfigError, EngineSpec, Stage, TankSpec, QUANTITY_LIMIT,
};
use limits_of_ions::sweep::{check_sweep, generate_results, size_stage, Results, SizingResult};

fn stage_with_battery(mass: u64, capacity: u64) -> Stage {
    Stage::new(
        EngineSpec {
            dry_mass: DAWN_MASS,
            thrust: DAWN_THRUST,
            isp: DAWN_ISP,
            propellant_drain: DAWN_XENON_DRAIN,
            power_drain: DAWN_EC_DRAIN,
        },
        TankSpec {
            dry_mass: MIN_XENON_TANK_DRY,
            capacity: MIN_XENON_TANK_CAPACITY,
            density: XENON_DENSITY,
        },
        BatterySpec { mass, capacity },
        G_0,
        G_KERBIN,
    )
    .unwrap()
}

#[test]
fn sweep_domains() {
    assert_eq!(target_tanks(), vec![1, 2, 4, 5, 6, 8, 10, 12, 15, 20]);
    assert_eq!(dead_weights(), vec![0, 100, 200, 300, 400, 500]);
    let metres: Vec<u64> = vec![
        10, 20, 30, 50, 80, 100, 150, 200, 250, 300, 350, 400, 450, 500, 600, 700, 800, 900, 1000,
        1100, 1200, 1300, 1400, 1500,
    ];
    let targets: Vec<u64> = target_dvs();
    assert_eq!(targets.len(), 24);
    for j in 0..24 {
        assert_eq!(targets[j], metres[j] * 1000);
    }
}

#[test]
fn results_have_one_cell_per_pair() {
    let stage: Stage = dawn_stage();
    let tanks: Vec<u32> = target_tanks();
    let targets: Vec<u64> = target_dvs();
    let results: Results = generate_results(&stage, &tanks, &targets, 0).unwrap();
    assert_eq!(results.tank_nums, tanks);
    assert_eq!(results.target_dvs, targets);
    assert_eq!(results.cells.len(), 10);
    for row in &results.cells {
        assert_eq!(row.len(), 24);
    }
}

#[test]
fn results_hold_the_sizing_of_each_pair() {
    let stage: Stage = dawn_stage();
    let tanks: Vec<u32> = target_tanks();
    let targets: Vec<u64> = target_dvs();
    for weight in dead_weights() {
        let w: u64 = weight * KILOGRAM;
        let results: Results = generate_results(&stage, &tanks, &targets, w).unwrap();
        for i in 0..tanks.len() {
            for j in 0..targets.len() {
                assert_eq!(results.cells[i][j], size_stage(&stage, tanks[i], targets[j], w).ok());
            }
        }
    }
}

#[test]
fn results_of_the_first_cells() {
    let stage: Stage = dawn_stage();
    let results: Results =
        generate_results(&stage, &vec![1, 2], &vec![10_000, 500_000, 1_500_000], 0).unwrap();
    assert_eq!(
        results.cells,
        vec![
            vec![Some(SizingResult { dv: 5_786_507, twr: 660, battery_num: 1 }), None, None],
            vec![
                Some(SizingResult { dv: 10_399_777, twr: 562, battery_num: 1 }),
                Some(SizingResult { dv: 9_241_954, twr: 506, battery_num: 9 }),
                None,
            ],
        ]
    );
}

#[test]
fn one_tank_cannot_reach_fifteen_hundred_metres_per_second() {
    let stage: Stage = dawn_stage();
    let results: Results = generate_results(&stage, &target_tanks(), &target_dvs(), 0).unwrap();
    assert_eq!(results.tank_nums[0], 1);
    assert_eq!(results.target_dvs[23], 1_500_000);
    assert_eq!(results.cells[0][23], None);
}

#[test]
fn filled_cells_of_the_sweep() {
    let stage: Stage = dawn_stage();
    let tanks: Vec<u32> = target_tanks();
    let targets: Vec<u64> = target_dvs();
    let filled: [[usize; 10]; 6] = [
        [13, 16, 20, 21, 21, 22, 23, 24, 24, 24],
        [11, 15, 18, 19, 20, 21, 22, 23, 23, 24],
        [10, 14, 17, 18, 19, 20, 21, 22, 23, 24],
        [9, 13, 16, 17, 18, 19, 20, 21, 22, 23],
        [8, 12, 15, 16, 17, 18, 19, 20, 21, 22],
        [7, 11, 15, 15, 16, 18, 19, 20, 21, 22],
    ];
    for (k, weight) in dead_weights().into_iter().enumerate() {
        let results: Results =
            generate_results(&stage, &tanks, &targets, weight * KILOGRAM).unwrap();
        for i in 0..tanks.len() {
            // The filled cells of a row come first.
            for j in 0..targets.len() {
                assert_eq!(results.cells[i][j].is_some(), j < filled[k][i], "{} {} {}", k, i, j);
            }
        }
    }
}

#[test]
fn an_unachievable_cell_does_not_end_the_sweep() {
    let stage: Stage = dawn_stage();
    let results: Results =
        generate_results(&stage, &vec![1, 20], &vec![1_500_000, 10_000], 500 * KILOGRAM).unwrap();
    assert_eq!(results.cells[0][0], None);
    assert_eq!(results.cells[0][1], Some(SizingResult { dv: 2_115_344, twr: 252, battery_num: 1 }));
    assert_eq!(results.cells[1][0], None);
    assert!(results.cells[1][1].is_some());
}

#[test]
fn trials_that_run_out_leave_the_cell_empty() {
    let stage: Stage = stage_with_battery(12 * KILOGRAM, 4_000);
    let results: Results =
        generate_results(&stage, &vec![20, 21], &vec![72_457, 72_460], 0).unwrap();
    assert_eq!(results.cells[0][0], None);
    assert_eq!(results.cells[0][1].unwrap().battery_num, 2033);
    assert_eq!(results.cells[1][1], None);
}

#[test]
fn empty_sweeps() {
    let stage: Stage = dawn_stage();
    let none: Results = generate_results(&stage, &vec![], &vec![], 0).unwrap();
    assert!(none.cells.is_empty());
    let rows: Results = generate_results(&stage, &vec![1, 2], &vec![], 0).unwrap();
    assert_eq!(rows.cells, vec![vec![], vec![]]);
    let columns: Results = generate_results(&stage, &vec![], &vec![10_000], 0).unwrap();
    assert!(columns.cells.is_empty());
    assert_eq!(columns.target_dvs, vec![10_000]);
}

#[test]
fn a_sweep_with_a_fault_is_refused() {
    let stage: Stage = dawn_stage();
    assert_eq!(
        generate_results(&stage, &vec![1, 0, 2], &vec![10_000], 0).err(),
        Some(ConfigError::TankCount)
    );
    assert_eq!(
        generate_results(&stage, &vec![1], &vec![10_000, u64::MAX], 0).unwrap().cells,
        vec![vec![Some(SizingResult { dv: 5_786_507, twr: 660, battery_num: 1 }), None]]
    );
    assert_eq!(
        generate_results(&stage, &vec![1], &vec![10_000], QUANTITY_LIMIT + 1).err(),
        Some(ConfigError::DeadWeight)
    );
    assert_eq!(
        generate_results(&stage_with_battery(MIN_BATTERY_MASS, 1), &vec![1, 2], &vec![10_000], 0)
            .err(),
        Some(ConfigError::BatteryDemand)
    );
}

#[test]
fn sweep_faults_are_named_in_order() {
    let stage: Stage = dawn_stage();
    let small: Stage = stage_with_battery(MIN_BATTERY_MASS, 1000);
    assert_eq!(check_sweep(&stage, &vec![1, 0], u64::MAX), Some(ConfigError::TankCount));
    // 1373 tanks take 1000002 batteries of 1 EC, 1372 tanks fewer than a
    // million.
    assert_eq!(
        check_sweep(&small, &vec![1372, 1373, 0], u64::MAX),
        Some(ConfigError::BatteryDemand)
    );
    assert_eq!(check_sweep(&small, &vec![1372], u64::MAX), Some(ConfigError::DeadWeight));
    assert_eq!(check_sweep(&small, &vec![1372], 0), None);
    assert_eq!(check_sweep(&stage, &vec![], u64::MAX), Some(ConfigError::DeadWeight));
    assert_eq!(check_sweep(&stage, &target_tanks(), 500 * KILOGRAM), None);
}
