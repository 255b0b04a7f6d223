//! The parts of Kerbal Space Program's ion propulsion, in the units of
//! [`crate::stage`]: the IX-6315 "Dawn" engine, the PB-X50R xenon container
//! and the Z-100 battery pack, with the sweep that tabulates them.

use vstd::prelude::*;
use crate::stage::{validate_parts, BatterySpec, EngineSpec, Stage, TankSpec};

verus! {

/// Mass of the engine: 250 kg.
pub const DAWN_MASS: u64 = 250_000_000_000;

/// Thrust of the engine: 2000 N.
pub const DAWN_THRUST: u64 = 2_000_000;

/// Specific impulse of the engine: 4200 s.
pub const DAWN_ISP: u64 = 4_200_000;

/// Xenon that the engine consumes: 0.486 units per second.
pub const DAWN_XENON_DRAIN: u64 = 486_000;

/// Electric charge that the engine consumes: 8.74 units per second.
pub const DAWN_EC_DRAIN: u64 = 8_740;

/// Density of xenon: 0.1 kg per unit.
pub const XENON_DENSITY: u64 = 100;

/// Mass of the empty container: 13.5 kg.
pub const MIN_XENON_TANK_DRY: u64 = 13_500_000_000;

/// Xenon that the container holds: 405 units.
pub const MIN_XENON_TANK_CAPACITY: u64 = 405_000_000;

/// Mass of the battery: 5 kg.
pub const MIN_BATTERY_MASS: u64 = 5_000_000_000;

/// Electric charge that the battery holds: 100 units.
pub const MIN_BATTERY_CAPACITY: u64 = 100_000;

/// Standard gravity: 9.80665 m/s².
pub const G_0: u64 = 9_806_650;

/// Gravity at the surface of Kerbin: 9.81 m/s².
pub const G_KERBIN: u64 = 9_810_000;

/// Micrograms per kilogram.
pub const KILOGRAM: u64 = 1_000_000_000;

/// The engine.
pub open spec fn dawn_engine() -> EngineSpec {
    EngineSpec {
        dry_mass: DAWN_MASS,
        thrust: DAWN_THRUST,
        isp: DAWN_ISP,
        propellant_drain: DAWN_XENON_DRAIN,
        power_drain: DAWN_EC_DRAIN,
    }
}

/// The xenon container.
pub open spec fn xenon_tank() -> TankSpec {
    TankSpec {
        dry_mass: MIN_XENON_TANK_DRY,
        capacity: MIN_XENON_TANK_CAPACITY,
        density: XENON_DENSITY,
    }
}

/// The battery pack.
pub open spec fn battery_pack() -> BatterySpec {
    BatterySpec { mass: MIN_BATTERY_MASS, capacity: MIN_BATTERY_CAPACITY }
}

/// The stage of these parts, with Kerbin as the reference body.
pub fn dawn_stage() -> (stage: Stage)
    ensures
        stage.wf(),
        stage.engine() == dawn_engine(),
        stage.tank() == xenon_tank(),
        stage.battery() == battery_pack(),
        stage.g0() == G_0,
        stage.g_local() == G_KERBIN,
{
    let engine = EngineSpec {
        dry_mass: DAWN_MASS,
        thrust: DAWN_THRUST,
        isp: DAWN_ISP,
        propellant_drain: DAWN_XENON_DRAIN,
        power_drain: DAWN_EC_DRAIN,
    };
    let tank = TankSpec {
        dry_mass: MIN_XENON_TANK_DRY,
        capacity: MIN_XENON_TANK_CAPACITY,
        density: XENON_DENSITY,
    };
    let battery = BatterySpec { mass: MIN_BATTERY_MASS, capacity: MIN_BATTERY_CAPACITY };
    assert(validate_parts(engine, tank, battery, G_0, G_KERBIN) is None);
    Stage::new(engine, tank, battery, G_0, G_KERBIN).unwrap()
}

/// The targets of the sweep: from 10 m/s to 1500 m/s.
pub fn target_dvs() -> (targets: Vec<u64>)
    ensures
        targets@ == seq![
            10_000u64, 20_000, 30_000, 50_000, 80_000, 100_000, 150_000, 200_000, 250_000,
            300_000, 350_000, 400_000, 450_000, 500_000, 600_000, 700_000, 800_000, 900_000,
            1_000_000, 1_100_000, 1_200_000, 1_300_000, 1_400_000, 1_500_000,
        ],
{
    vec![
        10_000u64, 20_000, 30_000, 50_000, 80_000, 100_000, 150_000, 200_000, 250_000, 300_000,
        350_000, 400_000, 450_000, 500_000, 600_000, 700_000, 800_000, 900_000, 1_000_000,
        1_100_000, 1_200_000, 1_300_000, 1_400_000, 1_500_000,
    ]
}

/// The tank counts of the sweep.
pub fn target_tanks() -> (tanks: Vec<u32>)
    ensures
        tanks@ == seq![1u32, 2, 4, 5, 6, 8, 10, 12, 15, 20],
{
    vec![1u32, 2, 4, 5, 6, 8, 10, 12, 15, 20]
}

/// The added dead weights of the sweep, in kilograms.
pub fn dead_weights() -> (weights: Vec<u64>)
    ensures
        weights@ == seq![0u64, 100, 200, 300, 400, 500],
{
    vec![0u64, 100, 200, 300, 400, 500]
}

} // verus!
