//! The mass model: dry and wet mass of a configuration.

use vstd::prelude::*;
use crate::rounding::lemma_product_bound;
use crate::stage::{Stage, COUNT_LIMIT, MASS_BOUND, QUANTITY_LIMIT};

verus! {

/// Whether counts and dead weight are within the limits of the number format.
pub open spec fn configuration_in_range(tank_num: nat, battery_num: nat, added_dead_weight: nat) -> bool {
    &&& 1 <= tank_num <= COUNT_LIMIT
    &&& battery_num <= COUNT_LIMIT
    &&& added_dead_weight <= QUANTITY_LIMIT
}

/// Mass of the stage without propellant.
pub open spec fn dry_mass(stage: Stage, tank_num: nat, battery_num: nat, added_dead_weight: nat) -> nat {
    stage.engine().dry_mass as nat + stage.tank().dry_mass as nat * tank_num
        + stage.battery().mass as nat * battery_num + added_dead_weight
}

/// Mass of the propellant in full tanks.
pub open spec fn propellant_mass(stage: Stage, tank_num: nat) -> nat {
    stage.tank().capacity as nat * tank_num * stage.tank().density as nat
}

/// Mass of the stage with full tanks.
pub open spec fn wet_mass(stage: Stage, tank_num: nat, battery_num: nat, added_dead_weight: nat) -> nat {
    dry_mass(stage, tank_num, battery_num, added_dead_weight) + propellant_mass(stage, tank_num)
}

/// With at least one tank the wet mass exceeds the dry mass, the dry mass is
/// positive, and within the limits both stay under the mass bound.
pub proof fn lemma_mass_order(stage: Stage, tank_num: nat, battery_num: nat, added_dead_weight: nat)
    requires
        stage.wf(),
        tank_num >= 1,
    ensures
        0 < dry_mass(stage, tank_num, battery_num, added_dead_weight),
        dry_mass(stage, tank_num, battery_num, added_dead_weight) < wet_mass(
            stage,
            tank_num,
            battery_num,
            added_dead_weight,
        ),
        configuration_in_range(tank_num, battery_num, added_dead_weight) ==> wet_mass(
            stage,
            tank_num,
            battery_num,
            added_dead_weight,
        ) <= MASS_BOUND,
        tank_num <= COUNT_LIMIT ==> propellant_mass(stage, tank_num) <= QUANTITY_LIMIT
            * COUNT_LIMIT,
{
    let cap: nat = stage.tank().capacity as nat;
    let dens: nat = stage.tank().density as nat;
    let limit: nat = QUANTITY_LIMIT as nat;
    let count: nat = COUNT_LIMIT as nat;
    assert(cap * tank_num * dens == (cap * dens) * tank_num) by (nonlinear_arith);
    assert((cap * dens) * tank_num >= 1) by (nonlinear_arith)
        requires
            cap >= 1,
            dens >= 1,
            tank_num >= 1,
    ;
    assert(stage.tank().dry_mass as nat * tank_num >= 0) by (nonlinear_arith);
    assert(stage.battery().mass as nat * battery_num >= 0) by (nonlinear_arith);
    if tank_num <= COUNT_LIMIT {
        lemma_product_bound(cap * dens, limit, tank_num, count);
    }
    if configuration_in_range(tank_num, battery_num, added_dead_weight) {
        lemma_product_bound(stage.tank().dry_mass as nat, limit, tank_num, count);
        lemma_product_bound(stage.battery().mass as nat, limit, battery_num, count);
    }
}

/// Adding tanks, batteries or dead weight never lowers the dry or wet mass.
pub proof fn lemma_mass_monotonic(
    stage: Stage,
    tank_num1: nat,
    tank_num2: nat,
    battery_num1: nat,
    battery_num2: nat,
    added_dead_weight1: nat,
    added_dead_weight2: nat,
)
    requires
        tank_num1 <= tank_num2,
        battery_num1 <= battery_num2,
        added_dead_weight1 <= added_dead_weight2,
    ensures
        dry_mass(stage, tank_num1, battery_num1, added_dead_weight1) <= dry_mass(
            stage,
            tank_num2,
            battery_num2,
            added_dead_weight2,
        ),
        propellant_mass(stage, tank_num1) <= propellant_mass(stage, tank_num2),
        wet_mass(stage, tank_num1, battery_num1, added_dead_weight1) <= wet_mass(
            stage,
            tank_num2,
            battery_num2,
            added_dead_weight2,
        ),
{
    let cap: nat = stage.tank().capacity as nat;
    let dens: nat = stage.tank().density as nat;
    let tank: nat = stage.tank().dry_mass as nat;
    let battery: nat = stage.battery().mass as nat;
    lemma_product_bound(tank, tank, tank_num1, tank_num2);
    lemma_product_bound(battery, battery, battery_num1, battery_num2);
    lemma_product_bound(cap, cap, tank_num1, tank_num2);
    lemma_product_bound(cap * tank_num1, cap * tank_num2, dens, dens);
}

/// Dry and wet mass of the stage with `tank_num` tanks, `battery_num`
/// batteries and `added_dead_weight`, as the pair `(dry, wet)`.
pub fn dry_and_wet_mass(
    stage: &Stage,
    tank_num: u32,
    battery_num: u32,
    added_dead_weight: u64,
) -> (masses: (u128, u128))
    ensures
        masses.0 == dry_mass(*stage, tank_num as nat, battery_num as nat, added_dead_weight as nat),
        masses.1 == wet_mass(*stage, tank_num as nat, battery_num as nat, added_dead_weight as nat),
        0 < masses.0 <= masses.1,
        tank_num >= 1 ==> masses.0 < masses.1,
        configuration_in_range(tank_num as nat, battery_num as nat, added_dead_weight as nat)
            ==> masses.1 <= MASS_BOUND,
{
    let engine = stage.get_engine();
    let tank = stage.get_tank();
    let battery = stage.get_battery();
    proof {
        if tank_num >= 1 {
            lemma_mass_order(*stage, tank_num as nat, battery_num as nat, added_dead_weight as nat);
        }
        lemma_product_bound(
            tank.dry_mass as nat,
            QUANTITY_LIMIT as nat,
            tank_num as nat,
            u32::MAX as nat,
        );
        lemma_product_bound(
            battery.mass as nat,
            QUANTITY_LIMIT as nat,
            battery_num as nat,
            u32::MAX as nat,
        );
        lemma_product_bound(
            tank.capacity as nat * tank.density as nat,
            QUANTITY_LIMIT as nat,
            tank_num as nat,
            u32::MAX as nat,
        );
        assert(tank.capacity as nat * tank_num as nat * tank.density as nat == (
        tank.capacity as nat * tank.density as nat) * tank_num as nat) by (nonlinear_arith);
        lemma_product_bound(
            tank.capacity as nat,
            QUANTITY_LIMIT as nat,
            tank_num as nat,
            u32::MAX as nat,
        );
    }
    let dry: u128 = engine.dry_mass as u128 + (tank.dry_mass as u128) * (tank_num as u128)
        + (battery.mass as u128) * (battery_num as u128) + added_dead_weight as u128;
    let wet: u128 = dry + (tank.capacity as u128) * (tank_num as u128) * (tank.density as u128);
    (dry, wet)
}

} // verus!
