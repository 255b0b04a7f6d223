//! The propellant demand model: the propellant that a target velocity change
//! requires, and the batteries that hold the energy to process it.

use vstd::prelude::*;
use vstd::arithmetic::div_mod::lemma_fundamental_div_mod;
use crate::exponential::RATIO_ONE;
use crate::mass::{configuration_in_range, dry_and_wet_mass, dry_mass, lemma_mass_monotonic, propellant_mass, wet_mass};
use crate::performance::{lemma_mass_ratio_bounds, lemma_mass_ratio_monotonic, mass_ratio, reaches, required_mass_ratio};
use crate::rounding::{ceil_div, div_ceil, lemma_ceil_div_is_least, lemma_ceil_div_monotonic, lemma_product_bound};
use crate::stage::{Stage, COUNT_LIMIT, MASS_BOUND, PROPELLANT_BOUND, QUANTITY_LIMIT};

verus! {

/// Density units per kilogram per unit of propellant.
pub const DENSITY_UNIT: u64 = 1_000;

/// The propellant mass that a stage of mass `wet_mass` must expel to change
/// its velocity by `dv`: the share `(k - 1) / k` of the wet mass, for the mass
/// ratio `k` of `dv`, rounded up.
pub open spec fn required_propellant_mass(stage: Stage, dv: nat, wet_mass: nat) -> nat {
    ceil_div(
        wet_mass * (mass_ratio(stage, dv) - RATIO_ONE) as nat,
        mass_ratio(stage, dv),
    )
}

/// The amount of propellant of that mass, rounded up.
pub open spec fn required_propellant(stage: Stage, dv: nat, wet_mass: nat) -> nat {
    ceil_div(required_propellant_mass(stage, dv, wet_mass), stage.tank().density as nat)
}

/// The required amount of propellant where it is at most `max_xenon`, else
/// `None`.
pub open spec fn propellant_demand(stage: Stage, dv: nat, wet_mass: nat, max_xenon: nat) -> Option<nat> {
    if required_propellant(stage, dv, wet_mass) <= max_xenon {
        Some(required_propellant(stage, dv, wet_mass))
    } else {
        None
    }
}

/// The maximum propellant of `tank_num` tanks: tank count times capacity
/// times density, the density taken in kilograms per unit, rounded down.
pub open spec fn max_propellant(stage: Stage, tank_num: nat) -> nat {
    (tank_num * stage.tank().capacity as nat * stage.tank().density as nat) / (
    DENSITY_UNIT as nat)
}

/// The number of batteries that hold the energy to process `xenon`: the burn
/// lasts `xenon` over the propellant flow, draws the engine's power for that
/// time, and any fraction of a battery counts as a whole one.
pub open spec fn batteries_for_propellant(stage: Stage, xenon: nat) -> nat {
    ceil_div(
        xenon * stage.engine().power_drain as nat,
        stage.engine().propellant_drain as nat * stage.battery().capacity as nat,
    )
}

/// The number of batteries that the target `target_dv` requires of a stage
/// that already carries `battery_num` batteries, `None` where the required
/// propellant exceeds `max_xenon`.
pub open spec fn battery_demand(
    stage: Stage,
    tank_num: nat,
    battery_num: nat,
    target_dv: nat,
    max_xenon: nat,
    added_dead_weight: nat,
) -> Option<nat> {
    match propellant_demand(
        stage,
        target_dv,
        wet_mass(stage, tank_num, battery_num, added_dead_weight),
        max_xenon,
    ) {
        Some(xenon) => Some(batteries_for_propellant(stage, xenon)),
        None => None,
    }
}

/// The share `(k - 1) / k` of a mass grows with the mass and with `k`.
proof fn lemma_share_monotonic(w1: nat, w2: nat, k1: nat, k2: nat, one: nat)
    requires
        w1 <= w2,
        0 < one <= k1 <= k2,
    ensures
        ceil_div(w1 * (k1 - one) as nat, k1) <= ceil_div(w2 * (k2 - one) as nat, k2),
{
    let n: nat = ceil_div(w2 * (k2 - one) as nat, k2);
    lemma_ceil_div_is_least(w2 * (k2 - one) as nat, k2, 0);
    assert(w1 * (k1 - one) <= n * k1) by (nonlinear_arith)
        requires
            w2 * (k2 - one) <= n * k2,
            w1 <= w2,
            0 < one <= k1 <= k2,
    {
        if w1 <= n {
            assert(w1 * (k1 - one) <= w1 * k1);
            assert(w1 * k1 <= n * k1);
        } else {
            assert(w1 * (k2 - one) <= w2 * (k2 - one));
            assert((w1 - n) * k2 <= w1 * one);
            assert((w1 - n) * k1 <= (w1 - n) * k2);
        }
    }
    lemma_ceil_div_is_least(w1 * (k1 - one) as nat, k1, n);
}

/// A lighter stage or a smaller target requires no more propellant.
pub proof fn lemma_required_propellant_monotonic(
    stage: Stage,
    dv1: nat,
    dv2: nat,
    wet_mass1: nat,
    wet_mass2: nat,
)
    requires
        stage.wf(),
        dv1 <= dv2,
        wet_mass1 <= wet_mass2,
    ensures
        required_propellant_mass(stage, dv1, wet_mass1) <= required_propellant_mass(
            stage,
            dv2,
            wet_mass2,
        ),
        required_propellant(stage, dv1, wet_mass1) <= required_propellant(stage, dv2, wet_mass2),
{
    lemma_mass_ratio_monotonic(stage, dv1, dv2);
    lemma_mass_ratio_bounds(stage, dv1);
    lemma_mass_ratio_bounds(stage, dv2);
    lemma_share_monotonic(
        wet_mass1,
        wet_mass2,
        mass_ratio(stage, dv1),
        mass_ratio(stage, dv2),
        RATIO_ONE as nat,
    );
    lemma_ceil_div_monotonic(
        required_propellant_mass(stage, dv1, wet_mass1),
        required_propellant_mass(stage, dv2, wet_mass2),
        stage.tank().density as nat,
    );
}

/// More propellant takes no fewer batteries.
pub proof fn lemma_batteries_monotonic(stage: Stage, xenon1: nat, xenon2: nat)
    requires
        stage.wf(),
        xenon1 <= xenon2,
    ensures
        batteries_for_propellant(stage, xenon1) <= batteries_for_propellant(stage, xenon2),
{
    let power: nat = stage.engine().power_drain as nat;
    let drain: nat = stage.engine().propellant_drain as nat;
    let capacity: nat = stage.battery().capacity as nat;
    lemma_product_bound(xenon1, xenon2, power, power);
    lemma_product_bound(1, drain, 1, capacity);
    lemma_ceil_div_monotonic(xenon1 * power, xenon2 * power, drain * capacity);
}

/// The maximum propellant of a stage within the limits stays under the
/// propellant bound, and where the density is at most one kilogram per unit
/// it weighs no more than the propellant in the tanks.
pub proof fn lemma_max_propellant_bounds(stage: Stage, tank_num: nat)
    requires
        stage.wf(),
    ensures
        tank_num <= COUNT_LIMIT ==> max_propellant(stage, tank_num) <= PROPELLANT_BOUND,
        stage.tank().density <= DENSITY_UNIT ==> max_propellant(stage, tank_num)
            * stage.tank().density as nat <= propellant_mass(stage, tank_num),
{
    let capacity: nat = stage.tank().capacity as nat;
    let density: nat = stage.tank().density as nat;
    let unit: nat = DENSITY_UNIT as nat;
    let load: nat = tank_num * capacity * density;
    assert(load == (capacity * density) * tank_num) by (nonlinear_arith)
        requires
            load == tank_num * capacity * density,
    ;
    assert(load == propellant_mass(stage, tank_num)) by (nonlinear_arith)
        requires
            load == tank_num * capacity * density,
            propellant_mass(stage, tank_num) == capacity * tank_num * density,
    ;
    lemma_fundamental_div_mod(load as int, unit as int);
    assert((load / unit) * unit <= load) by (nonlinear_arith)
        requires
            load == unit * (load / unit) + load % unit,
            load % unit >= 0,
    ;
    if tank_num <= COUNT_LIMIT {
        lemma_product_bound(capacity * density, QUANTITY_LIMIT as nat, tank_num, COUNT_LIMIT as nat);
    }
    if density <= unit {
        lemma_product_bound(load / unit, load / unit, density, unit);
    }
}

/// Where the density is at most one kilogram per unit, a stage whose
/// required propellant is within the maximum reaches the target with full
/// tanks.
pub proof fn lemma_feasible_reaches(
    stage: Stage,
    tank_num: nat,
    battery_num: nat,
    target_dv: nat,
    added_dead_weight: nat,
)
    requires
        stage.wf(),
        stage.tank().density <= DENSITY_UNIT,
        propellant_demand(
            stage,
            target_dv,
            wet_mass(stage, tank_num, battery_num, added_dead_weight),
            max_propellant(stage, tank_num),
        ) is Some,
    ensures
        reaches(
            stage,
            target_dv,
            dry_mass(stage, tank_num, battery_num, added_dead_weight),
            wet_mass(stage, tank_num, battery_num, added_dead_weight),
        ),
{
    let dry: nat = dry_mass(stage, tank_num, battery_num, added_dead_weight);
    let wet: nat = wet_mass(stage, tank_num, battery_num, added_dead_weight);
    let k: nat = mass_ratio(stage, target_dv);
    let one: nat = RATIO_ONE as nat;
    let density: nat = stage.tank().density as nat;
    let max: nat = max_propellant(stage, tank_num);
    let load: nat = propellant_mass(stage, tank_num);
    let mass: nat = required_propellant_mass(stage, target_dv, wet);
    lemma_mass_ratio_bounds(stage, target_dv);
    lemma_max_propellant_bounds(stage, tank_num);
    lemma_ceil_div_is_least(mass, density, max);
    lemma_ceil_div_is_least(wet * (k - one) as nat, k, load);
    assert(wet * (k - one) <= load * k ==> k * dry <= wet * one) by (nonlinear_arith)
        requires
            wet == dry + load,
            one <= k,
    ;
}

/// The share `(k - 1) / k` of a mass, rounded up, is the mass less its share
/// `1 / k`, rounded down.
pub proof fn lemma_share_identity(wet_mass: nat, k: nat)
    requires
        RATIO_ONE <= k,
    ensures
        (wet_mass * RATIO_ONE as nat) / k <= wet_mass,
        ceil_div(wet_mass * (k - RATIO_ONE) as nat, k) == wet_mass - (wet_mass * RATIO_ONE as nat)
            / k,
{
    let one: nat = RATIO_ONE as nat;
    let scaled: nat = wet_mass * one;
    let q: nat = scaled / k;
    let r: nat = scaled % k;
    lemma_fundamental_div_mod(scaled as int, k as int);
    assert(q <= wet_mass) by (nonlinear_arith)
        requires
            wet_mass * one == k * q + r,
            0 <= r,
            0 < one <= k,
    ;
    assert(wet_mass * (k - one) == (wet_mass - q) * k - r) by (nonlinear_arith)
        requires
            wet_mass * one == k * q + r,
    ;
    lemma_ceil_div_is_least(wet_mass * (k - one) as nat, k, (wet_mass - q) as nat);
    if wet_mass - q > 0 {
        lemma_ceil_div_is_least(wet_mass * (k - one) as nat, k, (wet_mass - q - 1) as nat);
        assert((wet_mass - q - 1) * k < (wet_mass - q) * k - r) by (nonlinear_arith)
            requires
                0 <= r < k,
        ;
    }
}

/// The required propellant weighs less than the stage and one amount of
/// propellant together, and less than the stage alone where the stage weighs
/// at least as many amounts as the mass ratio says.
pub proof fn lemma_required_propellant_weight(stage: Stage, dv: nat, wet_mass: nat)
    requires
        stage.wf(),
    ensures
        required_propellant_mass(stage, dv, wet_mass) <= wet_mass,
        stage.tank().density as nat * required_propellant(stage, dv, wet_mass) < wet_mass
            + stage.tank().density as nat,
        mass_ratio(stage, dv) * stage.tank().density as nat <= wet_mass * RATIO_ONE as nat
            ==> stage.tank().density as nat * required_propellant(stage, dv, wet_mass)
            < wet_mass,
{
    let k: nat = mass_ratio(stage, dv);
    let one: nat = RATIO_ONE as nat;
    let density: nat = stage.tank().density as nat;
    let mass: nat = required_propellant_mass(stage, dv, wet_mass);
    let amount: nat = required_propellant(stage, dv, wet_mass);
    lemma_mass_ratio_bounds(stage, dv);
    lemma_share_identity(wet_mass, k);
    lemma_ceil_div_is_least(mass, density, 0);
    assert(density * amount < mass + density) by (nonlinear_arith)
        requires
            mass > 0 ==> (amount - 1) * density < mass,
            mass == 0 ==> amount == 0,
            density > 0,
    ;
    if k * density <= wet_mass * one {
        lemma_fundamental_div_mod((wet_mass * one) as int, k as int);
        assert(density <= (wet_mass * one) / k) by (nonlinear_arith)
            requires
                k * density <= wet_mass * one,
                wet_mass * one == k * ((wet_mass * one) / k) + (wet_mass * one) % k,
                0 <= (wet_mass * one) % k < k,
        ;
    }
}

/// Fewer tanks, fewer batteries, a smaller target or less dead weight never
/// raise the battery demand, and where the maximum is as large they never
/// make it infeasible.
pub proof fn lemma_battery_demand_order(
    stage: Stage,
    tank_num1: nat,
    tank_num2: nat,
    battery_num1: nat,
    battery_num2: nat,
    target_dv1: nat,
    target_dv2: nat,
    max_xenon1: nat,
    max_xenon2: nat,
    added_dead_weight1: nat,
    added_dead_weight2: nat,
)
    requires
        stage.wf(),
        tank_num1 <= tank_num2,
        battery_num1 <= battery_num2,
        target_dv1 <= target_dv2,
        added_dead_weight1 <= added_dead_weight2,
    ensures
        battery_demand(
            stage,
            tank_num1,
            battery_num1,
            target_dv1,
            max_xenon1,
            added_dead_weight1,
        ) is Some && battery_demand(
            stage,
            tank_num2,
            battery_num2,
            target_dv2,
            max_xenon2,
            added_dead_weight2,
        ) is Some ==> battery_demand(
            stage,
            tank_num1,
            battery_num1,
            target_dv1,
            max_xenon1,
            added_dead_weight1,
        )->0 <= battery_demand(
            stage,
            tank_num2,
            battery_num2,
            target_dv2,
            max_xenon2,
            added_dead_weight2,
        )->0,
        max_xenon2 <= max_xenon1 && battery_demand(
            stage,
            tank_num2,
            battery_num2,
            target_dv2,
            max_xenon2,
            added_dead_weight2,
        ) is Some ==> battery_demand(
            stage,
            tank_num1,
            battery_num1,
            target_dv1,
            max_xenon1,
            added_dead_weight1,
        ) is Some,
{
    let wet1: nat = wet_mass(stage, tank_num1, battery_num1, added_dead_weight1);
    let wet2: nat = wet_mass(stage, tank_num2, battery_num2, added_dead_weight2);
    lemma_mass_monotonic(
        stage,
        tank_num1,
        tank_num2,
        battery_num1,
        battery_num2,
        added_dead_weight1,
        added_dead_weight2,
    );
    lemma_required_propellant_monotonic(stage, target_dv1, target_dv2, wet1, wet2);
    lemma_batteries_monotonic(
        stage,
        required_propellant(stage, target_dv1, wet1),
        required_propellant(stage, target_dv2, wet2),
    );
}

/// The maximum propellant of `tank_num` tanks.
pub fn maximum_propellant(stage: &Stage, tank_num: u32) -> (max_xenon: u128)
    requires
        tank_num <= COUNT_LIMIT,
    ensures
        max_xenon == max_propellant(*stage, tank_num as nat),
        max_xenon <= PROPELLANT_BOUND,
{
    let tank = stage.get_tank();
    proof {
        lemma_max_propellant_bounds(*stage, tank_num as nat);
        lemma_product_bound(
            tank_num as nat,
            COUNT_LIMIT as nat,
            tank.capacity as nat,
            QUANTITY_LIMIT as nat,
        );
        assert(tank_num as nat * tank.capacity as nat * tank.density as nat == (
        tank.capacity as nat * tank.density as nat) * tank_num as nat) by (nonlinear_arith);
        lemma_product_bound(
            tank.capacity as nat * tank.density as nat,
            QUANTITY_LIMIT as nat,
            tank_num as nat,
            COUNT_LIMIT as nat,
        );
    }
    (tank_num as u128) * (tank.capacity as u128) * (tank.density as u128) / (DENSITY_UNIT as u128)
}

/// The amount of propellant that a stage of mass `wet_mass` needs to change
/// its velocity by `dv`, or `None` where that is more than `max_xenon`.
pub fn xenon_required_for_dv_at_initial_burn(
    stage: &Stage,
    dv: u64,
    wet_mass: u128,
    max_xenon: u128,
) -> (xenon: Option<u128>)
    requires
        wet_mass <= MASS_BOUND,
    ensures
        match xenon {
            Some(x) => propellant_demand(*stage, dv as nat, wet_mass as nat, max_xenon as nat)
                == Some(x as nat),
            None => propellant_demand(*stage, dv as nat, wet_mass as nat, max_xenon as nat)
                is None,
        },
        xenon is Some ==> xenon->0 <= max_xenon && stage.tank().density * xenon->0 < wet_mass
            + stage.tank().density,
        xenon is Some && mass_ratio(*stage, dv as nat) * stage.tank().density <= wet_mass
            * RATIO_ONE ==> stage.tank().density * xenon->0 < wet_mass,
{
    stage.validity();
    let density: u64 = stage.get_tank().density;
    proof {
        lemma_required_propellant_weight(*stage, dv as nat, wet_mass as nat);
        lemma_mass_ratio_bounds(*stage, dv as nat);
        lemma_share_identity(wet_mass as nat, mass_ratio(*stage, dv as nat));
        lemma_product_bound(
            wet_mass as nat,
            MASS_BOUND as nat,
            RATIO_ONE as nat,
            RATIO_ONE as nat,
        );
    }
    let mass: u128 = match required_mass_ratio(stage, dv) {
        Some(ratio) => wet_mass - wet_mass * (RATIO_ONE as u128) / ratio,
        None => {
            proof {
                vstd::arithmetic::div_mod::lemma_basic_div(
                    (wet_mass * RATIO_ONE) as int,
                    mass_ratio(*stage, dv as nat) as int,
                );
            }
            wet_mass
        },
    };
    let required_xenon: u128 = div_ceil(mass, density as u128);
    if required_xenon <= max_xenon {
        Some(required_xenon)
    } else {
        None
    }
}

/// The number of batteries that hold the energy to process `xenon`.
pub fn required_batteries_for_xenon(stage: &Stage, xenon: u128) -> (batteries: u128)
    requires
        xenon <= PROPELLANT_BOUND,
    ensures
        batteries == batteries_for_propellant(*stage, xenon as nat),
{
    let engine = stage.get_engine();
    let battery = stage.get_battery();
    proof {
        lemma_product_bound(
            xenon as nat,
            PROPELLANT_BOUND as nat,
            engine.power_drain as nat,
            QUANTITY_LIMIT as nat,
        );
        lemma_product_bound(
            engine.propellant_drain as nat,
            QUANTITY_LIMIT as nat,
            battery.capacity as nat,
            QUANTITY_LIMIT as nat,
        );
        lemma_product_bound(1, engine.propellant_drain as nat, 1, battery.capacity as nat);
    }
    div_ceil(
        xenon * (engine.power_drain as u128),
        (engine.propellant_drain as u128) * (battery.capacity as u128),
    )
}

/// The number of batteries that the target `target_dv` requires of the stage
/// with `tank_num` tanks, `battery_num` batteries and `added_dead_weight`, or
/// `None` where the required propellant is more than `max_xenon`.
pub fn get_number_of_batteries(
    stage: &Stage,
    tank_num: u32,
    battery_num: u32,
    target_dv: u64,
    max_xenon: u128,
    added_dead_weight: u64,
) -> (batteries: Option<u128>)
    requires
        configuration_in_range(tank_num as nat, battery_num as nat, added_dead_weight as nat),
        max_xenon <= PROPELLANT_BOUND,
    ensures
        match batteries {
            Some(n) => battery_demand(
                *stage,
                tank_num as nat,
                battery_num as nat,
                target_dv as nat,
                max_xenon as nat,
                added_dead_weight as nat,
            ) == Some(n as nat),
            None => battery_demand(
                *stage,
                tank_num as nat,
                battery_num as nat,
                target_dv as nat,
                max_xenon as nat,
                added_dead_weight as nat,
            ) is None,
        },
{
    let (_dry_mass, wet_mass) = dry_and_wet_mass(stage, tank_num, battery_num, added_dead_weight);
    match xenon_required_for_dv_at_initial_burn(stage, target_dv, wet_mass, max_xenon) {
        Some(required_xenon) => Some(required_batteries_for_xenon(stage, required_xenon)),
        None => None,
    }
}

} // verus!
