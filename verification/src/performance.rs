//! The performance model: mass ratio, achieved velocity change and
//! thrust-to-weight ratio.

use vstd::prelude::*;
use crate::exponential::{exp, exp_fixed, lemma_exp_at_least_one, lemma_exp_beyond_cap, lemma_exp_monotonic, lemma_exp_of_zero, RATIO_CAP, RATIO_ONE, REDUCTION};
use crate::rounding::{div_round, lemma_floor_div_monotonic, lemma_product_bound, round_div};
use crate::stage::{Stage, EXHAUST_LIMIT, MASS_BOUND, QUANTITY_LIMIT};

verus! {

/// Velocity units per unit of specific impulse times gravity.
pub const VELOCITY_SCALE: u64 = 1_000_000;

/// Thrust-to-weight units per unit of thrust over mass times gravity: the
/// ratio is given in thousandths.
pub const WEIGHT_SCALE: u64 = 1_000_000_000_000_000;

/// Specific impulse times standard gravity.
pub open spec fn exhaust_velocity(stage: Stage) -> nat {
    stage.engine().isp as nat * stage.g0() as nat
}

/// The velocity change `dv` over the exhaust velocity, in fixed point,
/// rounded down.
pub open spec fn scaled_velocity(stage: Stage, dv: nat) -> nat {
    (dv * VELOCITY_SCALE as nat * RATIO_ONE as nat) / exhaust_velocity(stage)
}

/// The ratio of wet to dry mass that the rocket equation requires for `dv`:
/// the exponential of `dv` over the exhaust velocity, in fixed point.
pub open spec fn mass_ratio(stage: Stage, dv: nat) -> nat {
    exp_fixed(scaled_velocity(stage, dv))
}

/// Whether a stage of the given dry and wet mass can change its velocity by
/// `dv`: its wet-to-dry ratio is at least the mass ratio of `dv`.
pub open spec fn reaches(stage: Stage, dv: nat, dry_mass: nat, wet_mass: nat) -> bool {
    mass_ratio(stage, dv) * dry_mass <= wet_mass * RATIO_ONE as nat
}

/// Whether `v` is the largest velocity change that the stage reaches.
pub open spec fn is_achieved_delta_v(stage: Stage, dry_mass: nat, wet_mass: nat, v: nat) -> bool {
    &&& reaches(stage, v, dry_mass, wet_mass)
    &&& forall|dv: nat| dv > v ==> !#[trigger] reaches(stage, dv, dry_mass, wet_mass)
}

/// The largest velocity change that the stage reaches.
pub open spec fn achieved_delta_v(stage: Stage, dry_mass: nat, wet_mass: nat) -> nat {
    choose|v: nat| is_achieved_delta_v(stage, dry_mass, wet_mass, v)
}

/// Thrust over weight at the reference body, in thousandths, rounded to the
/// nearest.
pub open spec fn thrust_to_weight(stage: Stage, wet_mass: nat) -> nat {
    round_div(
        stage.engine().thrust as nat * WEIGHT_SCALE as nat,
        wet_mass * stage.g_local() as nat,
    )
}

/// The exhaust velocity of a valid stage is positive and within its limit.
pub proof fn lemma_exhaust_velocity_bounds(stage: Stage)
    requires
        stage.wf(),
    ensures
        0 < exhaust_velocity(stage) <= EXHAUST_LIMIT,
{
    let isp: nat = stage.engine().isp as nat;
    let g0: nat = stage.g0() as nat;
    lemma_product_bound(1, isp, 1, g0);
}

/// A smaller velocity change needs no larger a mass ratio.
pub proof fn lemma_mass_ratio_monotonic(stage: Stage, dv1: nat, dv2: nat)
    requires
        stage.wf(),
        dv1 <= dv2,
    ensures
        scaled_velocity(stage, dv1) <= scaled_velocity(stage, dv2),
        mass_ratio(stage, dv1) <= mass_ratio(stage, dv2),
{
    let scale: nat = VELOCITY_SCALE as nat * RATIO_ONE as nat;
    lemma_exhaust_velocity_bounds(stage);
    lemma_product_bound(dv1, dv2, scale, scale);
    assert(dv1 * VELOCITY_SCALE as nat * RATIO_ONE as nat == dv1 * scale) by (nonlinear_arith)
        requires
            scale == VELOCITY_SCALE as nat * RATIO_ONE as nat,
    ;
    assert(dv2 * VELOCITY_SCALE as nat * RATIO_ONE as nat == dv2 * scale) by (nonlinear_arith)
        requires
            scale == VELOCITY_SCALE as nat * RATIO_ONE as nat,
    ;
    lemma_floor_div_monotonic(dv1 * scale, dv2 * scale, exhaust_velocity(stage));
    lemma_exp_monotonic(scaled_velocity(stage, dv1), scaled_velocity(stage, dv2));
}

/// Every mass ratio is at least one.
pub proof fn lemma_mass_ratio_bounds(stage: Stage, dv: nat)
    ensures
        RATIO_ONE <= mass_ratio(stage, dv),
{
    lemma_exp_at_least_one(scaled_velocity(stage, dv));
}

/// From the quantity limit upward the mass ratio exceeds the cap.
pub proof fn lemma_mass_ratio_beyond_limit(stage: Stage, dv: nat)
    requires
        stage.wf(),
        dv >= QUANTITY_LIMIT,
    ensures
        mass_ratio(stage, dv) > RATIO_CAP,
{
    let scale: nat = VELOCITY_SCALE as nat * RATIO_ONE as nat;
    let ve: nat = exhaust_velocity(stage);
    let limit: nat = QUANTITY_LIMIT as nat;
    lemma_exhaust_velocity_bounds(stage);
    lemma_mass_ratio_monotonic(stage, limit, dv);
    assert(limit * VELOCITY_SCALE as nat * RATIO_ONE as nat == limit * scale) by (nonlinear_arith)
        requires
            scale == VELOCITY_SCALE as nat * RATIO_ONE as nat,
    ;
    vstd::arithmetic::div_mod::lemma_div_is_ordered_by_denominator(
        (limit * scale) as int,
        ve as int,
        EXHAUST_LIMIT as int,
    );
    assert((limit * scale) / (EXHAUST_LIMIT as nat) >= REDUCTION * RATIO_ONE) by {
        assert(limit * scale == 1_000_000_000_000_000_000_000_000_000_000_000_000);
    }
    lemma_exp_monotonic(REDUCTION as nat * RATIO_ONE as nat, scaled_velocity(stage, limit));
    lemma_exp_beyond_cap(REDUCTION as nat * RATIO_ONE as nat);
}

/// No stage with a dry mass has a mass ratio above the cap.
pub proof fn lemma_cap_is_beyond_reach(ratio: nat, dry_mass: nat, wet_mass: nat)
    requires
        ratio > RATIO_CAP,
        0 < dry_mass,
        wet_mass <= MASS_BOUND,
    ensures
        ratio * dry_mass > wet_mass * RATIO_ONE as nat,
{
    lemma_product_bound(wet_mass, MASS_BOUND as nat, RATIO_ONE as nat, RATIO_ONE as nat);
    lemma_product_bound(ratio, ratio, 1, dry_mass);
}

/// No velocity change needs a mass ratio of exactly one, which every stage
/// whose wet mass is not below its dry mass reaches.
pub proof fn lemma_reaches_zero(stage: Stage, dry_mass: nat, wet_mass: nat)
    requires
        stage.wf(),
        dry_mass <= wet_mass,
    ensures
        mass_ratio(stage, 0) == RATIO_ONE,
        reaches(stage, 0, dry_mass, wet_mass),
{
    lemma_exhaust_velocity_bounds(stage);
    assert(0 * VELOCITY_SCALE as nat * RATIO_ONE as nat == 0) by (nonlinear_arith);
    assert(0nat / exhaust_velocity(stage) == 0) by (nonlinear_arith)
        requires
            exhaust_velocity(stage) > 0,
    ;
    lemma_exp_of_zero();
    lemma_product_bound(RATIO_ONE as nat, RATIO_ONE as nat, dry_mass, wet_mass);
    assert(wet_mass * RATIO_ONE as nat == RATIO_ONE as nat * wet_mass) by (nonlinear_arith);
}

/// A stage that reaches a velocity change reaches every smaller one, also
/// with less dry mass or more wet mass.
pub proof fn lemma_reaches_downward(
    stage: Stage,
    dv1: nat,
    dv2: nat,
    dry_mass1: nat,
    dry_mass2: nat,
    wet_mass1: nat,
    wet_mass2: nat,
)
    requires
        stage.wf(),
        dv1 <= dv2,
        dry_mass1 <= dry_mass2,
        wet_mass2 <= wet_mass1,
        reaches(stage, dv2, dry_mass2, wet_mass2),
    ensures
        reaches(stage, dv1, dry_mass1, wet_mass1),
{
    lemma_mass_ratio_monotonic(stage, dv1, dv2);
    lemma_product_bound(mass_ratio(stage, dv1), mass_ratio(stage, dv2), dry_mass1, dry_mass2);
    lemma_product_bound(wet_mass2, wet_mass1, RATIO_ONE as nat, RATIO_ONE as nat);
}

/// The largest reached velocity change is unique.
pub proof fn lemma_achieved_delta_v_unique(stage: Stage, dry_mass: nat, wet_mass: nat, v: nat)
    requires
        is_achieved_delta_v(stage, dry_mass, wet_mass, v),
    ensures
        achieved_delta_v(stage, dry_mass, wet_mass) == v,
{
    let c: nat = achieved_delta_v(stage, dry_mass, wet_mass);
    assert(is_achieved_delta_v(stage, dry_mass, wet_mass, c));
    if c < v {
        assert(!reaches(stage, v, dry_mass, wet_mass));
    }
    if v < c {
        assert(!reaches(stage, c, dry_mass, wet_mass));
    }
}

/// The mass ratio that the velocity change `dv` requires, or `None` where it
/// exceeds the cap.
pub fn required_mass_ratio(stage: &Stage, dv: u64) -> (ratio: Option<u128>)
    ensures
        match ratio {
            Some(k) => k == mass_ratio(*stage, dv as nat) && RATIO_ONE <= k <= RATIO_CAP,
            None => mass_ratio(*stage, dv as nat) > RATIO_CAP,
        },
{
    stage.validity();
    if dv >= QUANTITY_LIMIT {
        proof {
            lemma_mass_ratio_beyond_limit(*stage, dv as nat);
        }
        return None;
    }
    let isp: u64 = stage.get_engine().isp;
    let g0: u64 = stage.get_g0();
    proof {
        lemma_exhaust_velocity_bounds(*stage);
        lemma_product_bound(
            dv as nat,
            QUANTITY_LIMIT as nat,
            VELOCITY_SCALE as nat * RATIO_ONE as nat,
            VELOCITY_SCALE as nat * RATIO_ONE as nat,
        );
        assert(dv as nat * VELOCITY_SCALE as nat * RATIO_ONE as nat == dv as nat * (
        VELOCITY_SCALE as nat * RATIO_ONE as nat)) by (nonlinear_arith);
    }
    let scale: u128 = (VELOCITY_SCALE as u128) * (RATIO_ONE as u128);
    let x: u128 = (dv as u128) * scale / ((isp as u128) * (g0 as u128));
    exp(x)
}

/// Whether a stage of the given dry and wet mass can change its velocity by
/// `dv`.
pub fn reaches_target(stage: &Stage, dv: u64, dry_mass: u128, wet_mass: u128) -> (b: bool)
    requires
        wet_mass <= MASS_BOUND,
    ensures
        b == reaches(*stage, dv as nat, dry_mass as nat, wet_mass as nat),
{
    match required_mass_ratio(stage, dv) {
        None => {
            proof {
                if dry_mass > 0 {
                    lemma_cap_is_beyond_reach(
                        mass_ratio(*stage, dv as nat),
                        dry_mass as nat,
                        wet_mass as nat,
                    );
                } else {
                    assert(mass_ratio(*stage, dv as nat) * 0 == 0) by (nonlinear_arith);
                }
            }
            dry_mass == 0
        },
        Some(k) => {
            proof {
                let scaled: nat = wet_mass as nat * RATIO_ONE as nat;
                lemma_product_bound(
                    wet_mass as nat,
                    MASS_BOUND as nat,
                    RATIO_ONE as nat,
                    RATIO_ONE as nat,
                );
                vstd::arithmetic::div_mod::lemma_fundamental_div_mod(scaled as int, k as int);
                assert(k * dry_mass <= scaled <==> dry_mass <= scaled / (k as nat))
                    by (nonlinear_arith)
                    requires
                        scaled == k * (scaled / (k as nat)) + scaled % (k as nat),
                        0 <= scaled % (k as nat) < k,
                ;
            }
            dry_mass <= wet_mass * (RATIO_ONE as u128) / k
        },
    }
}

/// The velocity change that a stage of the given dry and wet mass achieves in
/// one burn: the largest one whose mass ratio the stage has.
pub fn delta_v(stage: &Stage, dry_mass: u128, wet_mass: u128) -> (v: u64)
    requires
        0 < dry_mass <= wet_mass <= MASS_BOUND,
    ensures
        is_achieved_delta_v(*stage, dry_mass as nat, wet_mass as nat, v as nat),
        v == achieved_delta_v(*stage, dry_mass as nat, wet_mass as nat),
        v < QUANTITY_LIMIT,
{
    let ghost dry: nat = dry_mass as nat;
    let ghost wet: nat = wet_mass as nat;
    stage.validity();
    proof {
        lemma_reaches_zero(*stage, dry, wet);
        assert forall|dv: nat| dv > QUANTITY_LIMIT - 1 implies !#[trigger] reaches(
            *stage,
            dv,
            dry,
            wet,
        ) by {
            lemma_mass_ratio_beyond_limit(*stage, dv);
            lemma_cap_is_beyond_reach(mass_ratio(*stage, dv), dry, wet);
        }
    }
    let mut lo: u64 = 0;
    let mut hi: u64 = QUANTITY_LIMIT - 1;
    while lo < hi
        invariant
            stage.wf(),
            dry == dry_mass,
            wet == wet_mass,
            0 < dry_mass <= wet_mass <= MASS_BOUND,
            lo <= hi < QUANTITY_LIMIT,
            reaches(*stage, lo as nat, dry, wet),
            forall|dv: nat| dv > hi ==> !#[trigger] reaches(*stage, dv, dry, wet),
        decreases hi - lo,
    {
        let mid: u64 = lo + (hi - lo + 1) / 2;
        if reaches_target(stage, mid, dry_mass, wet_mass) {
            lo = mid;
        } else {
            proof {
                assert forall|dv: nat| dv > mid - 1 implies !#[trigger] reaches(
                    *stage,
                    dv,
                    dry,
                    wet,
                ) by {
                    if reaches(*stage, dv, dry, wet) {
                        lemma_reaches_downward(*stage, mid as nat, dv, dry, dry, wet, wet);
                    }
                }
            }
            hi = mid - 1;
        }
    }
    proof {
        lemma_achieved_delta_v_unique(*stage, dry, wet, lo as nat);
    }
    lo
}

/// Thrust over weight at the reference body for a stage of the given wet
/// mass, in thousandths.
pub fn twr(stage: &Stage, wet_mass: u128) -> (ratio: u128)
    requires
        0 < wet_mass <= MASS_BOUND,
    ensures
        ratio == thrust_to_weight(*stage, wet_mass as nat),
{
    let thrust: u64 = stage.get_engine().thrust;
    let g_local: u64 = stage.get_g_local();
    proof {
        lemma_product_bound(
            thrust as nat,
            QUANTITY_LIMIT as nat,
            WEIGHT_SCALE as nat,
            WEIGHT_SCALE as nat,
        );
        lemma_product_bound(
            wet_mass as nat,
            MASS_BOUND as nat,
            g_local as nat,
            QUANTITY_LIMIT as nat,
        );
        lemma_product_bound(1, wet_mass as nat, 1, g_local as nat);
    }
    div_round((thrust as u128) * (WEIGHT_SCALE as u128), wet_mass * (g_local as u128))
}

} // verus!
