//! The sweep driver: one sizing per pair of tank count and target, for one
//! added dead weight.

use vstd::prelude::*;
use crate::demand::DENSITY_UNIT;
use crate::laws::{law_reaches_target, law_unachievable_stays};
use crate::mass::{dry_and_wet_mass, dry_mass, wet_mass};
use crate::performance::{achieved_delta_v, delta_v, thrust_to_weight, twr};
use crate::solver::{check_tank_num, minimum_batteries, request_error, solve, tank_fault, SizingError};
use crate::stage::{ConfigError, Stage, QUANTITY_LIMIT};

verus! {

/// What a feasible stage achieves.
#[derive(Clone, Copy, Debug, PartialEq, Eq, Structural)]
pub struct SizingResult {
    /// The velocity change that the stage achieves in one burn.
    pub dv: u64,
    /// Thrust over weight with full tanks, in thousandths.
    pub twr: u128,
    /// The number of batteries.
    pub battery_num: u32,
}

/// The results of a sweep: `cells[i][j]` belongs to `tank_nums[i]` tanks and
/// the target `target_dvs[j]`, and is `None` where the target is unachievable.
#[derive(Debug)]
pub struct Results {
    /// The tank counts, one per row.
    pub tank_nums: Vec<u32>,
    /// The targets, one per column.
    pub target_dvs: Vec<u64>,
    /// The rows.
    pub cells: Vec<Vec<Option<SizingResult>>>,
}

/// The performance of the stage with `battery_num` batteries.
pub open spec fn performance_of(
    stage: Stage,
    tank_num: nat,
    battery_num: nat,
    added_dead_weight: nat,
) -> SizingResult {
    SizingResult {
        dv: achieved_delta_v(
            stage,
            dry_mass(stage, tank_num, battery_num, added_dead_weight),
            wet_mass(stage, tank_num, battery_num, added_dead_weight),
        ) as u64,
        twr: thrust_to_weight(
            stage,
            wet_mass(stage, tank_num, battery_num, added_dead_weight),
        ) as u128,
        battery_num: battery_num as u32,
    }
}

/// The sizing of one stage: the solver's fault, or the performance with the
/// battery count that the solver returns.
pub open spec fn sizing(
    stage: Stage,
    tank_num: nat,
    target_dv: nat,
    added_dead_weight: nat,
) -> Result<SizingResult, SizingError> {
    match minimum_batteries(stage, tank_num, target_dv, added_dead_weight) {
        Ok(n) => Ok(performance_of(stage, tank_num, n, added_dead_weight)),
        Err(e) => Err(e),
    }
}

/// One cell of the results: the sizing, or `None` where there is none.
pub open spec fn cell_of(
    stage: Stage,
    tank_num: nat,
    target_dv: nat,
    added_dead_weight: nat,
) -> Option<SizingResult> {
    match sizing(stage, tank_num, target_dv, added_dead_weight) {
        Ok(s) => Some(s),
        Err(_) => None,
    }
}

/// The fault of the first tank count at or after `from` that has one.
pub open spec fn first_tank_fault(stage: Stage, tank_nums: Seq<u32>, from: int) -> Option<
    ConfigError,
>
    decreases tank_nums.len() - from,
{
    if from < 0 || from >= tank_nums.len() {
        None
    } else if tank_fault(stage, tank_nums[from] as nat) is Some {
        tank_fault(stage, tank_nums[from] as nat)
    } else {
        first_tank_fault(stage, tank_nums, from + 1)
    }
}

/// The fault of a sweep, if it has one: that of the first tank count at
/// fault, else the dead weight.
pub open spec fn sweep_error(
    stage: Stage,
    tank_nums: Seq<u32>,
    added_dead_weight: nat,
) -> Option<ConfigError> {
    if first_tank_fault(stage, tank_nums, 0) is Some {
        first_tank_fault(stage, tank_nums, 0)
    } else if added_dead_weight > QUANTITY_LIMIT {
        Some(ConfigError::DeadWeight)
    } else {
        None
    }
}

/// Whether `results` holds the sweep over the given tank counts and targets.
pub open spec fn is_sweep(
    stage: Stage,
    tank_nums: Seq<u32>,
    target_dvs: Seq<u64>,
    added_dead_weight: nat,
    results: Results,
) -> bool {
    &&& results.tank_nums@ == tank_nums
    &&& results.target_dvs@ == target_dvs
    &&& results.wf()
    &&& forall|i: int, j: int|
        0 <= i < tank_nums.len() && 0 <= j < target_dvs.len() ==> (#[trigger] results.cells@[i]@[j])
            == cell_of(stage, tank_nums[i] as nat, target_dvs[j] as nat, added_dead_weight)
}

/// Whether no pair of a tank count and a target makes a request with a fault.
pub open spec fn requests_valid(
    stage: Stage,
    tank_nums: Seq<u32>,
    target_dvs: Seq<u64>,
    added_dead_weight: nat,
) -> bool {
    forall|i: int, j: int|
        0 <= i < tank_nums.len() && 0 <= j < target_dvs.len() ==> (#[trigger] request_error(
            stage,
            tank_nums[i] as nat,
            target_dvs[j] as nat,
            added_dead_weight,
        )) is None
}

impl Results {
    /// There is one row per tank count and one cell per row and target.
    pub open spec fn wf(&self) -> bool {
        &&& self.cells@.len() == self.tank_nums@.len()
        &&& forall|i: int|
            0 <= i < self.cells@.len() ==> (#[trigger] self.cells@[i])@.len()
                == self.target_dvs@.len()
    }

    /// Whether there is one row per tank count and one cell per row and
    /// target.
    pub fn is_rectangular(&self) -> (b: bool)
        ensures
            b == self.wf(),
    {
        if self.cells.len() != self.tank_nums.len() {
            return false;
        }
        let mut i: usize = 0;
        while i < self.cells.len()
            invariant
                i <= self.cells.len(),
                self.cells@.len() == self.tank_nums@.len(),
                forall|k: int|
                    0 <= k < i ==> (#[trigger] self.cells@[k])@.len() == self.target_dvs@.len(),
            decreases self.cells.len() - i,
        {
            if self.cells[i].len() != self.target_dvs.len() {
                return false;
            }
            i = i + 1;
        }
        true
    }
}

/// No tank count from `from` on has a fault exactly when none is reported.
pub proof fn lemma_first_tank_fault(stage: Stage, tank_nums: Seq<u32>, from: int)
    requires
        0 <= from,
    ensures
        first_tank_fault(stage, tank_nums, from) is None <==> forall|i: int|
            from <= i < tank_nums.len() ==> tank_fault(stage, #[trigger] tank_nums[i] as nat)
                is None,
    decreases tank_nums.len() - from,
{
    if from < tank_nums.len() {
        lemma_first_tank_fault(stage, tank_nums, from + 1);
        if tank_fault(stage, tank_nums[from] as nat) is None {
            assert forall|i: int| from <= i < tank_nums.len() && (forall|k: int|
                from + 1 <= k < tank_nums.len() ==> tank_fault(
                    stage,
                    #[trigger] tank_nums[k] as nat,
                ) is None) implies tank_fault(stage, #[trigger] tank_nums[i] as nat) is None by {
                if i > from {
                    assert(tank_fault(stage, tank_nums[i] as nat) is None);
                }
            }
        }
    }
}

/// A sweep without fault holds no request with a fault: where a cell is
/// empty, the solver found the target unachievable.
pub proof fn lemma_sweep_requests_valid(
    stage: Stage,
    tank_nums: Seq<u32>,
    target_dvs: Seq<u64>,
    added_dead_weight: nat,
)
    requires
        sweep_error(stage, tank_nums, added_dead_weight) is None,
    ensures
        requests_valid(stage, tank_nums, target_dvs, added_dead_weight),
{
    lemma_first_tank_fault(stage, tank_nums, 0);
    assert forall|i: int, j: int|
        0 <= i < tank_nums.len() && 0 <= j < target_dvs.len() implies (#[trigger] request_error(
        stage,
        tank_nums[i] as nat,
        target_dvs[j] as nat,
        added_dead_weight,
    )) is None by {
        assert(tank_fault(stage, tank_nums[i] as nat) is None);
    }
}

/// In a row the filled cells come first, but for cells whose trials ran out:
/// where a cell is empty for another reason, the cell of every larger target
/// is empty too.
pub proof fn law_row_prefix(
    stage: Stage,
    tank_num: nat,
    target_dv1: nat,
    target_dv2: nat,
    added_dead_weight: nat,
)
    requires
        stage.wf(),
        target_dv1 <= target_dv2,
        cell_of(stage, tank_num, target_dv1, added_dead_weight) is None,
        minimum_batteries(stage, tank_num, target_dv1, added_dead_weight) != Err::<
            nat,
            SizingError,
        >(SizingError::NonConvergence),
    ensures
        cell_of(stage, tank_num, target_dv2, added_dead_weight) is None,
{
    law_unachievable_stays(stage, tank_num, target_dv1, target_dv2, added_dead_weight);
}

/// Checks the tank counts and the dead weight of a sweep.
pub fn check_sweep(stage: &Stage, tank_nums: &Vec<u32>, added_dead_weight: u64) -> (fault: Option<
    ConfigError,
>)
    ensures
        fault == sweep_error(*stage, tank_nums@, added_dead_weight as nat),
{
    let mut i: usize = 0;
    while i < tank_nums.len()
        invariant
            i <= tank_nums.len(),
            first_tank_fault(*stage, tank_nums@, 0) == first_tank_fault(
                *stage,
                tank_nums@,
                i as int,
            ),
        decreases tank_nums.len() - i,
    {
        let fault = check_tank_num(stage, tank_nums[i]);
        if fault.is_some() {
            return fault;
        }
        i = i + 1;
    }
    if added_dead_weight > QUANTITY_LIMIT {
        return Some(ConfigError::DeadWeight);
    }
    None
}

/// Sizes one stage: the smallest battery count for the target, and what the
/// stage achieves with it.
pub fn size_stage(
    stage: &Stage,
    tank_num: u32,
    target_dv: u64,
    added_dead_weight: u64,
) -> (r: Result<SizingResult, SizingError>)
    ensures
        r == sizing(*stage, tank_num as nat, target_dv as nat, added_dead_weight as nat),
        r is Ok && stage.tank().density <= DENSITY_UNIT ==> r->Ok_0.dv >= target_dv,
        r is Ok ==> minimum_batteries(
            *stage,
            tank_num as nat,
            target_dv as nat,
            added_dead_weight as nat,
        ) == Ok::<nat, SizingError>(r->Ok_0.battery_num as nat),
{
    match solve(stage, tank_num, target_dv, added_dead_weight) {
        Err(e) => Err(e),
        Ok(battery_num) => {
            stage.validity();
            let (dry_mass, wet_mass) = dry_and_wet_mass(
                stage,
                tank_num,
                battery_num,
                added_dead_weight,
            );
            proof {
                if stage.tank().density <= DENSITY_UNIT {
                    law_reaches_target(
                        *stage,
                        tank_num as nat,
                        target_dv as nat,
                        added_dead_weight as nat,
                    );
                }
            }
            Ok(
                SizingResult {
                    dv: delta_v(stage, dry_mass, wet_mass),
                    twr: twr(stage, wet_mass),
                    battery_num,
                },
            )
        },
    }
}

/// Sizes the stage for every pair of a tank count and a target, after
/// checking all of them.
pub fn generate_results(
    stage: &Stage,
    tank_nums: &Vec<u32>,
    target_dvs: &Vec<u64>,
    added_dead_weight: u64,
) -> (r: Result<Results, ConfigError>)
    ensures
        match r {
            Ok(results) => sweep_error(*stage, tank_nums@, added_dead_weight as nat) is None && is_sweep(
                *stage,
                tank_nums@,
                target_dvs@,
                added_dead_weight as nat,
                results,
            ) && requests_valid(*stage, tank_nums@, target_dvs@, added_dead_weight as nat),
            Err(e) => sweep_error(*stage, tank_nums@, added_dead_weight as nat)
                == Some(e),
        },
{
    match check_sweep(stage, tank_nums, added_dead_weight) {
        Some(e) => {
            return Err(e);
        },
        None => {},
    }
    proof {
        lemma_sweep_requests_valid(*stage, tank_nums@, target_dvs@, added_dead_weight as nat);
    }
    let mut cells: Vec<Vec<Option<SizingResult>>> = Vec::new();
    let mut tank_index: usize = 0;
    while tank_index < tank_nums.len()
        invariant
            tank_index <= tank_nums.len(),
            cells@.len() == tank_index,
            forall|i: int|
                0 <= i < tank_index ==> (#[trigger] cells@[i])@.len() == target_dvs@.len(),
            forall|i: int, j: int|
                0 <= i < tank_index && 0 <= j < target_dvs@.len() ==> (#[trigger] cells@[i]@[j])
                    == cell_of(
                    *stage,
                    tank_nums@[i] as nat,
                    target_dvs@[j] as nat,
                    added_dead_weight as nat,
                ),
        decreases tank_nums.len() - tank_index,
    {
        let tank_num: u32 = tank_nums[tank_index];
        let mut row: Vec<Option<SizingResult>> = Vec::new();
        let mut target_dv_index: usize = 0;
        while target_dv_index < target_dvs.len()
            invariant
                target_dv_index <= target_dvs.len(),
                row@.len() == target_dv_index,
                forall|j: int|
                    0 <= j < target_dv_index ==> (#[trigger] row@[j]) == cell_of(
                        *stage,
                        tank_num as nat,
                        target_dvs@[j] as nat,
                        added_dead_weight as nat,
                    ),
            decreases target_dvs.len() - target_dv_index,
        {
            let cell = match size_stage(
                stage,
                tank_num,
                target_dvs[target_dv_index],
                added_dead_weight,
            ) {
                Ok(result) => Some(result),
                Err(_) => None,
            };
            row.push(cell);
            target_dv_index = target_dv_index + 1;
        }
        cells.push(row);
        tank_index = tank_index + 1;
    }
    Ok(Results { tank_nums: tank_nums.clone(), target_dvs: target_dvs.clone(), cells })
}

} // verus!
