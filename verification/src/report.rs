//! The text of the results table: one label per target, one row per tank
//! count, one cell per sizing.

use vstd::prelude::*;
use vstd::string::StringExecFns;
use crate::rounding::{div_round, round_div};
use crate::sweep::SizingResult;
use crate::text::{decimal, hundredths, push_decimal, push_hundredths, push_thousandths, thousandths};

verus! {

/// The text of a sizing: the achieved velocity change in metres per second
/// with two decimal places, the thrust-to-weight ratio with three, and the
/// battery count, one per line.
pub open spec fn result_text(result: SizingResult) -> Seq<char> {
    hundredths(round_div(result.dv as nat, 10)) + " m/s ΔV\n"@ + thousandths(result.twr as nat)
        + " TWR\n"@ + decimal(result.battery_num as nat) + " batteries"@
}

/// The text of a cell: that of its sizing, or `Unachievable`.
pub open spec fn cell_text(cell: Option<SizingResult>) -> Seq<char> {
    match cell {
        Some(result) => result_text(result),
        None => "Unachievable"@,
    }
}

/// The label of a target: whole metres per second.
pub open spec fn target_label(target_dv: nat) -> Seq<char> {
    decimal(round_div(target_dv, 1000)) + " m/s"@
}

/// The label of the corner above the tank counts and before the targets.
pub open spec fn corner_label() -> Seq<char> {
    "Max ΔV from single burn →\nNumber of tanks ↓"@
}

/// The header: the corner label, then one label per target.
pub open spec fn header_texts(target_dvs: Seq<u64>) -> Seq<Seq<char>> {
    Seq::new(
        target_dvs.len() + 1,
        |i: int|
            if i == 0 {
                corner_label()
            } else {
                target_label(target_dvs[i - 1] as nat)
            },
    )
}

/// A row: the tank count, then one text per cell.
pub open spec fn row_texts(tank_num: nat, cells: Seq<Option<SizingResult>>) -> Seq<Seq<char>> {
    Seq::new(
        cells.len() + 1,
        |i: int|
            if i == 0 {
                decimal(tank_num)
            } else {
                cell_text(cells[i - 1])
            },
    )
}

/// The name of the file that holds the table for an added dead weight of
/// `weight` kilograms.
pub open spec fn file_name(weight: nat) -> Seq<char> {
    "results/limits_of_ions_"@ + decimal(weight) + "kg_dead_weight.txt"@
}

impl SizingResult {
    /// The text of the sizing.
    pub fn to_string(self) -> (text: String)
        ensures
            text@ == result_text(self),
    {
        let mut text = String::new();
        push_hundredths(&mut text, div_round(self.dv as u128, 10));
        text.append(" m/s ΔV\n");
        push_thousandths(&mut text, self.twr);
        text.append(" TWR\n");
        push_decimal(&mut text, self.battery_num as u128);
        text.append(" batteries");
        assert(text@ =~= result_text(self));
        text
    }
}

/// The text of a cell.
pub fn cell_string(cell: &Option<SizingResult>) -> (text: String)
    ensures
        text@ == cell_text(*cell),
{
    match cell {
        Some(result) => result.to_string(),
        None => String::from_str("Unachievable"),
    }
}

/// The label of a target.
pub fn target_label_string(target_dv: u64) -> (text: String)
    ensures
        text@ == target_label(target_dv as nat),
{
    let mut text = String::new();
    push_decimal(&mut text, div_round(target_dv as u128, 1000));
    text.append(" m/s");
    assert(text@ =~= target_label(target_dv as nat));
    text
}

/// The name of the file that holds the table for an added dead weight of
/// `weight` kilograms.
pub fn results_file_name(weight: u64) -> (name: String)
    ensures
        name@ == file_name(weight as nat),
{
    let mut name = String::from_str("results/limits_of_ions_");
    push_decimal(&mut name, weight as u128);
    name.append("kg_dead_weight.txt");
    assert(name@ =~= file_name(weight as nat));
    name
}

/// The header of the table.
pub fn header_row(target_dvs: &Vec<u64>) -> (row: Vec<String>)
    ensures
        row.deep_view() == header_texts(target_dvs@),
{
    let mut row: Vec<String> = Vec::new();
    row.push(String::from_str("Max ΔV from single burn →\nNumber of tanks ↓"));
    let mut i: usize = 0;
    while i < target_dvs.len()
        invariant
            i <= target_dvs.len(),
            row@.len() == i + 1,
            row@[0]@ == corner_label(),
            forall|k: int| 0 <= k < i ==> (#[trigger] row@[k + 1])@ == target_label(target_dvs@[k] as nat),
        decreases target_dvs.len() - i,
    {
        row.push(target_label_string(target_dvs[i]));
        i = i + 1;
    }
    assert(row.deep_view() =~= header_texts(target_dvs@)) by {
        assert forall|k: int| 0 <= k < row@.len() implies row.deep_view()[k] == header_texts(
            target_dvs@,
        )[k] by {
            if k > 0 {
                assert(row@[(k - 1) + 1]@ == target_label(target_dvs@[k - 1] as nat));
            }
        }
    }
    row
}

/// One row of the table.
pub fn table_row(tank_num: u32, cells: &Vec<Option<SizingResult>>) -> (row: Vec<String>)
    ensures
        row.deep_view() == row_texts(tank_num as nat, cells@),
{
    let mut row: Vec<String> = Vec::new();
    let mut label = String::new();
    push_decimal(&mut label, tank_num as u128);
    assert(label@ =~= decimal(tank_num as nat));
    row.push(label);
    let mut i: usize = 0;
    while i < cells.len()
        invariant
            i <= cells.len(),
            row@.len() == i + 1,
            row@[0]@ == decimal(tank_num as nat),
            forall|k: int| 0 <= k < i ==> (#[trigger] row@[k + 1])@ == cell_text(cells@[k]),
        decreases cells.len() - i,
    {
        row.push(cell_string(&cells[i]));
        i = i + 1;
    }
    assert(row.deep_view() =~= row_texts(tank_num as nat, cells@)) by {
        assert forall|k: int| 0 <= k < row@.len() implies row.deep_view()[k] == row_texts(
            tank_num as nat,
            cells@,
        )[k] by {
            if k > 0 {
                assert(row@[(k - 1) + 1]@ == cell_text(cells@[k - 1]));
            }
        }
    }
    row
}

} // verus!
