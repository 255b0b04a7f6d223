//! The results as a `comfy_table::Table`.
//!
//! Verus does not see inside a table. What a table and a column hold is
//! named by four functions without a body, and the contracts of the five
//! functions that call into `comfy_table` are taken from its source, not
//! proved. The table is built without terminal support or custom styling, so
//! that a cell holds exactly the text it was given.

use vstd::prelude::*;
use crate::report::{header_row, header_texts, row_texts, table_row};
use crate::sweep::Results;

verus! {

/// How the cells of a column are aligned.
#[derive(Clone, Copy, Debug, PartialEq, Eq, Structural)]
pub enum Alignment {
    /// Against the left border.
    Left,
    /// Against the right border.
    Right,
    /// In the middle.
    Center,
}

/// Makes `comfy_table::Table` known to Verus, as a type without fields.
#[verifier::external_type_specification]
#[verifier::external_body]
pub struct ExTable(comfy_table::Table);

/// What `comfy_table::Cell::content` returns for each cell of the header of a
/// table, `None` where the table has no header.
pub uninterp spec fn table_header(table: comfy_table::Table) -> Option<Seq<Seq<char>>>;

/// What `comfy_table::Cell::content` returns for each cell of each row of a
/// table, in the order in which the rows were added.
pub uninterp spec fn table_rows(table: comfy_table::Table) -> Seq<Seq<Seq<char>>>;

/// The alignment set on each column of a table, `None` where none was set.
pub uninterp spec fn table_alignments(table: comfy_table::Table) -> Seq<Option<Alignment>>;

/// Makes `comfy_table::Column` known to Verus, as a type without fields.
#[verifier::external_type_specification]
#[verifier::external_body]
pub struct ExColumn(comfy_table::Column);

/// The alignment set on a column, `None` where none was set.
pub uninterp spec fn column_alignment(column: comfy_table::Column) -> Option<Alignment>;

/// The columns of a table after a row of `cells` cells came in: as many more
/// columns, without alignment, as the row has cells beyond them.
pub open spec fn grown(alignments: Seq<Option<Alignment>>, cells: nat) -> Seq<Option<Alignment>> {
    if cells <= alignments.len() {
        alignments
    } else {
        alignments + Seq::new((cells - alignments.len()) as nat, |i: int| None::<Alignment>)
    }
}

/// The alignments of the results table: the tank counts centred, every other
/// column to the right.
pub open spec fn results_alignments(columns: nat) -> Seq<Option<Alignment>> {
    Seq::new(
        columns,
        |i: int|
            if i == 0 {
                Some(Alignment::Center)
            } else {
                Some(Alignment::Right)
            },
    )
}

/// The rows of the results table.
pub open spec fn results_rows(results: Results) -> Seq<Seq<Seq<char>>> {
    Seq::new(
        results.cells@.len(),
        |i: int| row_texts(results.tank_nums@[i] as nat, results.cells@[i]@),
    )
}

/// `comfy_table::Table::new`: the new table has no header, no row and no
/// column.
#[verifier::external_body]
fn new_table() -> (table: comfy_table::Table)
    ensures
        table_header(table) is None,
        table_rows(table) == Seq::<Seq<Seq<char>>>::empty(),
        table_alignments(table) == Seq::<Option<Alignment>>::empty(),
{
    comfy_table::Table::new()
}

/// `comfy_table::Table::set_header`: the cells become the header, each cell
/// holding its text; the rows stay, and the table gets a column without
/// alignment for each cell beyond its columns. That a cell holds its text
/// unchanged is true of `comfy_table` built without its feature
/// `custom_styling`, as it is here; with the feature a cell rewrites escape
/// sequences in its text.
#[verifier::external_body]
fn set_header(table: &mut comfy_table::Table, cells: Vec<String>)
    ensures
        table_header(*final(table)) == Some(cells.deep_view()),
        table_rows(*final(table)) == table_rows(*old(table)),
        table_alignments(*final(table)) == grown(table_alignments(*old(table)), cells@.len()),
{
    table.set_header(cells);
}

/// `comfy_table::Table::add_row`: the cells become the last row, each cell
/// holding its text; the header stays, and the table gets a column without
/// alignment for each cell beyond its columns. That a cell holds its text
/// unchanged is true of `comfy_table` built without its feature
/// `custom_styling`, as it is here.
#[verifier::external_body]
fn add_row(table: &mut comfy_table::Table, cells: Vec<String>)
    ensures
        table_header(*final(table)) == table_header(*old(table)),
        table_rows(*final(table)) == table_rows(*old(table)).push(cells.deep_view()),
        table_alignments(*final(table)) == grown(table_alignments(*old(table)), cells@.len()),
{
    table.add_row(cells);
}

/// `comfy_table::Table::column_mut`: the column at `index`, borrowed from the
/// table, where the table has that many columns. What is done to the column
/// is done to that column of the table; header, rows and the other columns
/// stay.
#[verifier::external_body]
fn column_mut(table: &mut comfy_table::Table, index: usize) -> (column: Option<
    &mut comfy_table::Column,
>)
    ensures
        match column {
            Some(c) => {
                &&& index < table_alignments(*old(table)).len()
                &&& column_alignment(*c) == table_alignments(*old(table))[index as int]
                &&& table_header(*final(table)) == table_header(*old(table))
                &&& table_rows(*final(table)) == table_rows(*old(table))
                &&& table_alignments(*final(table)) == table_alignments(*old(table)).update(
                    index as int,
                    column_alignment(*final(c)),
                )
            },
            None => {
                &&& index >= table_alignments(*old(table)).len()
                &&& table_header(*final(table)) == table_header(*old(table))
                &&& table_rows(*final(table)) == table_rows(*old(table))
                &&& table_alignments(*final(table)) == table_alignments(*old(table))
            },
        },
{
    table.column_mut(index)
}

/// `comfy_table::Column::set_cell_alignment`: the column gets the alignment.
#[verifier::external_body]
fn set_cell_alignment(column: &mut comfy_table::Column, alignment: Alignment)
    ensures
        column_alignment(*final(column)) == Some(alignment),
{
    column.set_cell_alignment(
        match alignment {
            Alignment::Left => comfy_table::CellAlignment::Left,
            Alignment::Right => comfy_table::CellAlignment::Right,
            Alignment::Center => comfy_table::CellAlignment::Center,
        },
    );
}

/// Sets the alignment of the column at `index`, where the table has it.
fn set_column_alignment(table: &mut comfy_table::Table, index: usize, alignment: Alignment)
    requires
        index < table_alignments(*old(table)).len(),
    ensures
        table_header(*final(table)) == table_header(*old(table)),
        table_rows(*final(table)) == table_rows(*old(table)),
        table_alignments(*final(table)) == table_alignments(*old(table)).update(
            index as int,
            Some(alignment),
        ),
{
    match column_mut(table, index) {
        Some(column) => {
            set_cell_alignment(column, alignment);
        },
        None => {},
    }
}

/// The table of the results: a header with one label per target, one row per
/// tank count with one cell per target, the tank counts centred and the cells
/// aligned to the right.
pub fn generate_table(results: &Results) -> (table: comfy_table::Table)
    requires
        results.wf(),
    ensures
        table_header(table) == Some(header_texts(results.target_dvs@)),
        table_rows(table) == results_rows(*results),
        table_alignments(table) == results_alignments(results.target_dvs@.len() + 1),
{
    let ghost target_count: nat = results.target_dvs@.len();
    let mut table = new_table();
    let header = header_row(&results.target_dvs);
    let columns: usize = header.len();
    assert(header@.len() == header.deep_view().len());
    set_header(&mut table, header);
    assert(table_alignments(table) =~= Seq::new(
        (target_count + 1) as nat,
        |i: int| None::<Alignment>,
    ));
    let mut tank_index: usize = 0;
    while tank_index < results.cells.len()
        invariant
            results.wf(),
            tank_index <= results.cells.len(),
            target_count == results.target_dvs@.len(),
            columns == target_count + 1,
            table_header(table) == Some(header_texts(results.target_dvs@)),
            table_alignments(table) == Seq::new(
                (target_count + 1) as nat,
                |i: int| None::<Alignment>,
            ),
            table_rows(table).len() == tank_index,
            forall|i: int|
                0 <= i < tank_index ==> (#[trigger] table_rows(table)[i]) == row_texts(
                    results.tank_nums@[i] as nat,
                    results.cells@[i]@,
                ),
        decreases results.cells.len() - tank_index,
    {
        let row = table_row(results.tank_nums[tank_index], &results.cells[tank_index]);
        assert(row@.len() == row.deep_view().len());
        add_row(&mut table, row);
        tank_index = tank_index + 1;
    }
    assert(table_rows(table) =~= results_rows(*results));
    let mut column: usize = 1;
    while column < columns
        invariant
            1 <= column <= columns,
            columns == target_count + 1,
            table_header(table) == Some(header_texts(results.target_dvs@)),
            table_rows(table) == results_rows(*results),
            table_alignments(table) == Seq::new(
                (target_count + 1) as nat,
                |i: int|
                    if 1 <= i < column {
                        Some(Alignment::Right)
                    } else {
                        None::<Alignment>
                    },
            ),
        decreases columns - column,
    {
        set_column_alignment(&mut table, column, Alignment::Right);
        assert(table_alignments(table) =~= Seq::new(
            (target_count + 1) as nat,
            |i: int|
                if 1 <= i < column + 1 {
                    Some(Alignment::Right)
                } else {
                    None::<Alignment>
                },
        ));
        column = column + 1;
    }
    set_column_alignment(&mut table, 0, Alignment::Center);
    assert(table_alignments(table) =~= results_alignments((target_count + 1) as nat));
    table
}

} // verus!
