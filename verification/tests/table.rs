use comfy_table::Table;
use limits_of_ions::dawn::{dawn_stage, target_dvs, target_tanks, KILOGRAM};
use limits_of_ions::report::{
    cell_string, header_row, results_file_name, table_row, target_label_string,
};
use limits_of_ions::stage::Stage;
use limits_of_ions::sweep::{generate_results, Results, SizingResult};
use limits_of_ions::table::{generate_table, Alignment};

const CORNER: &str = "Max ΔV from single burn →\nNumber of tanks ↓";

fn feasible() -> SizingResult {
    SizingResult { dv: 5_786_507, twr: 660, battery_num: 1 }
}

fn one_feasible_one_absent() -> Results {
    Results {
        tank_nums: vec![1],
        target_dvs: vec![10_000, 1_500_000],
        cells: vec![vec![Some(feasible()), None]],
    }
}

fn contents(table: &Table) -> Vec<Vec<String>> {
    table.row_iter().map(|row| row.cell_iter().map(|cell| cell.content()).collect()).collect()
}

#[test]
fn sizing_text() {
    assert_eq!(feasible().to_string(), "5786.51 m/s ΔV\n0.660 TWR\n1 batteries");
    let other: SizingResult = SizingResult { dv: 3_893_535, twr: 454, battery_num: 29 };
    assert_eq!(other.to_string(), "3893.54 m/s ΔV\n0.454 TWR\n29 batteries");
}

#[test]
fn sizing_text_rounds_to_the_nearest() {
    let down: SizingResult = SizingResult { dv: 1_234_994, twr: 1_000, battery_num: 0 };
    assert_eq!(down.to_string(), "1234.99 m/s ΔV\n1.000 TWR\n0 batteries");
    let up: SizingResult = SizingResult { dv: 1_234_995, twr: 12_005, battery_num: 1000 };
    assert_eq!(up.to_string(), "1235.00 m/s ΔV\n12.005 TWR\n1000 batteries");
    let zero: SizingResult = SizingResult { dv: 4, twr: 0, battery_num: 0 };
    assert_eq!(zero.to_string(), "0.00 m/s ΔV\n0.000 TWR\n0 batteries");
}

#[test]
fn cell_text() {
    assert_eq!(cell_string(&None), "Unachievable");
    assert_eq!(cell_string(&Some(feasible())), "5786.51 m/s ΔV\n0.660 TWR\n1 batteries");
}

#[test]
fn target_labels() {
    assert_eq!(target_label_string(10_000), "10 m/s");
    assert_eq!(target_label_string(1_500_000), "1500 m/s");
    assert_eq!(target_label_string(0), "0 m/s");
    assert_eq!(target_label_string(1_499), "1 m/s");
    assert_eq!(target_label_string(1_500), "2 m/s");
}

#[test]
fn header_of_the_sweep() {
    let header: Vec<String> = header_row(&target_dvs());
    assert_eq!(header.len(), 25);
    assert_eq!(header[0], CORNER);
    assert_eq!(header[1], "10 m/s");
    assert_eq!(header[5], "80 m/s");
    assert_eq!(header[24], "1500 m/s");
    assert_eq!(header_row(&vec![]), vec![CORNER.to_string()]);
}

#[test]
fn row_of_one_tank_count() {
    let row: Vec<String> = table_row(12, &vec![None, Some(feasible())]);
    assert_eq!(row, vec!["12", "Unachievable", "5786.51 m/s ΔV\n0.660 TWR\n1 batteries"]);
    assert_eq!(table_row(0, &vec![]), vec!["0"]);
}

#[test]
fn file_names() {
    assert_eq!(results_file_name(0), "results/limits_of_ions_0kg_dead_weight.txt");
    assert_eq!(results_file_name(500), "results/limits_of_ions_500kg_dead_weight.txt");
}

#[test]
fn alignments_differ() {
    assert_ne!(Alignment::Left, Alignment::Right);
    assert_ne!(Alignment::Right, Alignment::Center);
}

#[test]
fn table_holds_header_and_rows() {
    let table: Table = generate_table(&one_feasible_one_absent());
    let header: Vec<String> =
        table.header().unwrap().cell_iter().map(|cell| cell.content()).collect();
    assert_eq!(header, vec![CORNER, "10 m/s", "1500 m/s"]);
    assert_eq!(table.row_count(), 1);
    assert_eq!(
        contents(&table),
        vec![vec!["1", "5786.51 m/s ΔV\n0.660 TWR\n1 batteries", "Unachievable"]]
    );
    assert_eq!(table.column_iter().count(), 3);
}

#[test]
fn table_renders_feasible_and_absent_cells() {
    let rendered: String = generate_table(&one_feasible_one_absent()).to_string();
    let lines: Vec<&str> = rendered.lines().collect();
    let absent: Vec<&&str> = lines.iter().filter(|line| line.contains("Unachievable")).collect();
    assert_eq!(absent.len(), 1);
    let dv: usize = lines.iter().position(|line| line.contains("5786.51 m/s ΔV")).unwrap();
    assert!(lines[dv + 1].contains("0.660 TWR"));
    assert!(lines[dv + 2].contains("1 batteries"));
    assert!(lines[dv].contains("Unachievable"));
    assert!(!lines[dv + 1].contains("Unachievable"));
}

#[test]
fn table_aligns_its_columns() {
    let rendered: String = generate_table(&one_feasible_one_absent()).to_string();
    // Cells to the right: the shorter lines are padded on the left.
    assert!(rendered.contains("| 5786.51 m/s ΔV |"), "{}", rendered);
    assert!(rendered.contains("|      0.660 TWR |"), "{}", rendered);
    assert!(rendered.contains("|    1 batteries |"), "{}", rendered);
    assert!(rendered.contains("| Unachievable |"), "{}", rendered);
    assert!(rendered.contains("|         10 m/s |"), "{}", rendered);
    // The tank count in the middle of a column as wide as the corner label.
    assert!(rendered.contains("|             1             |"), "{}", rendered);
}

#[test]
fn table_rendering() {
    let expected: &str = "\
+---------------------------+----------------+--------------+
| Max ΔV from single burn → |         10 m/s |     1500 m/s |
|     Number of tanks ↓     |                |              |
+===========================================================+
|             1             | 5786.51 m/s ΔV | Unachievable |
|                           |      0.660 TWR |              |
|                           |    1 batteries |              |
+---------------------------+----------------+--------------+";
    assert_eq!(generate_table(&one_feasible_one_absent()).to_string(), expected);
}

#[test]
fn results_shape() {
    assert!(one_feasible_one_absent().is_rectangular());
    let short: Results = Results {
        tank_nums: vec![1, 2],
        target_dvs: vec![10_000],
        cells: vec![vec![None]],
    };
    assert!(!short.is_rectangular());
    let ragged: Results = Results {
        tank_nums: vec![1, 2],
        target_dvs: vec![10_000],
        cells: vec![vec![None], vec![None, None]],
    };
    assert!(!ragged.is_rectangular());
    let empty: Results = Results { tank_nums: vec![], target_dvs: vec![10_000], cells: vec![] };
    assert!(empty.is_rectangular());
}

#[test]
fn table_of_an_empty_sweep() {
    let table: Table = generate_table(&Results {
        tank_nums: vec![],
        target_dvs: vec![],
        cells: vec![],
    });
    assert_eq!(table.row_count(), 0);
    assert_eq!(table.header().unwrap().cell_count(), 1);
    assert_eq!(table.header().unwrap().cell_iter().next().unwrap().content(), CORNER);
}

#[test]
fn table_of_the_sweep() {
    let stage: Stage = dawn_stage();
    let tanks: Vec<u32> = target_tanks();
    let targets: Vec<u64> = target_dvs();
    let results: Results = generate_results(&stage, &tanks, &targets, 500 * KILOGRAM).unwrap();
    let table: Table = generate_table(&results);
    assert_eq!(table.row_count(), 10);
    assert_eq!(table.header().unwrap().cell_count(), 25);
    let rows: Vec<Vec<String>> = contents(&table);
    for i in 0..10 {
        assert_eq!(rows[i].len(), 25);
        assert_eq!(rows[i][0], tanks[i].to_string());
        for j in 0..24 {
            assert_eq!(rows[i][j + 1], cell_string(&results.cells[i][j]));
        }
    }
    assert_eq!(rows[0][24], "Unachievable");
    assert_eq!(rows[9][24], "Unachievable");
    assert_eq!(rows[9][22], "15817.92 m/s ΔV\n0.080 TWR\n142 batteries");
    assert_eq!(rows[9][0], "20");
}
