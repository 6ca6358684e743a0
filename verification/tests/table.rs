use rustic_print::span::Span;
use rustic_print::style_options::{Color, StyleOptions};
use rustic_print::table::{Cell, Table};
use rustic_print::RusticPrint;

fn text_of(line: &[Span]) -> String {
    line.iter().map(|span| span.text.as_str()).collect()
}

fn plain() -> StyleOptions {
    StyleOptions {
        foreground: None,
        background: None,
    }
}

#[test]
fn column_widths_are_the_widest_of_header_and_cells() {
    let table = Table::new(vec!["A", "B"], vec![vec!["1", "22"]]);
    assert_eq!(table.column_widths(), vec![1, 2]);
    let table = Table::new(
        vec!["Name", "Age", "Occupation"],
        vec![
            vec!["Alice", "30", "Engineer"],
            vec!["Bob", "25", "Designer"],
            vec!["Charlie", "35", "Manager"],
        ],
    );
    assert_eq!(table.column_widths(), vec![7, 3, 10]);
}

#[test]
fn border_spans_every_column() {
    let table = Table::new(vec!["A", "B"], vec![vec!["1", "22"]]);
    let border = table.create_line('-');
    assert_eq!(border, "--- ----");
    assert_eq!(border.len(), (1 + 2) + (2 + 2) + (2 - 1));
    assert_eq!(table.create_line('='), "=== ====");
}

#[test]
fn border_length_is_the_framed_widths_and_the_gaps() {
    let table = Table::new(
        vec!["Name", "Age", "Occupation"],
        vec![vec!["Charlie", "35", "Manager"]],
    );
    let widths = table.column_widths();
    let border = table.create_line('*');
    let framed: usize = widths.iter().map(|width| width + 2).sum();
    assert_eq!(border.chars().count(), framed + (widths.len() - 1));
    assert_eq!(border, "********* ***** ************");
}

#[test]
fn table_without_columns_has_an_empty_border() {
    let table = Table::new(Vec::new(), vec![vec!["x"]]);
    assert_eq!(table.column_widths(), Vec::<usize>::new());
    assert_eq!(table.create_line('-'), "");
    let lines = table.print_table();
    assert_eq!(lines.len(), 5);
    assert_eq!(text_of(&lines[3]), "");
}

#[test]
fn short_rows_leave_columns_empty() {
    let table = Table::new(vec!["A", "B", "C"], vec![vec!["long cell"], vec![]]);
    assert_eq!(table.column_widths(), vec![9, 1, 1]);
    let lines = table.print_table();
    assert_eq!(text_of(&lines[3]), " long cell ");
    assert_eq!(text_of(&lines[4]), "");
}

#[test]
fn cells_beyond_the_last_column_are_not_shown() {
    let table = Table::new(vec!["A"], vec![vec!["1", "overflowing", "more"]]);
    assert_eq!(table.column_widths(), vec![1]);
    let lines = table.print_table();
    assert_eq!(lines.len(), 5);
    assert_eq!(text_of(&lines[3]), " 1 ");
    assert_eq!(table.create_line('-'), "---");
}

#[test]
fn wide_characters_widen_a_column_by_their_columns() {
    let table = Table::new(vec!["名前", "B"], vec![vec!["x", "yy"]]);
    assert_eq!(table.column_widths(), vec![4, 2]);
    let lines = table.print_table();
    assert_eq!(text_of(&lines[1]), " 名前   B  ");
    assert_eq!(text_of(&lines[3]), " x      yy ");
}

#[test]
fn table_lines_are_border_header_border_rows_border() {
    let table = Table::new(vec!["A", "B"], vec![vec!["1", "22"], vec!["333", "4"]]);
    let lines = table.print_table();
    let texts: Vec<String> = lines.iter().map(|line| text_of(line)).collect();
    assert_eq!(
        texts,
        vec![
            "----- ----".to_string(),
            " A     B  ".to_string(),
            "----- ----".to_string(),
            " 1     22 ".to_string(),
            " 333   4  ".to_string(),
            "----- ----".to_string(),
        ]
    );
    for text in &texts {
        assert_eq!(text.len(), 10);
    }
}

#[test]
fn header_cells_are_bold_green_and_the_rest_plain() {
    let table = Table::new(vec!["A", "B"], vec![vec!["1", "22"]]);
    let lines = table.print_table();
    let green = StyleOptions {
        foreground: Some(Color::Green),
        background: None,
    };
    let header = &lines[1];
    assert_eq!(
        header,
        &vec![
            Span::plain(" ".to_string()),
            Span::bold("A".to_string(), Color::Green),
            Span::plain(" ".to_string()),
            Span::plain(" ".to_string()),
            Span::plain(" ".to_string()),
            Span::bold("B".to_string(), Color::Green),
            Span::plain("  ".to_string()),
        ]
    );
    assert_eq!(header[1].style, green);
    assert!(header[1].bold);
    for line in [&lines[0], &lines[2], &lines[3], &lines[4]] {
        for span in line.iter() {
            assert_eq!(span.style, plain());
            assert!(!span.bold);
        }
    }
    assert_eq!(lines[0], vec![Span::plain("--- ----".to_string())]);
}

#[test]
fn printer_lays_out_the_same_table() {
    let headers = vec!["Name", "Age"];
    let rows = vec![vec!["Alice", "30"], vec!["Bob"]];
    let lines = RusticPrint::new().table(headers.clone(), rows.clone());
    assert_eq!(lines, Table::new(headers, rows).print_table());
    assert_eq!(text_of(&lines[0]), "------- -----");
    assert_eq!(text_of(&lines[4]), " Bob   ");
}

#[test]
fn table_of_measured_cells_goes_by_their_measures() {
    let headers = vec![
        Cell {
            text: "A",
            columns: 1,
        },
        Cell {
            text: "B",
            columns: 1,
        },
    ];
    let rows = vec![vec![
        Cell {
            text: "1",
            columns: 1,
        },
        Cell {
            text: "22",
            columns: 2,
        },
    ]];
    let table = Table::from_cells(headers, rows);
    assert_eq!(table.column_widths(), vec![1, 2]);
    assert_eq!(table.create_line('-'), "--- ----");
    let odd = Table::from_cells(
        vec![Cell {
            text: "wide",
            columns: 2,
        }],
        vec![vec![Cell {
            text: "x",
            columns: 5,
        }]],
    );
    assert_eq!(odd.column_widths(), vec![5]);
    let lines = odd.print_table();
    assert_eq!(text_of(&lines[1]), " wide    ");
    assert_eq!(text_of(&lines[3]), " x ");
}
