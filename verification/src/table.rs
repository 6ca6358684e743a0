//! Tables: the width of each column and the lines of the grid.
//!
//! A table is made of measured cells. [`Table::new`] measures the texts;
//! all that follows is stated over the cells and their measures.

use crate::span::{bold, plain, Span, SpanView};
use crate::style_options::Color;
use crate::text::{push_repeat, repeat, single, spaces};
use crate::wrapping::{columns, display_width, missing_columns};
use vstd::prelude::*;
use vstd::string::*;

verus! {

/// The text of a cell with the number of columns that it takes.
#[derive(Clone, Copy, Debug, PartialEq, Eq)]
pub struct Cell<'a> {
    pub text: &'a str,
    pub columns: usize,
}

/// A `Cell` with its text as a sequence of characters.
pub struct CellView {
    pub text: Seq<char>,
    pub columns: nat,
}

impl<'a> View for Cell<'a> {
    type V = CellView;

    open spec fn view(&self) -> CellView {
        CellView { text: self.text@, columns: self.columns as nat }
    }
}

impl<'a> DeepView for Cell<'a> {
    type V = CellView;

    open spec fn deep_view(&self) -> CellView {
        self@
    }
}

/// A table of text: its headers, its rows, and the width of each column.
/// There are as many columns as headers. A row may hold fewer cells than
/// that; cells beyond the last column are not shown and do not count for
/// any width.
pub struct Table<'a> {
    headers: Vec<Cell<'a>>,
    rows: Vec<Vec<Cell<'a>>>,
    column_widths: Vec<usize>,
}

/// A `Table` as plain values.
pub struct TableView {
    pub headers: Seq<CellView>,
    pub rows: Seq<Seq<CellView>>,
    pub widths: Seq<nat>,
}

/// The width of a column after the first `count` rows: the columns of its
/// header, or of the widest cell that one of these rows holds in it, if
/// that is more.
pub open spec fn column_width(
    headers: Seq<CellView>,
    rows: Seq<Seq<CellView>>,
    count: nat,
    column: int,
) -> nat
    decreases count,
{
    if count == 0 {
        headers[column].columns
    } else {
        let earlier = column_width(headers, rows, (count - 1) as nat, column);
        let row = rows[count - 1];
        if column < row.len() && row[column].columns > earlier {
            row[column].columns
        } else {
            earlier
        }
    }
}

/// The width of every column of a table.
pub open spec fn column_widths_of(headers: Seq<CellView>, rows: Seq<Seq<CellView>>) -> Seq<nat> {
    Seq::new(headers.len(), |column: int| column_width(headers, rows, rows.len(), column))
}

/// The horizontal line of a table: for each column its width and two more
/// of `filler`, with one space between two columns.
pub open spec fn border(widths: Seq<nat>, filler: char) -> Seq<char>
    decreases widths.len(),
{
    if widths.len() == 0 {
        Seq::empty()
    } else if widths.len() == 1 {
        repeat(filler, widths[0] + 2)
    } else {
        border(widths.drop_last(), filler) + seq![' '] + repeat(filler, widths.last() + 2)
    }
}

/// The sum of the widths, each with two more.
pub open spec fn framed_total(widths: Seq<nat>) -> nat
    decreases widths.len(),
{
    if widths.len() == 0 {
        0
    } else {
        framed_total(widths.drop_last()) + widths.last() + 2
    }
}

/// One cell as it is written: a space between it and the cell before, a
/// space, the text (bold and green in the header row), the spaces that the
/// text lacks up to the column's width, and a space.
pub open spec fn cell_spans(cell: CellView, width: nat, header: bool, first: bool) -> Seq<
    SpanView,
> {
    let gap = if first {
        Seq::empty()
    } else {
        seq![plain(seq![' '])]
    };
    let shown = if header {
        bold(cell.text, Color::Green)
    } else {
        plain(cell.text)
    };
    gap + seq![
        plain(seq![' ']),
        shown,
        plain(spaces(missing_columns(cell.columns, width)) + seq![' ']),
    ]
}

/// The first `count` cells of a row as they are written.
pub open spec fn row_spans(
    cells: Seq<CellView>,
    widths: Seq<nat>,
    header: bool,
    count: nat,
) -> Seq<SpanView>
    decreases count,
{
    if count == 0 {
        Seq::empty()
    } else {
        row_spans(cells, widths, header, (count - 1) as nat) + cell_spans(
            cells[count - 1],
            widths[count - 1],
            header,
            count == 1,
        )
    }
}

/// How many cells of a row are shown: those that have a column.
pub open spec fn shown_cells(cells: Seq<CellView>, widths: Seq<nat>) -> nat {
    if cells.len() < widths.len() {
        cells.len()
    } else {
        widths.len()
    }
}

/// A row as it is written.
pub open spec fn row_line(cells: Seq<CellView>, widths: Seq<nat>, header: bool) -> Seq<SpanView> {
    row_spans(cells, widths, header, shown_cells(cells, widths))
}

/// The horizontal line of a table as it is written.
pub open spec fn border_line(widths: Seq<nat>) -> Seq<SpanView> {
    seq![plain(border(widths, '-'))]
}

/// The lines of a table: a border, the header row, a border, the rows, and
/// a border.
pub open spec fn table_lines(table: TableView) -> Seq<Seq<SpanView>> {
    seq![
        border_line(table.widths),
        row_line(table.headers, table.widths, true),
        border_line(table.widths),
    ] + Seq::new(table.rows.len(), |r: int| row_line(table.rows[r], table.widths, false))
        + seq![border_line(table.widths)]
}

/// Texts as cells with their columns as they are measured.
pub open spec fn measured_cells(texts: Seq<Seq<char>>) -> Seq<CellView> {
    Seq::new(texts.len(), |i: int| CellView { text: texts[i], columns: columns(texts[i]) })
}

/// The table of the given texts: every text measured, every column as wide
/// as its widest cell.
pub open spec fn table_of(headers: Seq<Seq<char>>, rows: Seq<Seq<Seq<char>>>) -> TableView {
    let header_cells = measured_cells(headers);
    let row_cells = Seq::new(rows.len(), |r: int| measured_cells(rows[r]));
    TableView {
        headers: header_cells,
        rows: row_cells,
        widths: column_widths_of(header_cells, row_cells),
    }
}

/// A column is as wide as its header at least, and as each cell that a row
/// holds in it.
pub proof fn column_width_covers(
    headers: Seq<CellView>,
    rows: Seq<Seq<CellView>>,
    count: nat,
    column: int,
    row: int,
)
    requires
        0 <= row < count,
        column < rows[row].len(),
    ensures
        headers[column].columns <= column_width(headers, rows, count, column),
        rows[row][column].columns <= column_width(headers, rows, count, column),
    decreases count,
{
    column_width_is_attained(headers, rows, (count - 1) as nat, column);
    if row < count - 1 {
        column_width_covers(headers, rows, (count - 1) as nat, column, row);
    }
}

/// A column is no wider than it has to be: its width is that of its header
/// or of one of its cells.
pub proof fn column_width_is_attained(
    headers: Seq<CellView>,
    rows: Seq<Seq<CellView>>,
    count: nat,
    column: int,
)
    ensures
        headers[column].columns <= column_width(headers, rows, count, column),
        column_width(headers, rows, count, column) == headers[column].columns || exists|row: int|
            0 <= row < count && column < rows[row].len() && column_width(
                headers,
                rows,
                count,
                column,
            ) == (#[trigger] rows[row])[column].columns,
    decreases count,
{
    if count > 0 {
        column_width_is_attained(headers, rows, (count - 1) as nat, column);
        let earlier = column_width(headers, rows, (count - 1) as nat, column);
        let last = rows[count - 1];
        if column < last.len() && last[column].columns > earlier {
            assert(column_width(headers, rows, count, column) == rows[count - 1][column].columns);
        }
    }
}

/// The horizontal line is as long as the widths of the columns, two more
/// for each column, and one space between each two columns.
pub proof fn border_length(widths: Seq<nat>, filler: char)
    ensures
        border(widths, filler).len() == if widths.len() == 0 {
            0
        } else {
            framed_total(widths) + (widths.len() - 1)
        },
    decreases widths.len(),
{
    if widths.len() == 1 {
        assert(framed_total(widths.drop_last()) == 0);
    } else if widths.len() > 1 {
        border_length(widths.drop_last(), filler);
    }
}

impl<'a> View for Table<'a> {
    type V = TableView;

    closed spec fn view(&self) -> TableView {
        TableView {
            headers: self.headers.deep_view(),
            rows: self.rows.deep_view(),
            widths: Seq::new(
                self.column_widths.len() as nat,
                |column: int| self.column_widths[column] as nat,
            ),
        }
    }
}

/// Measures the texts of one row.
fn measure_cells<'a>(texts: &Vec<&'a str>) -> (cells: Vec<Cell<'a>>)
    ensures
        cells.deep_view() == measured_cells(texts.deep_view()),
{
    let mut cells: Vec<Cell<'a>> = Vec::new();
    let mut i: usize = 0;
    while i < texts.len()
        invariant
            i <= texts.len(),
            cells.len() == i,
            forall|k: int|
                0 <= k < i ==> cells[k]@ == (CellView {
                    text: texts[k]@,
                    columns: columns(texts[k]@),
                }),
        decreases texts.len() - i,
    {
        cells.push(Cell { text: texts[i], columns: display_width(texts[i]) });
        i = i + 1;
    }
    assert(cells.deep_view() =~= measured_cells(texts.deep_view()));
    cells
}

impl<'a> Table<'a> {
    #[verifier::type_invariant]
    spec fn well_formed(&self) -> bool {
        self@.widths == column_widths_of(self@.headers, self@.rows)
    }

    /// Makes a table of measured cells: every column is as wide as its
    /// widest cell.
    pub fn from_cells(headers: Vec<Cell<'a>>, rows: Vec<Vec<Cell<'a>>>) -> (table: Table<'a>)
        ensures
            table@ == (TableView {
                headers: headers.deep_view(),
                rows: rows.deep_view(),
                widths: column_widths_of(headers.deep_view(), rows.deep_view()),
            }),
    {
        let ghost header_cells = headers.deep_view();
        let ghost row_cells = rows.deep_view();
        let mut column_widths: Vec<usize> = Vec::new();
        let mut column: usize = 0;
        while column < headers.len()
            invariant
                column <= headers.len(),
                header_cells == headers.deep_view(),
                column_widths.len() == column,
                forall|k: int|
                    0 <= k < column ==> column_widths[k] == column_width(
                        header_cells,
                        row_cells,
                        0,
                        k,
                    ),
            decreases headers.len() - column,
        {
            assert(header_cells[column as int] == headers[column as int]@);
            column_widths.push(headers[column].columns);
            column = column + 1;
        }
        let mut r: usize = 0;
        while r < rows.len()
            invariant
                r <= rows.len(),
                header_cells == headers.deep_view(),
                row_cells == rows.deep_view(),
                column_widths.len() == headers.len(),
                forall|k: int|
                    0 <= k < column_widths.len() ==> column_widths[k] == column_width(
                        header_cells,
                        row_cells,
                        r as nat,
                        k,
                    ),
            decreases rows.len() - r,
        {
            let row = &rows[r];
            assert(row_cells[r as int] == row.deep_view());
            let mut c: usize = 0;
            while c < row.len() && c < column_widths.len()
                invariant
                    c <= row.len(),
                    c <= column_widths.len(),
                    r < rows.len(),
                    row_cells.len() == rows.len(),
                    row_cells[r as int] == row.deep_view(),
                    column_widths.len() == headers.len(),
                    forall|k: int|
                        0 <= k < c ==> column_widths[k] == column_width(
                            header_cells,
                            row_cells,
                            (r + 1) as nat,
                            k,
                        ),
                    forall|k: int|
                        c <= k < column_widths.len() ==> column_widths[k] == column_width(
                            header_cells,
                            row_cells,
                            r as nat,
                            k,
                        ),
                decreases row.len() - c,
            {
                let width = row[c].columns;
                assert(row_cells[r as int][c as int] == row[c as int]@);
                if width > column_widths[c] {
                    column_widths.set(c, width);
                }
                c = c + 1;
            }
            r = r + 1;
        }
        let ghost widths = Seq::new(
            column_widths.len() as nat,
            |column: int| column_widths[column] as nat,
        );
        assert(widths =~= column_widths_of(header_cells, row_cells));
        Table { headers, rows, column_widths }
    }

    /// Makes a table of the given texts and measures its columns.
    pub fn new(headers: Vec<&'a str>, rows: Vec<Vec<&'a str>>) -> (table: Table<'a>)
        ensures
            table@ == table_of(headers.deep_view(), rows.deep_view()),
    {
        let header_cells = measure_cells(&headers);
        let mut row_cells: Vec<Vec<Cell<'a>>> = Vec::new();
        let mut r: usize = 0;
        while r < rows.len()
            invariant
                r <= rows.len(),
                row_cells.len() == r,
                forall|k: int|
                    0 <= k < r ==> (#[trigger] row_cells[k]).deep_view() == measured_cells(
                        rows[k].deep_view(),
                    ),
            decreases rows.len() - r,
        {
            row_cells.push(measure_cells(&rows[r]));
            r = r + 1;
        }
        assert(row_cells.deep_view() =~= Seq::new(
            rows.deep_view().len(),
            |k: int| measured_cells(rows.deep_view()[k]),
        ));
        Table::from_cells(header_cells, row_cells)
    }

    /// The widths of the columns.
    pub fn column_widths(&self) -> (widths: Vec<usize>)
        ensures
            widths@.len() == self@.widths.len(),
            forall|column: int|
                0 <= column < widths@.len() ==> widths@[column] == self@.widths[column],
            self@.widths == column_widths_of(self@.headers, self@.rows),
    {
        proof {
            use_type_invariant(self);
        }
        self.column_widths.clone()
    }

    /// Makes the horizontal line of the table out of `filler`.
    pub fn create_line(&self, filler: char) -> (line: String)
        ensures
            line@ == border(self@.widths, filler),
    {
        let mut line = String::new();
        let mut column: usize = 0;
        assert(self@.widths.take(0) =~= Seq::<nat>::empty());
        while column < self.column_widths.len()
            invariant
                column <= self.column_widths.len(),
                line@ == border(self@.widths.take(column as int), filler),
            decreases self.column_widths.len() - column,
        {
            let ghost before = self@.widths.take(column as int);
            let ghost after = self@.widths.take(column + 1);
            assert(after.drop_last() =~= before);
            assert(after.last() == self.column_widths[column as int]);
            if column > 0 {
                line.push(' ');
            }
            push_repeat(&mut line, filler, self.column_widths[column]);
            line.push(filler);
            line.push(filler);
            assert(line@ =~= border(after, filler));
            column = column + 1;
        }
        assert(self@.widths.take(column as int) =~= self@.widths);
        line
    }

    /// Makes the spans of one row; `header` tells the header row from the
    /// others.
    fn row(&self, cells: &Vec<Cell<'a>>, header: bool) -> (spans: Vec<Span>)
        ensures
            spans.deep_view() == row_line(cells.deep_view(), self@.widths, header),
    {
        let ghost shown = cells.deep_view();
        let mut spans: Vec<Span> = Vec::new();
        let mut c: usize = 0;
        assert(spans.deep_view() =~= row_spans(shown, self@.widths, header, 0));
        while c < cells.len() && c < self.column_widths.len()
            invariant
                c <= cells.len(),
                c <= self.column_widths.len(),
                shown == cells.deep_view(),
                spans.deep_view() == row_spans(shown, self@.widths, header, c as nat),
            decreases cells.len() - c,
        {
            let ghost before = spans.deep_view();
            let width = self.column_widths[c];
            let cell = cells[c];
            assert(shown[c as int] == cell@);
            assert(self@.widths[c as int] == width);
            if c > 0 {
                spans.push(Span::plain(single(' ')));
            }
            spans.push(Span::plain(single(' ')));
            let text = String::from_str(cell.text);
            if header {
                spans.push(Span::bold(text, Color::Green));
            } else {
                spans.push(Span::plain(text));
            }
            let mut fill = String::new();
            if width > cell.columns {
                push_repeat(&mut fill, ' ', width - cell.columns);
            }
            fill.push(' ');
            assert(fill@ =~= spaces(missing_columns(cell@.columns, width as nat)) + seq![' ']);
            spans.push(Span::plain(fill));
            assert(spans.deep_view() =~= before + cell_spans(
                shown[c as int],
                width as nat,
                header,
                c == 0,
            ));
            c = c + 1;
        }
        spans
    }

    /// Makes the horizontal line of the table as a line to write.
    fn border_row(&self) -> (spans: Vec<Span>)
        ensures
            spans.deep_view() == border_line(self@.widths),
    {
        let mut spans: Vec<Span> = Vec::new();
        spans.push(Span::plain(self.create_line('-')));
        assert(spans.deep_view() =~= border_line(self@.widths));
        spans
    }

    /// The lines of the table, each as the spans to write before a line
    /// feed: a border, the header row in bold green, a border, the rows,
    /// and a border.
    pub fn print_table(&self) -> (lines: Vec<Vec<Span>>)
        ensures
            lines.deep_view() == table_lines(self@),
    {
        let ghost table = self@;
        let ghost head = seq![
            border_line(table.widths),
            row_line(table.headers, table.widths, true),
            border_line(table.widths),
        ];
        let mut lines: Vec<Vec<Span>> = Vec::new();
        lines.push(self.border_row());
        lines.push(self.row(&self.headers, true));
        lines.push(self.border_row());
        assert(lines.deep_view() =~= head + Seq::new(
            0,
            |r: int| row_line(table.rows[r], table.widths, false),
        ));
        let mut r: usize = 0;
        while r < self.rows.len()
            invariant
                r <= self.rows.len(),
                table == self@,
                lines.deep_view() == head + Seq::new(
                    r as nat,
                    |k: int| row_line(table.rows[k], table.widths, false),
                ),
            decreases self.rows.len() - r,
        {
            let ghost before = lines.deep_view();
            let spans = self.row(&self.rows[r], false);
            assert(table.rows[r as int] == self.rows[r as int].deep_view());
            lines.push(spans);
            assert(lines.deep_view() =~= before.push(spans.deep_view()));
            r = r + 1;
            assert(lines.deep_view() =~= head + Seq::new(
                r as nat,
                |k: int| row_line(table.rows[k], table.widths, false),
            ));
        }
        let ghost body = lines.deep_view();
        lines.push(self.border_row());
        assert(lines.deep_view() =~= body.push(border_line(table.widths)));
        assert(lines.deep_view() =~= table_lines(table));
        lines
    }
}

} // verus!
