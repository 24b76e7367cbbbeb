//! Tables as the client prints them, rendered by `prettytable`.

use prettytable::format::{FormatBuilder, LinePosition, LineSeparator};
use prettytable::Row;
use vstd::prelude::*;
use vstd::string::StringExecFns;

verus! {

/// The look of a table: the column separator, the left and right border, the
/// rule drawn above and below the table (its line, junction, left and right
/// corner characters) and the padding inside each cell.
#[derive(Clone, Copy, Debug, PartialEq, Eq, Structural)]
pub struct TableStyle {
    pub column_separator: char,
    pub border: char,
    pub rule_line: char,
    pub rule_junction: char,
    pub rule_left: char,
    pub rule_right: char,
    pub padding_left: usize,
    pub padding_right: usize,
}

#[verifier::external_type_specification]
#[verifier::external_body]
pub struct ExTable(prettytable::Table);

/// The rows of a table, each a sequence of cells, each cell the sequence of its lines.
pub uninterp spec fn table_cells(t: prettytable::Table) -> Seq<Seq<Seq<Seq<char>>>>;

/// The style a table was made with.
pub uninterp spec fn table_style(t: prettytable::Table) -> TableStyle;

/// The text `prettytable` renders for rows of cells (each cell given by its lines)
/// in a given style.
pub uninterp spec fn table_text(style: TableStyle, rows: Seq<Seq<Seq<Seq<char>>>>) -> Seq<char>;

/// A line without one final carriage return.
pub open spec fn strip_cr(line: Seq<char>) -> Seq<char> {
    if line.len() > 0 && line.last() == '\r' {
        line.drop_last()
    } else {
        line
    }
}

/// The lines of `s` that follow the partial line `cur`, as `str::lines` splits them.
pub open spec fn lines_from(cur: Seq<char>, s: Seq<char>) -> Seq<Seq<char>>
    decreases s.len(),
{
    if s.len() == 0 {
        if cur.len() == 0 { Seq::empty() } else { seq![cur] }
    } else if s[0] == '\n' {
        seq![strip_cr(cur)] + lines_from(Seq::empty(), s.drop_first())
    } else {
        lines_from(cur.push(s[0]), s.drop_first())
    }
}

/// The lines of a text as `str::lines` gives them: split at each `\n`, a `\r`
/// before the `\n` dropped, no line after a final `\n`, none at all for `""`.
pub open spec fn str_lines(s: Seq<char>) -> Seq<Seq<char>> {
    lines_from(Seq::empty(), s)
}

/// The lines of each cell of a row of cell texts.
pub open spec fn row_lines(row: Seq<Seq<char>>) -> Seq<Seq<Seq<char>>> {
    row.map_values(|c: Seq<char>| str_lines(c))
}

/// The lines of each cell of rows of cell texts: what a table keeps of them.
pub open spec fn grid_lines(rows: Seq<Seq<Seq<char>>>) -> Seq<Seq<Seq<Seq<char>>>> {
    rows.map_values(|r: Seq<Seq<char>>| row_lines(r))
}

/// The cell texts of a row.
pub open spec fn row_view(row: Seq<String>) -> Seq<Seq<char>> {
    row.map_values(|c: String| c@)
}

/// Adding a row adds its cell texts.
pub proof fn lemma_grid_push(rows: Seq<Vec<String>>, row: Vec<String>)
    ensures
        grid_view(rows.push(row)) == grid_view(rows).push(row_view(row@)),
{
    assert(grid_view(rows.push(row)) =~= grid_view(rows).push(row_view(row@)));
}

/// The cell texts of rows.
pub open spec fn grid_view(rows: Seq<Vec<String>>) -> Seq<Seq<Seq<char>>> {
    rows.map_values(|r: Vec<String>| row_view(r@))
}

/// `Table::new` followed by `Table::set_format`, the format built from `style`
/// by `FormatBuilder` (column separator, borders, the rule at the top and bottom
/// positions, padding). Trusted: the table has no row and has that style.
#[verifier::external_body]
fn table_with_style(style: &TableStyle) -> (t: prettytable::Table)
    ensures
        table_cells(t) == Seq::<Seq<Seq<Seq<char>>>>::empty(),
        table_style(t) == *style,
{
    let mut t = prettytable::Table::new();
    t.set_format(
        FormatBuilder::new()
            .column_separator(style.column_separator)
            .borders(style.border)
            .separators(
                &[LinePosition::Top, LinePosition::Bottom],
                LineSeparator::new(style.rule_line, style.rule_junction, style.rule_left, style.rule_right),
            )
            .padding(style.padding_left, style.padding_right)
            .build(),
    );
    t
}

/// `Table::add_row`, the row made of one cell per string.
/// Trusted: the row is appended after the existing ones, each cell keeping the
/// lines of its string (`Cell::new` stores `str::lines`), and the style stays.
#[verifier::external_body]
fn table_add_row(t: &mut prettytable::Table, cells: &Vec<String>)
    ensures
        table_cells(*final(t)) == table_cells(*old(t)).push(row_lines(row_view(cells@))),
        table_style(*final(t)) == table_style(*old(t)),
{
    t.add_row(Row::from(cells.iter()));
}

/// The `Display` text of a table, `ToString::to_string`. Tables made here have
/// no title row and unstyled cells, so this is the text `printstd` prints
/// (on a terminal `printstd` adds only invisible attribute resets).
#[verifier::external_body]
fn table_to_string(t: &prettytable::Table) -> (s: String)
    ensures
        s@ == table_text(table_style(*t), table_cells(*t)),
{
    t.to_string()
}

/// Renders rows of cells as a table in the given style.
pub fn render_table(style: &TableStyle, rows: &Vec<Vec<String>>) -> (s: String)
    ensures
        s@ == table_text(*style, grid_lines(grid_view(rows@))),
{
    let mut t = table_with_style(style);
    let mut i: usize = 0;
    while i < rows.len()
        invariant
            i <= rows.len(),
            table_style(t) == *style,
            table_cells(t) == grid_lines(grid_view(rows@.take(i as int))),
        decreases rows.len() - i,
    {
        table_add_row(&mut t, &rows[i]);
        proof {
            assert(rows@.take(i + 1) =~= rows@.take(i as int).push(rows@[i as int]));
        }
        i = i + 1;
    }
    proof {
        assert(rows@.take(rows.len() as int) =~= rows@);
    }
    table_to_string(&t)
}

/// The style of detail views: space separators, blank rules, no padding.
pub open spec fn display_style() -> TableStyle {
    TableStyle {
        column_separator: ' ',
        border: ' ',
        rule_line: ' ',
        rule_junction: ' ',
        rule_left: ' ',
        rule_right: ' ',
        padding_left: 0,
        padding_right: 0,
    }
}

/// The style of list views: `|` separators and borders, `-`/`+` rules, padding 2.
pub open spec fn list_style() -> TableStyle {
    TableStyle {
        column_separator: '|',
        border: '|',
        rule_line: '-',
        rule_junction: '+',
        rule_left: '+',
        rule_right: '+',
        padding_left: 2,
        padding_right: 2,
    }
}

/// Detail views separate and frame cells with spaces and no padding; list views
/// use `|` between and around cells, `-` rules with `+` corners, and two spaces
/// of padding on each side.
pub proof fn lemma_styles()
    ensures
        display_style().column_separator == ' ' && display_style().border == ' ',
        display_style().rule_line == ' ' && display_style().padding_left == 0 && display_style().padding_right == 0,
        list_style().column_separator == '|' && list_style().border == '|' && list_style().rule_line == '-',
        list_style().rule_junction == '+' && list_style().rule_left == '+' && list_style().rule_right == '+',
        list_style().padding_left == 2 && list_style().padding_right == 2,
{
}

/// The format of detail views.
pub fn format_display() -> (s: TableStyle)
    ensures
        s == display_style(),
        s == (TableStyle {
            column_separator: ' ',
            border: ' ',
            rule_line: ' ',
            rule_junction: ' ',
            rule_left: ' ',
            rule_right: ' ',
            padding_left: 0,
            padding_right: 0,
        }),
{
    TableStyle {
        column_separator: ' ',
        border: ' ',
        rule_line: ' ',
        rule_junction: ' ',
        rule_left: ' ',
        rule_right: ' ',
        padding_left: 0,
        padding_right: 0,
    }
}

/// The format of list views.
pub fn format_display_table() -> (s: TableStyle)
    ensures
        s == list_style(),
        s == (TableStyle {
            column_separator: '|',
            border: '|',
            rule_line: '-',
            rule_junction: '+',
            rule_left: '+',
            rule_right: '+',
            padding_left: 2,
            padding_right: 2,
        }),
{
    TableStyle {
        column_separator: '|',
        border: '|',
        rule_line: '-',
        rule_junction: '+',
        rule_left: '+',
        rule_right: '+',
        padding_left: 2,
        padding_right: 2,
    }
}


/// An owned copy of a text.
pub fn text_of(s: &str) -> (t: String)
    ensures
        t@ == s@,
{
    String::from_str(s)
}

/// A row of two cells.
pub fn row2(a: String, b: String) -> (r: Vec<String>)
    ensures
        row_view(r@) == seq![a@, b@],
{
    let mut r = Vec::new();
    r.push(a);
    r.push(b);
    proof {
        assert(row_view(r@) =~= seq![a@, b@]);
    }
    r
}

/// A row of three cells.
pub fn row3(a: String, b: String, c: String) -> (r: Vec<String>)
    ensures
        row_view(r@) == seq![a@, b@, c@],
{
    let mut r = Vec::new();
    r.push(a);
    r.push(b);
    r.push(c);
    proof {
        assert(row_view(r@) =~= seq![a@, b@, c@]);
    }
    r
}

/// A row of five cells.
pub fn row5(a: String, b: String, c: String, d: String, e: String) -> (r: Vec<String>)
    ensures
        row_view(r@) == seq![a@, b@, c@, d@, e@],
{
    let mut r = Vec::new();
    r.push(a);
    r.push(b);
    r.push(c);
    r.push(d);
    r.push(e);
    proof {
        assert(row_view(r@) =~= seq![a@, b@, c@, d@, e@]);
    }
    r
}

} // verus!
