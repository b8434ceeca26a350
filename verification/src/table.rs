//! The listing of accounts as a table, ready to be printed.

use crate::account::QuotaStatus;
use crate::listing::AccountRow;
use crate::text::{decimal_digits, decimal_text};
use comfy_table::{Attribute, Cell, Color, Row, Table};
use vstd::prelude::*;
use vstd::string::StringExecFns;

verus! {

/// `Table` of comfy-table, taken as it is: what it holds is spoken of
/// through `table_header` and `table_rows`.
#[verifier::external_type_specification]
#[verifier::external_body]
pub struct ExTable(Table);

/// `Row` of comfy-table, taken as it is: what it holds is spoken of
/// through `row_cells`.
#[verifier::external_type_specification]
#[verifier::external_body]
pub struct ExRow(Row);

/// `Cell` of comfy-table, taken as it is: what it holds is spoken of
/// through `cell_text`, `cell_foreground` and `cell_attributes`.
#[verifier::external_type_specification]
#[verifier::external_body]
pub struct ExCell(Cell);

/// `Color` of comfy-table, with its variants.
#[verifier::external_type_specification]
pub struct ExColor(Color);

/// `Attribute` of comfy-table, with its variants.
#[verifier::external_type_specification]
pub struct ExAttribute(Attribute);

/// The text a cell holds, as `Cell::content` gives it.
pub uninterp spec fn cell_text(cell: Cell) -> Seq<char>;

/// The colour a cell's text is printed in, if one was set.
pub uninterp spec fn cell_foreground(cell: Cell) -> Option<Color>;

/// The attributes a cell's text is printed with, in the order they were
/// added.
pub uninterp spec fn cell_attributes(cell: Cell) -> Seq<Attribute>;

/// The cells of a row, from left to right.
pub uninterp spec fn row_cells(row: Row) -> Seq<Cell>;

/// The header of a table, if one was set, as its cells from left to right.
pub uninterp spec fn table_header(table: Table) -> Option<Seq<Cell>>;

/// The rows of a table below its header, from top to bottom, each as its
/// cells from left to right.
pub uninterp spec fn table_rows(table: Table) -> Seq<Seq<Cell>>;

/// `Cell::fg` of comfy-table: sets the colour of the text and leaves the
/// text and the attributes as they are.
pub assume_specification[ Cell::fg ](cell: Cell, color: Color) -> (styled: Cell)
    ensures
        cell_text(styled) == cell_text(cell),
        cell_foreground(styled) == Some(color),
        cell_attributes(styled) == cell_attributes(cell),
;

/// `Cell::add_attribute` of comfy-table: adds one attribute behind those
/// the cell has, and leaves the text and the colour as they are.
pub assume_specification[ Cell::add_attribute ](cell: Cell, attribute: Attribute) -> (styled: Cell)
    ensures
        cell_text(styled) == cell_text(cell),
        cell_foreground(styled) == cell_foreground(cell),
        cell_attributes(styled) == cell_attributes(cell).push(attribute),
;

/// `Row::new` of comfy-table: a row without cells.
pub assume_specification[ Row::new ]() -> (row: Row)
    ensures
        row_cells(row) == Seq::<Cell>::empty(),
;

/// `Cell::new` of comfy-table, on a string slice: a cell that holds the
/// text, with no colour and no attribute.
#[verifier::external_body]
fn new_cell(text: &str) -> (cell: Cell)
    ensures
        cell_text(cell) == text@,
        cell_foreground(cell) is None,
        cell_attributes(cell) == Seq::<Attribute>::empty(),
{
    Cell::new(text)
}

/// `Row::add_cell` of comfy-table: puts the cell behind those the row
/// has.
#[verifier::external_body]
fn add_cell(row: &mut Row, cell: Cell)
    ensures
        row_cells(*final(row)) == row_cells(*old(row)).push(cell),
{
    row.add_cell(cell);
}

/// `Table::new` of comfy-table: a table without header and without rows.
#[verifier::external_body]
fn new_table() -> (table: Table)
    ensures
        table_header(table) is None,
        table_rows(table) == Seq::<Seq<Cell>>::empty(),
{
    Table::new()
}

/// `Table::set_header` of comfy-table, on a row: makes the row the header
/// and leaves the rows below it as they are.
#[verifier::external_body]
fn set_header(table: &mut Table, header: Row)
    ensures
        table_header(*final(table)) == Some(row_cells(header)),
        table_rows(*final(table)) == table_rows(*old(table)),
{
    table.set_header(header);
}

/// `Table::add_row` of comfy-table, on a row: puts the row below those
/// the table has and leaves the header as it is.
#[verifier::external_body]
fn add_row(table: &mut Table, row: Row)
    ensures
        table_rows(*final(table)) == table_rows(*old(table)).push(row_cells(row)),
        table_header(*final(table)) == table_header(*old(table)),
{
    table.add_row(row);
}

/// How many columns the listing has.
pub const COLUMNS: usize = 6;

/// The titles of the columns.
pub open spec fn titles() -> Seq<Seq<char>> {
    seq![""@, "ID"@, "邮箱"@, "名称"@, "订阅"@, "配额状态"@]
}

/// What the listing says about the quota of an account.
pub open spec fn status_text(status: QuotaStatus) -> Seq<char> {
    match status {
        QuotaStatus::NotQueried => "未查询"@,
        QuotaStatus::Forbidden => "已禁用"@,
        QuotaStatus::Models(count) => decimal_digits(count as nat) + " 个模型"@,
    }
}

/// The texts of one line of the listing, from left to right: the mark of
/// the current account, the short identifier, the address, the name or a
/// dash, the subscription or a word for "unknown", and the quota.
pub open spec fn line_texts(row: AccountRow) -> Seq<Seq<char>> {
    seq![
        if row.is_current {
            "*"@
        } else {
            ""@
        },
        row.short_id@,
        row.email@,
        match row.name {
            Some(name) => name@,
            None => "-"@,
        },
        match row.subscription {
            Some(tier) => tier@,
            None => "未知"@,
        },
        status_text(row.status),
    ]
}

/// The cells hold the texts, in order, and all of them are set off (green
/// and bold) or all of them are plain.
pub open spec fn cells_show(cells: Seq<Cell>, texts: Seq<Seq<char>>, set_off: bool) -> bool {
    &&& cells.len() == texts.len()
    &&& forall|k: int|
        0 <= k < cells.len() ==> {
            &&& cell_text(#[trigger] cells[k]) == texts[k]
            &&& cell_foreground(cells[k]) == if set_off {
                Some(Color::Green)
            } else {
                None
            }
            &&& cell_attributes(cells[k]) == if set_off {
                seq![Attribute::Bold]
            } else {
                Seq::<Attribute>::empty()
            }
        }
}

/// A cell that holds `text`, set off or plain.
fn cell_for(text: &str, set_off: bool) -> (cell: Cell)
    ensures
        cell_text(cell) == text@,
        cell_foreground(cell) == if set_off {
            Some(Color::Green)
        } else {
            None
        },
        cell_attributes(cell) == if set_off {
            seq![Attribute::Bold]
        } else {
            Seq::<Attribute>::empty()
        },
{
    if set_off {
        new_cell(text).fg(Color::Green).add_attribute(Attribute::Bold)
    } else {
        new_cell(text)
    }
}

/// What the listing says about a quota.
pub fn status_label(status: QuotaStatus) -> (label: String)
    ensures
        label@ == status_text(status),
{
    match status {
        QuotaStatus::NotQueried => "未查询".to_owned(),
        QuotaStatus::Forbidden => "已禁用".to_owned(),
        QuotaStatus::Models(count) => decimal_text(count).concat(" 个模型"),
    }
}

/// A row of cells that hold `texts`, all set off or all plain.
fn row_of(texts: &Vec<String>, set_off: bool) -> (row: Row)
    ensures
        cells_show(row_cells(row), texts@.map_values(|text: String| text@), set_off),
{
    let mut row = Row::new();
    let mut k: usize = 0;
    while k < texts.len()
        invariant
            k <= texts.len(),
            cells_show(
                row_cells(row),
                texts@.subrange(0, k as int).map_values(|text: String| text@),
                set_off,
            ),
        decreases texts.len() - k,
    {
        let ghost before = row_cells(row);
        add_cell(&mut row, cell_for(texts[k].as_str(), set_off));
        proof {
            let shown = texts@.subrange(0, k + 1).map_values(|text: String| text@);
            let cells = row_cells(row);
            assert forall|n: int| 0 <= n < cells.len() implies cell_text(#[trigger] cells[n])
                == shown[n] && cell_foreground(cells[n]) == (if set_off {
                Some(Color::Green)
            } else {
                None
            }) && cell_attributes(cells[n]) == (if set_off {
                seq![Attribute::Bold]
            } else {
                Seq::<Attribute>::empty()
            }) by {
                if n < k {
                    assert(cells[n] == before[n]);
                    assert(texts@.subrange(0, k as int).map_values(|text: String| text@)[n]
                        == shown[n]);
                }
            }
        }
        k += 1;
    }
    assert(texts@.subrange(0, texts@.len() as int) == texts@);
    row
}

/// The texts of one line of the listing.
pub fn line_of(row: &AccountRow) -> (texts: Vec<String>)
    ensures
        texts@.map_values(|text: String| text@) == line_texts(*row),
{
    let mut texts: Vec<String> = Vec::new();
    texts.push(
        if row.is_current {
            "*".to_owned()
        } else {
            "".to_owned()
        },
    );
    texts.push(row.short_id.clone());
    texts.push(row.email.clone());
    texts.push(
        match &row.name {
            Some(name) => name.clone(),
            None => "-".to_owned(),
        },
    );
    texts.push(
        match &row.subscription {
            Some(tier) => tier.clone(),
            None => "未知".to_owned(),
        },
    );
    texts.push(status_label(row.status));
    assert(texts@.map_values(|text: String| text@) =~= line_texts(*row));
    texts
}

/// The titles of the columns.
pub fn header_titles() -> (texts: Vec<String>)
    ensures
        texts@.map_values(|text: String| text@) == titles(),
{
    let mut texts: Vec<String> = Vec::new();
    texts.push("".to_owned());
    texts.push("ID".to_owned());
    texts.push("邮箱".to_owned());
    texts.push("名称".to_owned());
    texts.push("订阅".to_owned());
    texts.push("配额状态".to_owned());
    assert(texts@.map_values(|text: String| text@) =~= titles());
    texts
}

/// The listing as a table: the titles as its header, then one row for
/// each line, in order. The line of the current account is set off in
/// green and bold; every other line is plain.
pub fn accounts_table(rows: &Vec<AccountRow>) -> (table: Table)
    ensures
        table_header(table) matches Some(header) && cells_show(header, titles(), false),
        table_rows(table).len() == rows@.len(),
        forall|i: int|
            0 <= i < rows@.len() ==> cells_show(
                #[trigger] table_rows(table)[i],
                line_texts(rows@[i]),
                rows@[i].is_current,
            ),
{
    let mut table = new_table();
    set_header(&mut table, row_of(&header_titles(), false));
    let mut i: usize = 0;
    while i < rows.len()
        invariant
            i <= rows.len(),
            table_header(table) matches Some(header) && cells_show(header, titles(), false),
            table_rows(table).len() == i,
            forall|n: int|
                0 <= n < i ==> cells_show(
                    #[trigger] table_rows(table)[n],
                    line_texts(rows@[n]),
                    rows@[n].is_current,
                ),
        decreases rows.len() - i,
    {
        let texts = line_of(&rows[i]);
        let row = row_of(&texts, rows[i].is_current);
        add_row(&mut table, row);
        i += 1;
    }
    table
}

} // verus!
