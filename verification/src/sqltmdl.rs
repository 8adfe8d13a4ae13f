//! A table model over the rows of one SQL query: every cell shown as text,
//! the column names as headings, and a statement that writes an edited row
//! back. The connection and the screen stay outside; what they report comes
//! in as plain values.
use vstd::prelude::*;
use vstd::utf8::{decode_utf8, valid_utf8};
use crate::text::{
    canonical_decimal, decimal_value, decode_text, format_integer, lemma_signed_decimal_reads_back,
    signed_decimal,
};

verus! {

/// The query that lists every row of a table model, and the statement that
/// writes one row back.
pub struct SqlIdTable {
    pub all: String,
    pub update: String,
}

impl SqlIdTable {
    pub fn new(all: String, update: String) -> (r: Self)
        ensures
            r.all@ == all@,
            r.update@ == update@,
    {
        Self { all, update }
    }
}

/// One item of a list or table view: the text it shows.
pub struct StandardListViewItem {
    pub text: String,
}

impl Clone for StandardListViewItem {
    fn clone(&self) -> (r: Self)
        ensures
            r == *self,
    {
        StandardListViewItem { text: self.text.clone() }
    }
}

/// The heading of one column of a table view.
pub struct TableColumn {
    pub title: String,
}

impl Clone for TableColumn {
    fn clone(&self) -> (r: Self)
        ensures
            r == *self,
    {
        TableColumn { title: self.title.clone() }
    }
}

/// One cell of a query result, as SQLite stores it. A floating-point value
/// arrives as the text it is shown by, since it is rendered where floating
/// point is handled.
#[derive(Clone)]
pub enum SqlValue {
    Null,
    Integer(i64),
    Real(String),
    Text(Vec<u8>),
    Blob(Vec<u8>),
}

/// Why a query result cannot be shown as a table.
#[derive(Clone, Copy, Debug, PartialEq, Eq)]
pub enum TableError {
    /// The cell at this row and column holds text that is not valid UTF-8.
    InvalidText { row: usize, column: usize },
}

/// The text a cell is shown by, or `None` for text that is not valid UTF-8.
pub open spec fn cell_text(v: SqlValue) -> Option<Seq<char>> {
    match v {
        SqlValue::Null => Some(Seq::empty()),
        SqlValue::Integer(n) => Some(signed_decimal(n as int)),
        SqlValue::Real(s) => Some(s@),
        SqlValue::Text(b) => if valid_utf8(b@) {
            Some(decode_utf8(b@))
        } else {
            None
        },
        SqlValue::Blob(_) => Some(seq!['B', 'L', 'O', 'B']),
    }
}

/// Every cell of the row can be shown.
pub open spec fn row_valid(row: Seq<SqlValue>) -> bool {
    forall|j: int| 0 <= j < row.len() ==> (#[trigger] cell_text(row[j])) is Some
}

/// `items` shows `row`, cell by cell.
pub open spec fn shows_row(items: Seq<StandardListViewItem>, row: Seq<SqlValue>) -> bool {
    &&& items.len() == row.len()
    &&& forall|j: int| 0 <= j < row.len() ==> Some(#[trigger] items[j].text@) == cell_text(row[j])
}

/// `table` shows `rows`, row by row.
pub open spec fn shows_rows(table: Seq<Vec<StandardListViewItem>>, rows: Seq<Vec<SqlValue>>) -> bool {
    &&& table.len() == rows.len()
    &&& forall|i: int| 0 <= i < rows.len() ==> shows_row(#[trigger] table[i]@, rows[i]@)
}

/// Every row can be shown.
pub open spec fn rows_valid(rows: Seq<Vec<SqlValue>>) -> bool {
    forall|i: int| 0 <= i < rows.len() ==> row_valid(#[trigger] rows[i]@)
}

/// The cell at `row`, `column` is the first, reading row by row, that cannot
/// be shown.
pub open spec fn first_invalid_cell(rows: Seq<Vec<SqlValue>>, row: int, column: int) -> bool {
    &&& 0 <= row < rows.len()
    &&& 0 <= column < rows[row]@.len()
    &&& cell_text(rows[row]@[column]) is None
    &&& forall|i: int| 0 <= i < row ==> row_valid(#[trigger] rows[i]@)
    &&& forall|j: int| 0 <= j < column ==> (#[trigger] cell_text(rows[row]@[j])) is Some
}

/// The headings shown for the given column names: each title is the name.
pub open spec fn titles_of(headings: Seq<TableColumn>, names: Seq<String>) -> bool {
    &&& headings.len() == names.len()
    &&& forall|j: int| 0 <= j < names.len() ==> (#[trigger] headings[j]).title@ == names[j]@
}

/// Every text cell of the rows holds valid UTF-8.
pub open spec fn texts_valid(rows: Seq<Vec<SqlValue>>) -> bool {
    forall|i: int, j: int|
        0 <= i < rows.len() && 0 <= j < rows[i]@.len() ==> match #[trigger] rows[i]@[j] {
            SqlValue::Text(b) => valid_utf8(b@),
            _ => true,
        }
}

/// How each kind of cell is shown: Null as empty text, an integer in its
/// canonical decimal notation (a minus sign first when negative), a
/// floating-point value by the text it arrived with, text by the characters
/// its UTF-8 bytes encode (and not at all when they are not UTF-8), and a
/// blob as "BLOB".
pub proof fn lemma_cell_text(v: SqlValue)
    ensures
        v is Null ==> cell_text(v) == Some(Seq::<char>::empty()),
        v matches SqlValue::Integer(n) ==> cell_text(v) matches Some(t) && (n >= 0 ==> canonical_decimal(t)
            && decimal_value(t) == n) && (n < 0 ==> t[0] == '-' && canonical_decimal(t.drop_first())
            && decimal_value(t.drop_first()) == -n),
        v matches SqlValue::Real(s) ==> cell_text(v) == Some(s@),
        v matches SqlValue::Text(b) ==> (cell_text(v) is Some <==> valid_utf8(b@)),
        v matches SqlValue::Text(b) ==> (valid_utf8(b@) ==> cell_text(v) == Some(decode_utf8(b@))),
        v is Blob ==> cell_text(v) == Some(seq!['B', 'L', 'O', 'B']),
{
    match v {
        SqlValue::Integer(n) => lemma_signed_decimal_reads_back(n as int),
        _ => {},
    }
}

/// Rows can be shown exactly when every text cell among them holds valid
/// UTF-8.
pub proof fn lemma_rows_valid_iff_texts_valid(rows: Seq<Vec<SqlValue>>)
    ensures
        rows_valid(rows) <==> texts_valid(rows),
{
    if rows_valid(rows) {
        assert forall|i: int, j: int| 0 <= i < rows.len() && 0 <= j < rows[i]@.len() implies match #[trigger] rows[i]@[j] {
            SqlValue::Text(b) => valid_utf8(b@),
            _ => true,
        } by {
            assert(row_valid(rows[i]@));
            assert(cell_text(rows[i]@[j]) is Some);
        }
    }
    if texts_valid(rows) {
        assert forall|i: int| 0 <= i < rows.len() implies row_valid(#[trigger] rows[i]@) by {
            assert forall|j: int| 0 <= j < rows[i]@.len() implies (#[trigger] cell_text(rows[i]@[j])) is Some by {
                let c = rows[i]@[j];
                assert(match c {
                    SqlValue::Text(b) => valid_utf8(b@),
                    _ => true,
                });
            }
        }
    }
}

/// After a reload whose query answered rows that can all be shown, row `i`
/// of the model shows row `i` of the answer, cell by cell and in the same
/// order, and nothing is reported.
pub proof fn lemma_reloaded_in_order<E>(
    before: Seq<Vec<StandardListViewItem>>,
    raw: Vec<Vec<SqlValue>>,
    after: Seq<Vec<StandardListViewItem>>,
    report: Option<LoadError<E>>,
)
    requires
        reloaded(before, Ok(raw), after, report),
        texts_valid(raw@),
    ensures
        report is None,
        after.len() == raw@.len(),
        forall|i: int| 0 <= i < raw@.len() ==> (#[trigger] after[i])@.len() == raw@[i]@.len(),
        forall|i: int, j: int|
            0 <= i < raw@.len() && 0 <= j < raw@[i]@.len() ==> Some((#[trigger] after[i]@[j]).text@)
                == cell_text(raw@[i]@[j]),
{
    lemma_rows_valid_iff_texts_valid(raw@);
    assert forall|i: int, j: int| 0 <= i < raw@.len() && 0 <= j < raw@[i]@.len() implies Some(
        (#[trigger] after[i]@[j]).text@,
    ) == cell_text(raw@[i]@[j]) by {
        assert(shows_row(after[i]@, raw@[i]@));
    }
    assert forall|i: int| 0 <= i < raw@.len() implies (#[trigger] after[i])@.len() == raw@[i]@.len() by {
        assert(shows_row(after[i]@, raw@[i]@));
    }
}

fn render_cell(v: &SqlValue) -> (r: Option<StandardListViewItem>)
    ensures
        r is Some <==> cell_text(*v) is Some,
        r matches Some(item) ==> Some(item.text@) == cell_text(*v),
{
    match v {
        SqlValue::Null => Some(StandardListViewItem { text: String::new() }),
        SqlValue::Integer(n) => Some(StandardListViewItem { text: format_integer(*n) }),
        SqlValue::Real(s) => Some(StandardListViewItem { text: s.clone() }),
        SqlValue::Text(b) => match decode_text(b.as_slice()) {
            Some(s) => Some(StandardListViewItem { text: s }),
            None => None,
        },
        SqlValue::Blob(_) => {
            proof {
                reveal_strlit("BLOB");
            }
            Some(StandardListViewItem { text: String::from_str("BLOB") })
        },
    }
}

/// Shows one row of a query result: the items in column order, or the first
/// column whose text is not valid UTF-8.
fn render_row(row: &Vec<SqlValue>) -> (r: Result<Vec<StandardListViewItem>, usize>)
    ensures
        r is Ok <==> row_valid(row@),
        r matches Ok(items) ==> shows_row(items@, row@),
        r matches Err(j) ==> j < row@.len() && cell_text(row@[j as int]) is None && forall|l: int|
            0 <= l < j ==> (#[trigger] cell_text(row@[l])) is Some,
{
    let mut items: Vec<StandardListViewItem> = Vec::new();
    let mut j: usize = 0;
    while j < row.len()
        invariant
            j <= row@.len(),
            items@.len() == j,
            forall|l: int| 0 <= l < j ==> Some(#[trigger] items@[l].text@) == cell_text(row@[l]),
        decreases row@.len() - j,
    {
        match render_cell(&row[j]) {
            Some(item) => items.push(item),
            None => {
                assert forall|l: int| 0 <= l < j implies (#[trigger] cell_text(row@[l])) is Some by {
                    assert(Some(items@[l].text@) == cell_text(row@[l]));
                }
                return Err(j);
            },
        }
        j = j + 1;
    }
    assert forall|l: int| 0 <= l < row@.len() implies (#[trigger] cell_text(row@[l])) is Some by {
        assert(Some(items@[l].text@) == cell_text(row@[l]));
    }
    Ok(items)
}

/// Shows every row of a query result, or names the first cell, reading row by
/// row, whose text is not valid UTF-8.
pub fn render_rows(rows: &Vec<Vec<SqlValue>>) -> (r: Result<Vec<Vec<StandardListViewItem>>, TableError>)
    ensures
        r is Ok <==> rows_valid(rows@),
        r is Ok <==> texts_valid(rows@),
        r matches Ok(table) ==> shows_rows(table@, rows@),
        r matches Ok(table) ==> forall|i: int, j: int|
            0 <= i < rows@.len() && 0 <= j < rows@[i]@.len() ==> (#[trigger] rows@[i]@[j] matches SqlValue::Text(
                b,
            ) ==> table@[i]@[j].text@ == decode_utf8(b@)),
        r matches Err(TableError::InvalidText { row, column }) ==> first_invalid_cell(
            rows@,
            row as int,
            column as int,
        ),
{
    proof {
        lemma_rows_valid_iff_texts_valid(rows@);
    }
    let mut table: Vec<Vec<StandardListViewItem>> = Vec::new();
    let mut i: usize = 0;
    while i < rows.len()
        invariant
            i <= rows@.len(),
            table@.len() == i,
            forall|k: int| 0 <= k < i ==> shows_row(#[trigger] table@[k]@, rows@[k]@),
            forall|k: int| 0 <= k < i ==> row_valid(#[trigger] rows@[k]@),
        decreases rows@.len() - i,
    {
        match render_row(&rows[i]) {
            Ok(items) => table.push(items),
            Err(j) => {
                return Err(TableError::InvalidText { row: i, column: j });
            },
        }
        i = i + 1;
    }
    Ok(table)
}


/// The column headings for the given column names, in the same order.
pub fn column_titles(names: &Vec<String>) -> (headings: Vec<TableColumn>)
    ensures
        titles_of(headings@, names@),
{
    let mut headings: Vec<TableColumn> = Vec::new();
    let mut j: usize = 0;
    while j < names.len()
        invariant
            j <= names@.len(),
            headings@.len() == j,
            forall|l: int| 0 <= l < j ==> (#[trigger] headings@[l]).title@ == names@[l]@,
        decreases names@.len() - j,
    {
        headings.push(TableColumn { title: names[j].clone() });
        j = j + 1;
    }
    headings
}

/// The parameters that write a row of items back: the text of each item, in
/// column order.
pub fn row_params(obj: &Vec<StandardListViewItem>) -> (cols: Vec<String>)
    ensures
        cols@.len() == obj@.len(),
        forall|j: int| 0 <= j < obj@.len() ==> (#[trigger] cols@[j])@ == obj@[j].text@,
{
    let mut cols: Vec<String> = Vec::new();
    let mut j: usize = 0;
    while j < obj.len()
        invariant
            j <= obj@.len(),
            cols@.len() == j,
            forall|l: int| 0 <= l < j ==> (#[trigger] cols@[l])@ == obj@[l].text@,
        decreases obj@.len() - j,
    {
        cols.push(obj[j].text.clone());
        j = j + 1;
    }
    cols
}

/// The headings and the rows of a query result, every cell shown as text; or
/// the first cell, reading row by row, whose text is not valid UTF-8.
pub fn standard_table_model_from(column_names: &Vec<String>, rows: &Vec<Vec<SqlValue>>) -> (r: Result<
    (Vec<TableColumn>, Vec<Vec<StandardListViewItem>>),
    TableError,
>)
    ensures
        r is Ok <==> rows_valid(rows@),
        r is Ok <==> texts_valid(rows@),
        r matches Ok((headings, table)) ==> titles_of(headings@, column_names@) && shows_rows(
            table@,
            rows@,
        ),
        r matches Err(TableError::InvalidText { row, column }) ==> first_invalid_cell(
            rows@,
            row as int,
            column as int,
        ),
{
    let headings = column_titles(column_names);
    match render_rows(rows) {
        Ok(table) => Ok((headings, table)),
        Err(e) => Err(e),
    }
}

/// Why a table model could not load its rows.
pub enum LoadError<E> {
    /// The database refused the query.
    Database(E),
    /// The query result cannot be shown.
    Table(TableError),
}

/// `after` and `report` are what reloading rows that stood at `before` gives,
/// when the query answered `fetched`: the rows shown on success; otherwise the
/// rows unchanged and the reason reported.
pub open spec fn reloaded<E>(
    before: Seq<Vec<StandardListViewItem>>,
    fetched: Result<Vec<Vec<SqlValue>>, E>,
    after: Seq<Vec<StandardListViewItem>>,
    report: Option<LoadError<E>>,
) -> bool {
    match fetched {
        Ok(raw) => if rows_valid(raw@) {
            shows_rows(after, raw@) && report is None
        } else {
            &&& after == before
            &&& report matches Some(LoadError::Table(TableError::InvalidText { row, column }))
            &&& first_invalid_cell(raw@, row as int, column as int)
        },
        Err(e) => after == before && report == Some(LoadError::<E>::Database(e)),
    }
}

/// A table model over the rows of one query, kept as the text they show,
/// with the statement that writes an edited row back.
pub struct SqliteStandardTableModel {
    array: Vec<Vec<StandardListViewItem>>,
    sql: SqlIdTable,
}

impl View for SqliteStandardTableModel {
    type V = Seq<Vec<StandardListViewItem>>;

    closed spec fn view(&self) -> Seq<Vec<StandardListViewItem>> {
        self.array@
    }
}

impl SqliteStandardTableModel {
    /// The statements the model was made with.
    pub closed spec fn statements(&self) -> SqlIdTable {
        self.sql
    }

    pub fn new(array: Vec<Vec<StandardListViewItem>>, sql: SqlIdTable) -> (r: Self)
        ensures
            r@ == array@,
            r.statements() == sql,
    {
        Self { array, sql }
    }

    /// The statements the model was made with: the query that lists every
    /// row and the statement that writes one row back.
    pub fn sql(&self) -> (r: &SqlIdTable)
        ensures
            *r == self.statements(),
    {
        &self.sql
    }

    /// The number of rows.
    pub fn row_count(&self) -> (n: usize)
        ensures
            n == self@.len(),
    {
        self.array.len()
    }

    /// The items of row `row`, or `None` past the last row.
    pub fn row_data(&self, row: usize) -> (r: Option<Vec<StandardListViewItem>>)
        ensures
            r is Some <==> row < self@.len(),
            r matches Some(items) ==> items@ == self@[row as int]@,
    {
        if row < self.array.len() {
            let items = self.array[row].clone();
            assert(items@ =~= self@[row as int]@);
            Some(items)
        } else {
            None
        }
    }

    /// Takes the rows from the answer to the model's query: the rows shown
    /// when the answer can be shown, the rows as they were otherwise, with
    /// the reason.
    pub fn reset<E>(&mut self, fetched: Result<Vec<Vec<SqlValue>>, E>) -> (report: Option<LoadError<E>>)
        ensures
            reloaded(old(self)@, fetched, final(self)@, report),
            final(self).statements() == old(self).statements(),
            fetched matches Ok(raw) ==> texts_valid(raw@) ==> {
                &&& report is None
                &&& final(self)@.len() == raw@.len()
                &&& forall|i: int|
                    0 <= i < raw@.len() ==> (#[trigger] final(self)@[i])@.len() == raw@[i]@.len()
                &&& forall|i: int, j: int|
                    0 <= i < raw@.len() && 0 <= j < raw@[i]@.len() ==> Some(
                        (#[trigger] final(self)@[i]@[j]).text@,
                    ) == cell_text(raw@[i]@[j])
            },
    {
        proof {
            if let Ok(raw) = &fetched {
                lemma_rows_valid_iff_texts_valid(raw@);
            }
        }
        match fetched {
            Ok(raw) => match render_rows(&raw) {
                Ok(rows) => {
                    self.array = rows;
                    None
                },
                Err(e) => Some(LoadError::Table(e)),
            },
            Err(e) => Some(LoadError::Database(e)),
        }
    }

    /// Finishes a statement run against the model's table: the rows are
    /// reloaded from `fetched`, and the statement's own outcome is handed back.
    pub fn execute<E>(&mut self, executed: Result<usize, E>, fetched: Result<Vec<Vec<SqlValue>>, E>) -> (r: (
        Result<usize, E>,
        Option<LoadError<E>>,
    ))
        ensures
            r.0 == executed,
            reloaded(old(self)@, fetched, final(self)@, r.1),
            final(self).statements() == old(self).statements(),
    {
        let report = self.reset(fetched);
        (executed, report)
    }

    /// Writes `data` at row `row` once the update statement answered
    /// `written`: on success the row takes `data`, then the rows are
    /// reloaded from `fetched` either way. Hands back the update's error, to
    /// be reported, and the reload's.
    pub fn set_row_data<E>(
        &mut self,
        row: usize,
        data: Vec<StandardListViewItem>,
        written: Result<usize, E>,
        fetched: Result<Vec<Vec<SqlValue>>, E>,
    ) -> (r: (Option<E>, Option<LoadError<E>>))
        requires
            written is Ok ==> row < old(self)@.len(),
        ensures
            r.0 == (match written {
                Ok(_) => None,
                Err(e) => Some(e),
            }),
            reloaded(
                if written is Ok {
                    old(self)@.update(row as int, data)
                } else {
                    old(self)@
                },
                fetched,
                final(self)@,
                r.1,
            ),
            final(self).statements() == old(self).statements(),
    {
        let failed = match written {
            Ok(_) => {
                self.array.set(row, data);
                None
            },
            Err(e) => Some(e),
        };
        let report = self.reset(fetched);
        (failed, report)
    }
}

/// The headings of a query result and a table model over its rows, which
/// writes an edited row back with `update`; or the first cell, reading row by
/// row, whose text is not valid UTF-8.
pub fn sqlite_standard_table_model_from(
    column_names: &Vec<String>,
    rows: &Vec<Vec<SqlValue>>,
    query: String,
    update: String,
) -> (r: Result<(Vec<TableColumn>, SqliteStandardTableModel), TableError>)
    ensures
        r is Ok <==> rows_valid(rows@),
        r is Ok <==> texts_valid(rows@),
        r matches Ok((headings, model)) ==> {
            &&& titles_of(headings@, column_names@)
            &&& shows_rows(model@, rows@)
            &&& model.statements().all@ == query@
            &&& model.statements().update@ == update@
        },
        r matches Err(TableError::InvalidText { row, column }) ==> first_invalid_cell(
            rows@,
            row as int,
            column as int,
        ),
{
    let headings = column_titles(column_names);
    match render_rows(rows) {
        Ok(data) => {
            let commands = SqlIdTable::new(query, update);
            let model = SqliteStandardTableModel::new(data, commands);
            Ok((headings, model))
        },
        Err(e) => Err(e),
    }
}

} // verus!
