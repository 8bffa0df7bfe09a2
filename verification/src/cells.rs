//! Values as the store holds them: the parameters bound to a statement and
//! the cells of a result row, and how a row is read column by column.

use crate::messages::{is_row_mapping_error, row_mapping_error, row_mapping_message};
use crate::models::outcome;
use crate::text::{int_text, join, natural};
use vstd::prelude::*;

verus! {

/// A value bound to a positional parameter of a statement.
#[derive(Debug, Clone, PartialEq)]
pub enum SqlParam {
    Integer(i64),
    Text(String),
}

/// One column of one result row, by storage class. A `Real` cell carries no
/// number: nothing in this schema stores one.
#[derive(Debug, Clone, PartialEq)]
pub enum Cell {
    Null,
    Integer(i64),
    Real,
    Text(String),
    Blob(Vec<u8>),
}

/// The view of a cell, and of a parameter: its storage class and what it
/// holds.
pub enum CellView {
    Null,
    Integer(i64),
    Real,
    Text(Seq<char>),
    Blob(Seq<u8>),
}

impl View for Cell {
    type V = CellView;

    open spec fn view(&self) -> CellView {
        match self {
            Cell::Null => CellView::Null,
            Cell::Integer(i) => CellView::Integer(*i),
            Cell::Real => CellView::Real,
            Cell::Text(s) => CellView::Text(s@),
            Cell::Blob(b) => CellView::Blob(b@),
        }
    }
}

impl DeepView for Cell {
    type V = CellView;

    open spec fn deep_view(&self) -> CellView {
        self@
    }
}

/// A parameter is viewed as the cell that holds it once stored.
impl View for SqlParam {
    type V = CellView;

    open spec fn view(&self) -> CellView {
        match self {
            SqlParam::Integer(i) => CellView::Integer(*i),
            SqlParam::Text(s) => CellView::Text(s@),
        }
    }
}

impl DeepView for SqlParam {
    type V = CellView;

    open spec fn deep_view(&self) -> CellView {
        self@
    }
}

/// The cell that holds what the driver's value holds.
pub open spec fn value_view(v: rusqlite::types::Value) -> CellView {
    match v {
        rusqlite::types::Value::Null => CellView::Null,
        rusqlite::types::Value::Integer(i) => CellView::Integer(i),
        rusqlite::types::Value::Real(_) => CellView::Real,
        rusqlite::types::Value::Text(s) => CellView::Text(s@),
        rusqlite::types::Value::Blob(b) => CellView::Blob(b@),
    }
}

/// The driver's value for a parameter: the same integer or text.
pub fn value_of(p: &SqlParam) -> (v: rusqlite::types::Value)
    ensures
        value_view(v) == p@,
{
    match p {
        SqlParam::Integer(i) => rusqlite::types::Value::Integer(*i),
        SqlParam::Text(s) => rusqlite::types::Value::Text(s.clone()),
    }
}

/// The cell for a value that the driver read, variant for variant.
pub fn cell_of(v: rusqlite::types::Value) -> (c: Cell)
    ensures
        c@ == value_view(v),
{
    match v {
        rusqlite::types::Value::Null => Cell::Null,
        rusqlite::types::Value::Integer(i) => Cell::Integer(i),
        rusqlite::types::Value::Real(_) => Cell::Real,
        rusqlite::types::Value::Text(s) => Cell::Text(s),
        rusqlite::types::Value::Blob(b) => Cell::Blob(b),
    }
}

/// The name of a cell's storage class.
pub open spec fn class_name(c: CellView) -> Seq<char> {
    match c {
        CellView::Null => "Null"@,
        CellView::Integer(_) => "Integer"@,
        CellView::Real => "Real"@,
        CellView::Text(_) => "Text"@,
        CellView::Blob(_) => "Blob"@,
    }
}

/// What is reported of column `i` when it cannot be read as asked: that the
/// row has no such column, or the storage class found there.
pub open spec fn column_fault(row: Seq<CellView>, i: int) -> Seq<char> {
    if 0 <= i < row.len() {
        "Invalid column type "@ + class_name(row[i]) + " at index: "@ + int_text(i)
    } else {
        "Invalid column index: "@ + int_text(i)
    }
}

/// Column `i` read as text: only a `Text` cell is one.
pub open spec fn text_at(row: Seq<CellView>, i: int) -> Result<Seq<char>, Seq<char>> {
    if 0 <= i < row.len() && row[i] is Text {
        Ok(row[i]->Text_0)
    } else {
        Err(column_fault(row, i))
    }
}

/// Column `i` read as an integer: only an `Integer` cell is one.
pub open spec fn integer_at(row: Seq<CellView>, i: int) -> Result<i64, Seq<char>> {
    if 0 <= i < row.len() && row[i] is Integer {
        Ok(row[i]->Integer_0)
    } else {
        Err(column_fault(row, i))
    }
}

fn class_of(c: &Cell) -> (s: &'static str)
    ensures
        s@ == class_name(c@),
{
    match c {
        Cell::Null => "Null",
        Cell::Integer(_) => "Integer",
        Cell::Real => "Real",
        Cell::Text(_) => "Text",
        Cell::Blob(_) => "Blob",
    }
}

fn fault_at(row: &Vec<Cell>, i: usize) -> (s: String)
    ensures
        s@ == column_fault(row.deep_view(), i as int),
{
    let index = natural(i as u64);
    if i < row.len() {
        let head = join("Invalid column type ", class_of(&row[i]));
        let head = join(head.as_str(), " at index: ");
        join(head.as_str(), index.as_str())
    } else {
        join("Invalid column index: ", index.as_str())
    }
}

/// Reads column `i` of a row as text.
pub fn read_text(row: &Vec<Cell>, i: usize) -> (r: Result<String, String>)
    ensures
        outcome(r) == text_at(row.deep_view(), i as int),
{
    if i < row.len() {
        if let Cell::Text(s) = &row[i] {
            return Ok(s.clone());
        }
    }
    Err(fault_at(row, i))
}

/// Reads column `i` of a row as an integer.
pub fn read_integer(row: &Vec<Cell>, i: usize) -> (r: Result<i64, String>)
    ensures
        outcome(r) == integer_at(row.deep_view(), i as int),
{
    if i < row.len() {
        if let Cell::Integer(n) = &row[i] {
            return Ok(*n);
        }
    }
    Err(fault_at(row, i))
}

/// A type that is read from one result row.
pub trait FromRow: View + Sized {
    /// What the row holds, or why it holds no such value.
    spec fn of_row(row: Seq<CellView>) -> Result<Self::V, Seq<char>>;

    /// Reads the value that the row holds.
    fn from_row(row: &Vec<Cell>) -> (r: Result<Self, String>)
        ensures
            outcome(r) == Self::of_row(row.deep_view()),
    ;
}

/// The first of `rows` that holds no value of the type is row `k`.
pub open spec fn first_unreadable<T: FromRow>(rows: Seq<Seq<CellView>>, k: int) -> bool {
    &&& 0 <= k < rows.len()
    &&& T::of_row(rows[k]) is Err
    &&& forall|j: int| 0 <= j < k ==> (#[trigger] T::of_row(rows[j])) is Ok
}

/// Reads every row in order. All of them must hold a value; otherwise the
/// first that does not is reported as a row mapping error.
pub fn read_rows<T: FromRow>(rows: &Vec<Vec<Cell>>) -> (r: Result<Vec<T>, String>)
    ensures
        match r {
            Ok(values) => {
                &&& values.len() == rows.len()
                &&& forall|i: int|
                    0 <= i < rows.len() ==> T::of_row(#[trigger] rows.deep_view()[i]) == Ok::<
                        T::V,
                        Seq<char>,
                    >(values[i]@)
            },
            Err(message) => exists|k: int|
                #[trigger] first_unreadable::<T>(rows.deep_view(), k) && message@
                    == row_mapping_message(T::of_row(rows.deep_view()[k])->Err_0),
        },
        r matches Err(message) ==> is_row_mapping_error(message@),
{
    let mut values: Vec<T> = Vec::new();
    let mut i: usize = 0;
    while i < rows.len()
        invariant
            i <= rows.len(),
            values.len() == i,
            forall|j: int|
                0 <= j < i ==> T::of_row(#[trigger] rows.deep_view()[j]) == Ok::<T::V, Seq<char>>(
                    values[j]@,
                ),
        decreases rows.len() - i,
    {
        assert(rows.deep_view()[i as int] == rows[i as int].deep_view());
        match T::from_row(&rows[i]) {
            Ok(value) => {
                values.push(value);
            },
            Err(fault) => {
                let message = row_mapping_error(&fault);
                proof {
                    assert(first_unreadable::<T>(rows.deep_view(), i as int));
                }
                return Err(message);
            },
        }
        i += 1;
    }
    Ok(values)
}

} // verus!
