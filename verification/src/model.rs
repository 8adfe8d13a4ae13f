//! What a table model offers its view: a number of rows, the data of one row,
//! and a way to write one row.
use vstd::prelude::*;

verus! {

/// A sequence of rows that a view reads and edits one row at a time.
pub trait Model: Sized {
    /// The data of one row.
    type Data;

    /// What the model keeps true of itself between calls.
    spec fn inv(&self) -> bool;

    /// The number of rows.
    spec fn row_len(&self) -> nat;

    /// `data` is a value that reading row `row` may hand out.
    spec fn holds(&self, row: int, data: Self::Data) -> bool;

    /// `after` is what the model becomes when `data` is written at row `row`
    /// (a row within the model).
    spec fn written(&self, row: int, data: Self::Data, after: Self) -> bool;

    /// The number of rows.
    fn row_count(&self) -> (n: usize)
        requires
            self.inv(),
        ensures
            n as nat == self.row_len(),
    ;

    /// The data of row `row`, or `None` past the last row.
    fn row_data(&self, row: usize) -> (r: Option<Self::Data>)
        requires
            self.inv(),
        ensures
            r is Some <==> row < self.row_len(),
            r matches Some(d) ==> self.holds(row as int, d),
    ;

    /// Writes `data` at row `row`; a row past the last one is left alone.
    fn set_row_data(&mut self, row: usize, data: Self::Data)
        requires
            old(self).inv(),
        ensures
            final(self).inv(),
            final(self).row_len() == old(self).row_len(),
            row < old(self).row_len() ==> old(self).written(row as int, data, *final(self)),
            row >= old(self).row_len() ==> *final(self) == *old(self),
    ;
}

/// A vector is a model whose rows are its elements.
impl<T: Clone> Model for Vec<T> {
    type Data = T;

    open spec fn inv(&self) -> bool {
        true
    }

    open spec fn row_len(&self) -> nat {
        self@.len()
    }

    open spec fn holds(&self, row: int, data: T) -> bool {
        cloned(self@[row], data)
    }

    open spec fn written(&self, row: int, data: T, after: Self) -> bool {
        after@ == self@.update(row, data)
    }

    fn row_count(&self) -> (n: usize)
        ensures
            n == self@.len(),
    {
        self.len()
    }

    fn row_data(&self, row: usize) -> (r: Option<T>)
        ensures
            r is Some <==> row < self@.len(),
            r matches Some(d) ==> cloned(self@[row as int], d),
    {
        if row < self.len() {
            Some(self[row].clone())
        } else {
            None
        }
    }

    fn set_row_data(&mut self, row: usize, data: T)
        ensures
            row < old(self)@.len() ==> final(self)@ == old(self)@.update(row as int, data),
            row >= old(self)@.len() ==> final(self)@ == old(self)@,
    {
        if row < self.len() {
            self.set(row, data);
        }
    }
}


/// A vector has one row per element: its row count is its length, every
/// element can be read, and a write replaces just the element written.
pub proof fn lemma_vec_rows<T: Clone>(v: Vec<T>, row: int, data: T, after: Vec<T>)
    ensures
        v.row_len() == v@.len(),
        v.inv(),
        0 <= row < v@.len() ==> v.holds(row, v@[row]),
        v.written(row, data, after) ==> after@ == v@.update(row, data),
        v.written(row, data, after) && 0 <= row < v@.len() ==> after@.len() == v@.len() && after@[row]
            == data && forall|i: int| 0 <= i < v@.len() && i != row ==> #[trigger] after@[i] == v@[i],
{
}

} // verus!
