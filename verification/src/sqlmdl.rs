//! A model over the records of one SQL table: the statements that create,
//! read, list, update and delete a record, and the records as last listed.
//! The connection, and the conversion between records and statement
//! parameters, stay outside; their outcomes come in as plain values.
use vstd::prelude::*;

verus! {

/// The statements behind a record table: the ones run once when the model
/// starts, and those that create, read, list, update and delete a record,
/// with the fields that pick the record to delete.
pub struct SqlIdTable<'a> {
    pub initially: &'a [&'a str],
    pub create: &'a str,
    pub read: &'a str,
    pub all: &'a str,
    pub update: &'a str,
    pub delete: &'a str,
    pub delkey: &'a [&'a str],
}

impl<'a> SqlIdTable<'a> {
    pub fn new(
        initially: &'a [&'a str],
        create: &'a str,
        read: &'a str,
        all: &'a str,
        update: &'a str,
        delete: &'a str,
        delkey: &'a [&'a str],
    ) -> (r: Self)
        ensures
            r.initially == initially,
            r.create == create,
            r.read == read,
            r.all == all,
            r.update == update,
            r.delete == delete,
            r.delkey == delkey,
    {
        Self { initially, create, read, all, update, delete, delkey }
    }
}

/// What the caller does once a statement against the table has answered.
pub enum Next<E> {
    /// List the records again and hand the answer to `reset`.
    Reload,
    /// Report the error; the records stay as they are.
    Report(E),
}

/// The records of one table as last listed, with the statements that reach
/// the table.
pub struct SqliteModel<'a, T> {
    array: Vec<T>,
    sql: SqlIdTable<'a>,
}

impl<'a, T> View for SqliteModel<'a, T> {
    type V = Seq<T>;

    closed spec fn view(&self) -> Seq<T> {
        self.array@
    }
}

impl<'a, T: Clone> SqliteModel<'a, T> {
    /// The statements the model was made with.
    pub closed spec fn statements(&self) -> SqlIdTable<'a> {
        self.sql
    }

    /// A model over the table that `sql` reaches, holding no record until
    /// the first listing.
    pub fn new(sql: SqlIdTable<'a>) -> (r: Self)
        ensures
            r@ == Seq::<T>::empty(),
            r.statements() == sql,
    {
        Self { array: Vec::new(), sql }
    }

    /// The statements the model was made with.
    pub fn sql(&self) -> (r: &SqlIdTable<'a>)
        ensures
            *r == self.statements(),
    {
        &self.sql
    }

    /// The number of records.
    pub fn row_count(&self) -> (n: usize)
        ensures
            n == self@.len(),
    {
        self.array.len()
    }

    /// A copy of record `row`, or `None` past the last record.
    pub fn row_data(&self, row: usize) -> (r: Option<T>)
        ensures
            r is Some <==> row < self@.len(),
            r matches Some(d) ==> cloned(self@[row as int], d),
    {
        if row < self.array.len() {
            Some(self.array[row].clone())
        } else {
            None
        }
    }

    /// Takes the records from the answer to the listing statement: all of
    /// them when it succeeded; otherwise the records stay as they were and
    /// the error is handed back.
    pub fn reset<E>(&mut self, fetched: Result<Vec<T>, E>) -> (report: Option<E>)
        ensures
            final(self).statements() == old(self).statements(),
            match fetched {
                Ok(rows) => final(self)@ == rows@ && report is None,
                Err(e) => final(self)@ == old(self)@ && report == Some(e),
            },
    {
        match fetched {
            Ok(rows) => {
                self.array = rows;
                None
            },
            Err(e) => Some(e),
        }
    }

    /// Writes `data` at record `row` once the update statement answered
    /// `written`: the record takes `data` on success; on failure the records
    /// stay as they were and the error is handed back.
    pub fn set_row_data<E>(&mut self, row: usize, data: T, written: Result<(), E>) -> (report:
        Option<E>)
        requires
            written is Ok ==> row < old(self)@.len(),
        ensures
            final(self).statements() == old(self).statements(),
            match written {
                Ok(_) => final(self)@ == old(self)@.update(row as int, data) && report is None,
                Err(e) => final(self)@ == old(self)@ && report == Some(e),
            },
    {
        match written {
            Ok(_) => {
                self.array.set(row, data);
                None
            },
            Err(e) => Some(e),
        }
    }

    /// What follows adding a record, once the insert statement answered
    /// `added`: a new listing on success, the error reported otherwise.
    pub fn add<E>(&self, added: Result<(), E>) -> (next: Next<E>)
        ensures
            match added {
                Ok(_) => next is Reload,
                Err(e) => next == Next::Report(e),
            },
    {
        match added {
            Ok(_) => Next::Reload,
            Err(e) => Next::Report(e),
        }
    }

    /// What follows deleting a record by value: a new listing, whatever the
    /// delete statement answered.
    pub fn del_value<E>(&self, deleted: Result<usize, E>) -> (next: Next<E>)
        ensures
            next is Reload,
    {
        Next::Reload
    }

    /// The record that deleting row `index` removes: a copy of that record,
    /// or `None` past the last one, when nothing is deleted.
    pub fn del_row(&self, index: usize) -> (r: Option<T>)
        ensures
            r is Some <==> index < self@.len(),
            r matches Some(d) ==> cloned(self@[index as int], d),
    {
        self.row_data(index)
    }

    /// What follows deleting a row's record, once the delete statement
    /// answered `deleted`: a new listing on success, the error reported
    /// otherwise.
    pub fn row_deleted<E>(&self, deleted: Result<usize, E>) -> (next: Next<E>)
        ensures
            match deleted {
                Ok(_) => next is Reload,
                Err(e) => next == Next::Report(e),
            },
    {
        match deleted {
            Ok(_) => Next::Reload,
            Err(e) => Next::Report(e),
        }
    }
}

} // verus!
