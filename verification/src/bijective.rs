//! A model that shows the rows of another model through a pair of functions:
//! one turns a stored row into the row shown, the other turns an edited row
//! back into a stored one.
use vstd::prelude::*;
use crate::model::Model;

verus! {

/// Shows `wrapped_model` through `forward_function`, and writes an edited row
/// back through `reverse_function`, which also receives the row it replaces.
pub struct BijectiveModel<M, F, R> {
    wrapped_model: M,
    forward_function: F,
    reverse_function: R,
}

impl<M, F, R> BijectiveModel<M, F, R> {
    /// The model shown.
    pub closed spec fn source(&self) -> M {
        self.wrapped_model
    }

    /// The function that turns a stored row into the row shown.
    pub closed spec fn forward(&self) -> F {
        self.forward_function
    }

    /// The function that turns an edited row back into a stored one.
    pub closed spec fn reverse(&self) -> R {
        self.reverse_function
    }

    /// Creates a new BijectiveModel based on the given `wrapped_model` and
    /// the functions that map its rows forward and back.
    pub fn new(wrapped_model: M, forward_function: F, reverse_function: R) -> (r: Self)
        ensures
            r.source() == wrapped_model,
            r.forward() == forward_function,
            r.reverse() == reverse_function,
    {
        Self { wrapped_model, forward_function, reverse_function }
    }

    /// Returns a reference to the inner model
    pub fn source_model(&self) -> (r: &M)
        ensures
            *r == self.source(),
    {
        &self.wrapped_model
    }
}

impl<M, F, R, U> Model for BijectiveModel<M, F, R> where
    M: Model,
    F: Fn(M::Data) -> U,
    R: Fn(U, M::Data) -> M::Data,
 {
    type Data = U;

    open spec fn inv(&self) -> bool {
        &&& self.source().inv()
        &&& forall|t: M::Data| call_requires(self.forward(), (t,))
        &&& forall|u: U, t: M::Data| call_requires(self.reverse(), (u, t))
    }

    open spec fn row_len(&self) -> nat {
        self.source().row_len()
    }

    open spec fn holds(&self, row: int, data: U) -> bool {
        exists|t: M::Data| self.source().holds(row, t) && call_ensures(self.forward(), (t,), data)
    }

    open spec fn written(&self, row: int, data: U, after: Self) -> bool {
        &&& after.forward() == self.forward()
        &&& after.reverse() == self.reverse()
        &&& exists|t: M::Data, t2: M::Data|
            {
                &&& self.source().holds(row, t)
                &&& call_ensures(self.reverse(), (data, t), t2)
                &&& self.source().written(row, t2, after.source())
            }
    }

    fn row_count(&self) -> (n: usize) {
        self.wrapped_model.row_count()
    }

    fn row_data(&self, row: usize) -> (r: Option<U>) {
        match self.wrapped_model.row_data(row) {
            Some(t) => {
                assert(call_requires(self.forward(), (t,)));
                let u = (self.forward_function)(t);
                Some(u)
            },
            None => None,
        }
    }

    fn set_row_data(&mut self, row: usize, data: U) {
        match self.wrapped_model.row_data(row) {
            Some(prior) => {
                assert(call_requires(self.reverse(), (data, prior)));
                let new = (self.reverse_function)(data, prior);
                self.wrapped_model.set_row_data(row, new);
                assert(old(self).source().holds(row as int, prior) && call_ensures(
                    old(self).reverse(),
                    (data, prior),
                    new,
                ));
            },
            None => {},
        }
        assert(self.forward() == old(self).forward());
        assert(self.reverse() == old(self).reverse());
    }
}


/// Writing a row and reading it back gives the edit back, for functions that
/// undo each other: when showing any copy of `reverse(data, previous)` gives
/// `data` again, the row shown after `set_row_data(row, data)` on a model over
/// a vector is `data`.
pub proof fn lemma_write_then_read<T: Clone, F, R, U>(
    before: BijectiveModel<Vec<T>, F, R>,
    row: int,
    data: U,
    after: BijectiveModel<Vec<T>, F, R>,
    shown: U,
) where F: Fn(T) -> U, R: Fn(U, T) -> T
    requires
        0 <= row < before.row_len(),
        before.written(row, data, after),
        after.holds(row, shown),
        forall|u: U, t: T, t2: T, t3: T, u2: U|
            #![trigger call_ensures(before.reverse(), (u, t), t2), call_ensures(before.forward(), (t3,), u2), cloned(t2, t3)]
            call_ensures(before.reverse(), (u, t), t2) && cloned(t2, t3) && call_ensures(
                before.forward(),
                (t3,),
                u2,
            ) ==> u2 == u,
    ensures
        shown == data,
{
    let (t, t2) = choose|t: T, t2: T|
        {
            &&& before.source().holds(row, t)
            &&& call_ensures(before.reverse(), (data, t), t2)
            &&& before.source().written(row, t2, after.source())
        };
    let t3 = choose|t3: T| after.source().holds(row, t3) && call_ensures(after.forward(), (t3,), shown);
    assert(after.source()@[row] == t2);
    assert(cloned(t2, t3));
}


/// Writing back a row just as it was read leaves the source unchanged, for a
/// model over a vector whose clones are faithful and whose reverse function
/// undoes the forward one: when `reverse(forward(t), t)` is `t`, a row shown
/// as `shown` and written back as `shown` leaves every row as it was.
pub proof fn lemma_write_back_read_row<T: Clone, F, R, U>(
    before: BijectiveModel<Vec<T>, F, R>,
    row: int,
    shown: U,
    after: BijectiveModel<Vec<T>, F, R>,
) where F: Fn(T) -> U, R: Fn(U, T) -> T
    requires
        0 <= row < before.row_len(),
        before.holds(row, shown),
        before.written(row, shown, after),
        forall|a: T, b: T| #[trigger] cloned(a, b) ==> a == b,
        forall|t: T, u: U, t2: T|
            #![trigger call_ensures(before.forward(), (t,), u), call_ensures(before.reverse(), (u, t), t2)]
            call_ensures(before.forward(), (t,), u) && call_ensures(before.reverse(), (u, t), t2) ==> t2
                == t,
    ensures
        after.source()@ == before.source()@,
{
    let t1 = choose|t1: T| before.source().holds(row, t1) && call_ensures(before.forward(), (t1,), shown);
    let (t, t2) = choose|t: T, t2: T|
        {
            &&& before.source().holds(row, t)
            &&& call_ensures(before.reverse(), (shown, t), t2)
            &&& before.source().written(row, t2, after.source())
        };
    assert(t1 == before.source()@[row]);
    assert(t == before.source()@[row]);
    assert(t2 == t);
    assert(after.source()@ =~= before.source()@);
}


/// Writing back a row just as it was read leaves the source unchanged, for
/// any source that hands out one value per row and stays as it is when that
/// value is written back, and for a reverse function that undoes the forward
/// one: when `reverse(forward(t), t)` is `t`, a row shown as `shown` and
/// written back as `shown` leaves the source as it was.
pub proof fn lemma_write_back_unchanged<M: Model, F, R, U>(
    before: BijectiveModel<M, F, R>,
    row: int,
    shown: U,
    after: BijectiveModel<M, F, R>,
) where F: Fn(M::Data) -> U, R: Fn(U, M::Data) -> M::Data
    requires
        before.holds(row, shown),
        before.written(row, shown, after),
        forall|a: M::Data, b: M::Data|
            #![trigger before.source().holds(row, a), before.source().holds(row, b)]
            before.source().holds(row, a) && before.source().holds(row, b) ==> a == b,
        forall|t: M::Data, written: M|
            #![trigger before.source().written(row, t, written)]
            before.source().holds(row, t) && before.source().written(row, t, written) ==> written
                == before.source(),
        forall|t: M::Data, u: U, t2: M::Data|
            #![trigger call_ensures(before.forward(), (t,), u), call_ensures(before.reverse(), (u, t), t2)]
            call_ensures(before.forward(), (t,), u) && call_ensures(before.reverse(), (u, t), t2) ==> t2
                == t,
    ensures
        after.source() == before.source(),
{
    let t1 = choose|t1: M::Data| before.source().holds(row, t1) && call_ensures(before.forward(), (t1,), shown);
    let (t, t2) = choose|t: M::Data, t2: M::Data|
        {
            &&& before.source().holds(row, t)
            &&& call_ensures(before.reverse(), (shown, t), t2)
            &&& before.source().written(row, t2, after.source())
        };
    assert(t1 == t);
    assert(t2 == t);
}


/// A model shown over a vector has one row per element of the vector.
pub proof fn lemma_rows_of_vector_source<T: Clone, F, R, U>(m: BijectiveModel<Vec<T>, F, R>)
    where F: Fn(T) -> U, R: Fn(U, T) -> T
    ensures
        m.row_len() == m.source()@.len(),
{
}

} // verus!
