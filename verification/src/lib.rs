//! A capability contract by which a type offers a canonical, never-empty
//! sequence of sample ("exemplar") values of itself, together with a single
//! distinguished "primary" exemplar: the first element of that sequence.
//!
//! Implementations exist for the unit type, the fixed-width integers, the
//! optional wrapper and growable sequence over any implementing type, text,
//! and a few third-party numeric and identifier types.

use vstd::prelude::*;
use core::marker::PhantomData;

pub mod composite;
pub mod decimal;
pub mod ident;
pub mod primitive;
pub mod text;

verus! {

/// The capability of a type to enumerate canonical sample values of itself.
///
/// Contracts speak of an implementation through two spec-level pieces: a
/// mathematical model of each value (`model_of`) and the full exemplar
/// sequence of the type, given as a sequence of such models (`exemplar_seq`).
/// The sequence is never empty, which every implementation proves once in
/// `exemplar_seq_nonempty`.
pub trait Exemplars: Sized {
    /// The mathematical model of a value of this type; contracts compare
    /// produced values by their models.
    type Model;

    /// The model of one value of the type.
    spec fn model_of(&self) -> Self::Model;

    /// The exemplar sequence of the type: the models of every exemplar it
    /// can produce, in production order.
    spec fn exemplar_seq() -> Seq<Self::Model>;

    /// Every implementation offers at least one exemplar.
    proof fn exemplar_seq_nonempty()
        ensures
            Self::exemplar_seq().len() > 0,
    ;

    /// Produce the exemplar at position `i` of the exemplar sequence, or
    /// `None` when the sequence is shorter than that. Exemplars are produced
    /// on demand: no implementation materialises its sequence.
    fn exemplar_nth(i: u128) -> (r: Option<Self>)
        ensures
            i < Self::exemplar_seq().len() ==> (r matches Some(v)
                && v.model_of() == Self::exemplar_seq()[i as int]),
            i >= Self::exemplar_seq().len() ==> r is None,
    ;

    /// Enumerate all exemplars of the type lazily, from the first on.
    ///
    /// The returned enumerator starts at the front of the exemplar sequence;
    /// an override could not start it anywhere else.
    fn exemplars() -> (it: ExemplarIter<Self>)
        ensures
            it.position() == 0,
    {
        ExemplarIter { pos: 0, over: false, marker: PhantomData }
    }

    /// The primary exemplar: the first value produced by consuming
    /// `exemplars()`. Because the exemplar sequence is never empty, this
    /// always succeeds, and an override could not return anything whose
    /// model differs from the first element of the sequence.
    fn exemplar() -> (r: Self)
        ensures
            r.model_of() == Self::exemplar_seq()[0],
    {
        proof {
            Self::exemplar_seq_nonempty();
        }
        Self::exemplar_nth(0).unwrap()
    }
}

/// A lazy enumerator over the exemplars of `T`, in sequence order.
pub struct ExemplarIter<T> {
    pos: u128,
    over: bool,
    marker: PhantomData<T>,
}

impl<T> ExemplarIter<T> {
    /// How many exemplars this enumerator has handed out so far.
    pub closed spec fn position(&self) -> nat {
        if self.over {
            (u128::MAX as nat) + 1
        } else {
            self.pos as nat
        }
    }
}

impl<T: Exemplars> ExemplarIter<T> {
    /// Hand out the next exemplar, advancing the enumerator, or `None` once
    /// the exemplar sequence is exhausted. An enumerator counts positions in
    /// 128 bits and therefore stops after `u128::MAX + 1` values even on the
    /// (wider-than-practical) sequences some composite types describe.
    pub fn next(&mut self) -> (r: Option<T>)
        ensures
            ({
                let p = old(self).position();
                if p < T::exemplar_seq().len() && p <= u128::MAX {
                    &&& r matches Some(v) && v.model_of() == T::exemplar_seq()[p as int]
                    &&& final(self).position() == p + 1
                } else {
                    &&& r is None
                    &&& final(self).position() == p
                }
            }),
    {
        if self.over {
            return None;
        }
        match T::exemplar_nth(self.pos) {
            None => None,
            Some(v) => {
                if self.pos == u128::MAX {
                    self.over = true;
                } else {
                    self.pos = self.pos + 1;
                }
                Some(v)
            }
        }
    }
}

/// Collect the first `n` exemplars of `T` by consuming a fresh enumerator:
/// all of them when the exemplar sequence is shorter than `n`.
pub fn exemplars_take<T: Exemplars>(n: usize) -> (r: Vec<T>)
    ensures
        r@.len() == (if n <= T::exemplar_seq().len() { n as nat } else { T::exemplar_seq().len() }),
        forall|j: int| 0 <= j < r@.len() ==> #[trigger] r@[j].model_of() == T::exemplar_seq()[j],
{
    let mut out: Vec<T> = Vec::new();
    let mut it = T::exemplars();
    let mut exhausted: bool = false;
    while out.len() < n && !exhausted
        invariant
            out@.len() <= n,
            out@.len() <= T::exemplar_seq().len(),
            !exhausted ==> it.position() == out@.len(),
            exhausted ==> out@.len() == T::exemplar_seq().len(),
            forall|j: int| 0 <= j < out@.len() ==> #[trigger] out@[j].model_of() == T::exemplar_seq()[j],
        decreases n - out@.len() + (if exhausted { 0int } else { 1 }),
    {
        match it.next() {
            Some(v) => out.push(v),
            None => {
                exhausted = true;
            }
        }
    }
    out
}

/// Law: the primary exemplar equals the first value produced by consuming
/// the enumerator. `primary` carries what `exemplar` ensures of its result;
/// `first` carries what the first `next` of a fresh enumerator ensures of
/// its result; the two models necessarily coincide.
pub proof fn lemma_primary_is_first_enumerated<T: Exemplars>(primary: T, first: T)
    requires
        primary.model_of() == T::exemplar_seq()[0],
        first.model_of() == T::exemplar_seq()[0],
    ensures
        primary.model_of() == first.model_of(),
{
}

/// Law: repeated requests for the primary exemplar agree. Every call's
/// result carries the model of the head of the exemplar sequence, a value
/// fixed by the type alone, so no hidden state can drift between calls.
pub proof fn lemma_primary_idempotent<T: Exemplars>(a: T, b: T)
    requires
        a.model_of() == T::exemplar_seq()[0],
        b.model_of() == T::exemplar_seq()[0],
    ensures
        a.model_of() == b.model_of(),
{
}

} // verus!
