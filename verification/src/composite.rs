//! Exemplars of the optional wrapper and of the growable sequence over any
//! implementing element type.
//!
//! Both implementations are purely derivational: they restructure the element
//! type's exemplar sequence and add no values of their own, so order and
//! non-emptiness carry over by construction. Composites put the most
//! informative case first: the absent case of the optional wrapper comes
//! last, never first.

use vstd::prelude::*;
use crate::Exemplars;

verus! {

impl<T: Exemplars> Exemplars for Option<T> {
    type Model = Option<T::Model>;

    open spec fn model_of(&self) -> Option<T::Model> {
        match self {
            Some(x) => Some(x.model_of()),
            None => None,
        }
    }

    /// Every exemplar of `T` wrapped as present, then a single absent value.
    open spec fn exemplar_seq() -> Seq<Option<T::Model>> {
        T::exemplar_seq().map_values(|m: T::Model| Some(m)).push(None)
    }

    proof fn exemplar_seq_nonempty() {
    }

    fn exemplar_nth(i: u128) -> (r: Option<Option<T>>) {
        match T::exemplar_nth(i) {
            Some(v) => Some(Some(v)),
            None => {
                if i == 0 {
                    // `T` has at least one exemplar, so position 0 of its
                    // sequence cannot be missing.
                    proof {
                        T::exemplar_seq_nonempty();
                    }
                    None
                } else {
                    match T::exemplar_nth(i - 1) {
                        // Position `i - 1` exists and position `i` does not:
                        // `i` is exactly the length of `T`'s sequence, where
                        // the single absent value sits.
                        Some(_) => Some(None),
                        None => None,
                    }
                }
            }
        }
    }
}

impl<T: Exemplars> Exemplars for Vec<T> {
    type Model = Seq<T::Model>;

    open spec fn model_of(&self) -> Seq<T::Model> {
        self@.map_values(|x: T| x.model_of())
    }

    /// Each exemplar of `T`, wrapped as the one element of its own sequence.
    open spec fn exemplar_seq() -> Seq<Seq<T::Model>> {
        T::exemplar_seq().map_values(|m: T::Model| seq![m])
    }

    proof fn exemplar_seq_nonempty() {
        T::exemplar_seq_nonempty();
    }

    fn exemplar_nth(i: u128) -> (r: Option<Vec<T>>) {
        match T::exemplar_nth(i) {
            Some(v) => {
                let ghost vm = v.model_of();
                let mut out: Vec<T> = Vec::new();
                out.push(v);
                proof {
                    assert(out.model_of() =~= seq![vm]);
                }
                Some(out)
            }
            None => None,
        }
    }
}

/// Law: the exemplar sequence of the optional wrapper over `T` is every
/// exemplar of `T` wrapped as present, followed by exactly one absent value,
/// and its first element is the present form of `T`'s first exemplar — so the
/// primary exemplar of the wrapper is the present form of `T`'s primary
/// exemplar.
pub proof fn lemma_option_exemplar_seq<T: Exemplars>()
    ensures
        <Option<T> as Exemplars>::exemplar_seq().len() == T::exemplar_seq().len() + 1,
        forall|j: int| 0 <= j < T::exemplar_seq().len()
            ==> #[trigger] <Option<T> as Exemplars>::exemplar_seq()[j] == Some(T::exemplar_seq()[j]),
        <Option<T> as Exemplars>::exemplar_seq().last() is None,
        <Option<T> as Exemplars>::exemplar_seq()[0] == Some(T::exemplar_seq()[0]),
{
    T::exemplar_seq_nonempty();
}

/// Law: the exemplar sequence of the growable sequence over `T` pairs each
/// exemplar of `T` with the single-element sequence holding just it — so each
/// produced exemplar has exactly one element, and the primary exemplar is the
/// single-element sequence holding `T`'s primary exemplar.
pub proof fn lemma_vec_exemplar_seq<T: Exemplars>()
    ensures
        <Vec<T> as Exemplars>::exemplar_seq().len() == T::exemplar_seq().len(),
        forall|j: int| 0 <= j < T::exemplar_seq().len()
            ==> #[trigger] <Vec<T> as Exemplars>::exemplar_seq()[j] == seq![T::exemplar_seq()[j]],
        forall|j: int| 0 <= j < T::exemplar_seq().len()
            ==> #[trigger] <Vec<T> as Exemplars>::exemplar_seq()[j].len() == 1,
        <Vec<T> as Exemplars>::exemplar_seq()[0] == seq![T::exemplar_seq()[0]],
{
    T::exemplar_seq_nonempty();
}

} // verus!
