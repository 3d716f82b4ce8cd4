//! Exemplars of the unit type and of the fixed-width integer types.
//!
//! Every integer type shares the same exemplar sequence shape: it counts up
//! from 1 to the type's maximum value, so the primary exemplar is the
//! "typical" nonzero value 1 rather than a default-like 0.

use vstd::prelude::*;
use crate::Exemplars;

verus! {

/// The sequence `1, 2, ..., n`.
pub open spec fn count_up(n: nat) -> Seq<int> {
    Seq::new(n, |i: int| i + 1)
}

/// Law: a counting sequence of positive length starts at 1 and every element
/// lies within `[1, n]`. Each integer implementation's exemplar sequence is
/// `count_up` of the type's maximum value, so its first exemplar is 1 and
/// every exemplar is within `[1, MAX]`.
pub proof fn lemma_count_up_range(n: nat)
    requires
        n > 0,
    ensures
        count_up(n).len() == n,
        count_up(n)[0] == 1,
        forall|j: int| 0 <= j < n ==> 1 <= #[trigger] count_up(n)[j] <= n,
{
}

impl Exemplars for () {
    type Model = ();

    open spec fn model_of(&self) -> () {
        ()
    }

    open spec fn exemplar_seq() -> Seq<()> {
        seq![()]
    }

    proof fn exemplar_seq_nonempty() {
    }

    fn exemplar_nth(i: u128) -> (r: Option<()>) {
        if i == 0 {
            Some(())
        } else {
            None
        }
    }
}

impl Exemplars for u8 {
    type Model = int;

    open spec fn model_of(&self) -> int {
        *self as int
    }

    open spec fn exemplar_seq() -> Seq<int> {
        count_up(u8::MAX as nat)
    }

    proof fn exemplar_seq_nonempty() {
    }

    fn exemplar_nth(i: u128) -> (r: Option<u8>) {
        if i < u8::MAX as u128 {
            Some((i + 1) as u8)
        } else {
            None
        }
    }
}

impl Exemplars for u16 {
    type Model = int;

    open spec fn model_of(&self) -> int {
        *self as int
    }

    open spec fn exemplar_seq() -> Seq<int> {
        count_up(u16::MAX as nat)
    }

    proof fn exemplar_seq_nonempty() {
    }

    fn exemplar_nth(i: u128) -> (r: Option<u16>) {
        if i < u16::MAX as u128 {
            Some((i + 1) as u16)
        } else {
            None
        }
    }
}

impl Exemplars for u32 {
    type Model = int;

    open spec fn model_of(&self) -> int {
        *self as int
    }

    open spec fn exemplar_seq() -> Seq<int> {
        count_up(u32::MAX as nat)
    }

    proof fn exemplar_seq_nonempty() {
    }

    fn exemplar_nth(i: u128) -> (r: Option<u32>) {
        if i < u32::MAX as u128 {
            Some((i + 1) as u32)
        } else {
            None
        }
    }
}

impl Exemplars for u64 {
    type Model = int;

    open spec fn model_of(&self) -> int {
        *self as int
    }

    open spec fn exemplar_seq() -> Seq<int> {
        count_up(u64::MAX as nat)
    }

    proof fn exemplar_seq_nonempty() {
    }

    fn exemplar_nth(i: u128) -> (r: Option<u64>) {
        if i < u64::MAX as u128 {
            Some((i + 1) as u64)
        } else {
            None
        }
    }
}

impl Exemplars for u128 {
    type Model = int;

    open spec fn model_of(&self) -> int {
        *self as int
    }

    open spec fn exemplar_seq() -> Seq<int> {
        count_up(u128::MAX as nat)
    }

    proof fn exemplar_seq_nonempty() {
    }

    fn exemplar_nth(i: u128) -> (r: Option<u128>) {
        if i < u128::MAX {
            Some(i + 1)
        } else {
            None
        }
    }
}

impl Exemplars for usize {
    type Model = int;

    open spec fn model_of(&self) -> int {
        *self as int
    }

    open spec fn exemplar_seq() -> Seq<int> {
        count_up(usize::MAX as nat)
    }

    proof fn exemplar_seq_nonempty() {
    }

    fn exemplar_nth(i: u128) -> (r: Option<usize>) {
        if i < usize::MAX as u128 {
            Some((i + 1) as usize)
        } else {
            None
        }
    }
}

impl Exemplars for i8 {
    type Model = int;

    open spec fn model_of(&self) -> int {
        *self as int
    }

    open spec fn exemplar_seq() -> Seq<int> {
        count_up(i8::MAX as nat)
    }

    proof fn exemplar_seq_nonempty() {
    }

    fn exemplar_nth(i: u128) -> (r: Option<i8>) {
        if i < i8::MAX as u128 {
            Some((i + 1) as i8)
        } else {
            None
        }
    }
}

impl Exemplars for i16 {
    type Model = int;

    open spec fn model_of(&self) -> int {
        *self as int
    }

    open spec fn exemplar_seq() -> Seq<int> {
        count_up(i16::MAX as nat)
    }

    proof fn exemplar_seq_nonempty() {
    }

    fn exemplar_nth(i: u128) -> (r: Option<i16>) {
        if i < i16::MAX as u128 {
            Some((i + 1) as i16)
        } else {
            None
        }
    }
}

impl Exemplars for i32 {
    type Model = int;

    open spec fn model_of(&self) -> int {
        *self as int
    }

    open spec fn exemplar_seq() -> Seq<int> {
        count_up(i32::MAX as nat)
    }

    proof fn exemplar_seq_nonempty() {
    }

    fn exemplar_nth(i: u128) -> (r: Option<i32>) {
        if i < i32::MAX as u128 {
            Some((i + 1) as i32)
        } else {
            None
        }
    }
}

impl Exemplars for i64 {
    type Model = int;

    open spec fn model_of(&self) -> int {
        *self as int
    }

    open spec fn exemplar_seq() -> Seq<int> {
        count_up(i64::MAX as nat)
    }

    proof fn exemplar_seq_nonempty() {
    }

    fn exemplar_nth(i: u128) -> (r: Option<i64>) {
        if i < i64::MAX as u128 {
            Some((i + 1) as i64)
        } else {
            None
        }
    }
}

impl Exemplars for i128 {
    type Model = int;

    open spec fn model_of(&self) -> int {
        *self as int
    }

    open spec fn exemplar_seq() -> Seq<int> {
        count_up(i128::MAX as nat)
    }

    proof fn exemplar_seq_nonempty() {
    }

    fn exemplar_nth(i: u128) -> (r: Option<i128>) {
        if i < i128::MAX as u128 {
            Some((i + 1) as i128)
        } else {
            None
        }
    }
}

} // verus!
