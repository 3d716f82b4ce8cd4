//! Exemplar of the growable text type: the single fixed literal "example".

use vstd::prelude::*;
use vstd::string::StringExecFns;
use crate::Exemplars;

verus! {

impl Exemplars for String {
    type Model = Seq<char>;

    open spec fn model_of(&self) -> Seq<char> {
        self@
    }

    open spec fn exemplar_seq() -> Seq<Seq<char>> {
        seq!["example"@]
    }

    proof fn exemplar_seq_nonempty() {
    }

    fn exemplar_nth(i: u128) -> (r: Option<String>) {
        if i == 0 {
            Some(String::from_str("example"))
        } else {
            None
        }
    }
}

} // verus!
