//! Which views of a stack are on the screen.
//!
//! A floating view covers only a part of the screen, so the views below it
//! stay visible, down to the first view that is not floating.

use vstd::prelude::*;

verus! {

/// Whether `base` is the lowest visible view of a stack whose views float as
/// `floating` says, bottom first: the topmost view that does not float.
pub open spec fn is_visible_base(floating: Seq<bool>, base: int) -> bool {
    &&& 0 <= base < floating.len()
    &&& !floating[base]
    &&& forall|i: int| base < i < floating.len() ==> #[trigger] floating[i]
}

/// The lowest visible view; none in an empty stack and where every view
/// floats.
pub fn visible_base(floating: &Vec<bool>) -> (base: Option<usize>)
    ensures
        match base {
            Some(base) => is_visible_base(floating@, base as int),
            None => forall|i: int| 0 <= i < floating@.len() ==> #[trigger] floating@[i],
        },
{
    let mut i = floating.len();
    while i > 0
        invariant
            i <= floating@.len(),
            forall|k: int| i <= k < floating@.len() ==> #[trigger] floating@[k],
        decreases i,
    {
        i -= 1;
        if !floating[i] {
            return Some(i);
        }
    }
    None
}

} // verus!
