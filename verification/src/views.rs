//! Facts about the views of vectors.

use vstd::prelude::*;

verus! {

/// The deep view of a vector that has grown by one item is the deep view it
/// had, grown by the item's deep view.
pub proof fn lemma_deep_view_push<T: DeepView>(before: Vec<T>, after: Vec<T>, item: T)
    requires
        after@ == before@.push(item),
    ensures
        after.deep_view() == before.deep_view().push(item.deep_view()),
{
    assert forall|i: int| 0 <= i < after.len() implies after.deep_view()[i]
        == before.deep_view().push(item.deep_view())[i] by {
        if i < before.len() {
            assert(after@[i] == before@[i]);
        }
    }
    assert(after.deep_view() =~= before.deep_view().push(item.deep_view()));
}

} // verus!
