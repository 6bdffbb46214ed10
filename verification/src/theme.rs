//! Table striping.

use vstd::prelude::*;

verus! {

/// Whether the data row at a zero-based index wears the zebra stripe: even
/// rows stripe, odd rows stay on the plain backdrop.
pub fn zebra_index(index: usize) -> (r: bool)
    ensures
        r == (index % 2 == 0),
{
    index % 2 == 0
}

/// Adjacent rows never share a stripe.
pub proof fn lemma_zebra_alternates(index: nat)
    ensures
        (index % 2 == 0) != ((index + 1) % 2 == 0),
{
}

} // verus!
