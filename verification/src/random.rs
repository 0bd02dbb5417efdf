use vstd::prelude::*;
use crate::names::name_alphabet;

verus! {

/// Calls `fastrand::choose_multiple` with the thread-local generator.
///
/// Claimed, from its reservoir sampling: the result holds `min(amount, len)`
/// items; each is an item of the source; and no source position is taken twice,
/// so a source without repeated items gives a result without repeated items.
/// Which items are taken is left open: it rests on chance. The library draws only
/// from the whole alphabet of generated names, so that every name of three
/// different alphabet characters can come out; the `requires` holds it to that.
#[verifier::external_body]
pub(crate) fn choose_multiple_chars(source: Vec<char>, amount: usize) -> (picked: Vec<char>)
    requires
        source@ == name_alphabet(),
    ensures
        picked@.len() == (if source@.len() < amount { source@.len() } else { amount as nat }),
        forall|i: int| 0 <= i < picked@.len() ==> source@.contains(#[trigger] picked@[i]),
        source@.no_duplicates() ==> picked@.no_duplicates(),
{
    fastrand::choose_multiple(source, amount)
}

} // verus!
