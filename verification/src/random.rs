//! The one place where chance enters the library.

use rand::seq::SliceRandom;
use vstd::prelude::*;

verus! {

/// Calls `rand::seq::SliceRandom::choose` on the items, with the generator that
/// `rand::thread_rng` hands to the calling thread.
///
/// Believed, not proved: an empty list gives `None`; any other list gives a
/// reference to one of its items. Which item comes back is left open.
#[verifier::external_body]
pub(crate) fn choose_one<T>(items: &Vec<T>) -> (picked: Option<&T>)
    ensures
        items@.len() == 0 ==> picked is None,
        items@.len() > 0 ==> picked is Some && items@.contains(*picked->0),
{
    items.as_slice().choose(&mut rand::thread_rng())
}

} // verus!
