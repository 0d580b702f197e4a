//! Picking one of several texts at random.

use rand::rngs::ThreadRng;
use rand::seq::SliceRandom;
use vstd::prelude::*;

verus! {

/// The random number generator of the current thread, from rand. Nothing
/// is known of its state.
#[verifier::external_type_specification]
#[verifier::external_body]
pub struct ExThreadRng(ThreadRng);

/// `rand::thread_rng` hands out the generator of the current thread.
/// Nothing is promised of it.
pub assume_specification[ rand::thread_rng ]() -> (rng: ThreadRng);

/// Whether `text` is one of `items`.
pub open spec fn is_one_of(items: Seq<&str>, text: Seq<char>) -> bool {
    exists|i: int| 0 <= i < items.len() && (#[trigger] items[i])@ == text
}

/// One item of `items` picked by rand's `SliceRandom::choose`.
///
/// `choose` returns `None` for an empty slice and else one of the items.
/// Which one depends on the generator, so the contract only says that it
/// is one of them.
#[verifier::external_body]
fn pick_one<'a>(items: &[&'a str], rng: &mut ThreadRng) -> (picked: Option<&'a str>)
    ensures
        items@.len() == 0 ==> picked is None,
        items@.len() > 0 ==> picked is Some && is_one_of(items@, picked->0@),
{
    items.choose(rng).copied()
}

/// There was nothing to choose from.
#[derive(Clone, Copy, Debug, PartialEq, Eq, Structural)]
pub struct NothingToChoose;

/// Makes the answer of [`random_choice`] from what was picked: a copy of
/// the text, or the error where nothing could be picked.
pub fn chosen(picked: Option<&str>) -> (choice: Result<String, NothingToChoose>)
    ensures
        match picked {
            Some(text) => choice matches Ok(copy) && copy@ == text@,
            None => choice == Err::<String, NothingToChoose>(NothingToChoose),
        },
{
    match picked {
        Some(text) => Ok(text.to_owned()),
        None => Err(NothingToChoose),
    }
}

/// Chooses one of the texts of `arr` at random.
///
/// Fails exactly when `arr` is empty. Which text comes back is up to the
/// random number generator; it is always one of `arr`.
pub fn random_choice<const N: usize>(arr: [&str; N]) -> (choice: Result<String, NothingToChoose>)
    ensures
        N == 0 <==> choice is Err,
        choice matches Ok(text) ==> is_one_of(arr@, text@),
{
    let mut rng = rand::thread_rng();
    chosen(pick_one(arr.as_slice(), &mut rng))
}

} // verus!
