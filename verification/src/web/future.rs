//! What a future does when it is dropped before it has completed.

use vstd::prelude::*;

verus! {

/// Whether the callback of an uncompleted future runs when the future is
/// dropped. It runs on an ordinary drop, and during a panic only where
/// `on_panic` asks for it.
pub open spec fn runs(on_panic: bool, panicking: bool) -> bool {
    on_panic || !panicking
}

/// Whether the callback of an uncompleted future runs when the future is
/// dropped.
pub fn runs_on_drop(on_panic: bool, panicking: bool) -> (out: bool)
    ensures
        out == runs(on_panic, panicking),
{
    on_panic || !panicking
}

/// The callback of a future that is being dropped, if it is to run: a
/// completed future has none left, and during a panic it runs only where
/// `on_panic` asks for it. Either way the future keeps none.
pub fn take_callback<F>(callback: &mut Option<F>, on_panic: bool, panicking: bool) -> (out: Option<
    F,
>)
    ensures
        *final(callback) is None,
        out == if runs(on_panic, panicking) {
            *old(callback)
        } else {
            None
        },
{
    let taken = callback.take();
    if runs_on_drop(on_panic, panicking) {
        taken
    } else {
        None
    }
}

} // verus!
