//! Continuations that wait for the native side to call back.
//!
//! An operation that runs in the background is started with a closure to
//! run when it is done. The native side does not know closures: it takes
//! one word of user data and gives that word back to a function that it
//! calls when the operation is done. The closure is therefore put aside
//! under a token, the token goes out as the user data, and when it comes
//! back the closure is taken out from under it and run. Taking it out
//! ends the registration, so no token runs a closure twice.

use vstd::prelude::*;
use crate::classes::AsyncResult;
use crate::object::Object;
use crate::types::{gpointer, NULL};
use crate::wrap::Wrapper;

verus! {

/// The continuations that have been handed out and have not come back.
pub struct Continuations<F> {
    slots: Vec<Option<F>>,
}

impl<F> View for Continuations<F> {
    type V = Map<gpointer, F>;

    /// The closure that waits under each token.
    closed spec fn view(&self) -> Map<gpointer, F> {
        Map::new(
            |token: gpointer| 1 <= token <= self.slots.len() && self.slots[token - 1].is_some(),
            |token: gpointer| self.slots[token - 1].unwrap(),
        )
    }
}

impl<F> Continuations<F> {
    /// No continuation waits.
    pub fn new() -> (pending: Self)
        ensures
            pending@ == Map::<gpointer, F>::empty(),
    {
        let pending = Continuations { slots: Vec::new() };
        assert(pending@ =~= Map::<gpointer, F>::empty());
        pending
    }

    /// Nothing waits under the null token, so user data that is null
    /// runs no closure.
    pub proof fn lemma_null_never_waits(&self)
        ensures
            !self@.contains_key(NULL),
    {
    }

    /// Whether a closure waits under `token`.
    pub fn is_pending(&self, token: gpointer) -> (r: bool)
        ensures
            r == self@.contains_key(token),
    {
        token >= 1 && token <= self.slots.len() && self.slots[token - 1].is_some()
    }

    /// Puts `callback` aside and returns the token under which it waits.
    /// The token is not null and no other closure waits under it.
    pub fn register(&mut self, callback: F) -> (token: gpointer)
        ensures
            token != NULL,
            !old(self)@.contains_key(token),
            final(self)@ == old(self)@.insert(token, callback),
    {
        let mut i: usize = 0;
        while i < self.slots.len() && self.slots[i].is_some()
            invariant
                i <= self.slots.len(),
                self.slots == old(self).slots,
            decreases self.slots.len() - i,
        {
            i += 1;
        }
        if i < self.slots.len() {
            self.slots.set(i, Some(callback));
        } else {
            self.slots.push(Some(callback));
        }
        assert(final(self)@ =~= old(self)@.insert((i + 1) as usize, callback));
        i + 1
    }

    /// Takes out the closure that waits under `token`, if one does.
    pub fn take(&mut self, token: gpointer) -> (callback: Option<F>)
        ensures
            callback == if old(self)@.contains_key(token) {
                Some(old(self)@[token])
            } else {
                None
            },
            final(self)@ == old(self)@.remove(token),
    {
        if token >= 1 && token <= self.slots.len() {
            let callback = self.slots[token - 1].take();
            assert(final(self)@ =~= old(self)@.remove(token));
            callback
        } else {
            assert(final(self)@ =~= old(self)@.remove(token));
            None
        }
    }
}

/// Runs `callback` on views of the instances at `source_object` and
/// `res`. For a caller that keeps the waiting closures behind a lock and
/// lets go of the lock before a closure runs.
pub fn invoke<F>(callback: F, source_object: gpointer, res: gpointer) where
    F: FnOnce(&Object, &AsyncResult),

    requires
        call_requires(callback, (&Object::view_at(source_object), &AsyncResult::view_at(res))),
    ensures
        call_ensures(callback, (&Object::view_at(source_object), &AsyncResult::view_at(res)), ()),
{
    let arg1: Object = crate::wrap::from_raw(source_object);
    let arg2: AsyncResult = crate::wrap::from_raw(res);
    callback(&arg1, &arg2);
}

/// The function that the native side calls when a background operation
/// is done. Takes out the closure that waits under `user_data` and runs
/// it on views of the instances at `source_object` and `res`. Returns
/// whether a closure waited there; where none did, nothing is run.
pub fn async_ready_callback<F>(
    pending: &mut Continuations<F>,
    source_object: gpointer,
    res: gpointer,
    user_data: gpointer,
) -> (fired: bool) where F: FnOnce(&Object, &AsyncResult)
    requires
        old(pending)@.contains_key(user_data) ==> call_requires(
            old(pending)@[user_data],
            (&Object::view_at(source_object), &AsyncResult::view_at(res)),
        ),
    ensures
        fired == old(pending)@.contains_key(user_data),
        final(pending)@ == old(pending)@.remove(user_data),
        fired ==> call_ensures(
            old(pending)@[user_data],
            (&Object::view_at(source_object), &AsyncResult::view_at(res)),
            (),
        ),
{
    match pending.take(user_data) {
        Some(callback) => {
            invoke(callback, source_object, res);
            true
        },
        None => false,
    }
}

/// A closure that is put aside under a token waits there as it was put;
/// the one delivery of the token takes it out, and after that delivery
/// nothing waits under the token and what waited elsewhere still does.
pub proof fn lemma_one_delivery<F>(before: Map<gpointer, F>, token: gpointer, callback: F)
    requires
        !before.contains_key(token),
    ensures
        before.insert(token, callback).contains_key(token),
        before.insert(token, callback)[token] == callback,
        !before.insert(token, callback).remove(token).contains_key(token),
        before.insert(token, callback).remove(token) == before,
{
    assert(before.insert(token, callback).remove(token) =~= before);
}

} // verus!
