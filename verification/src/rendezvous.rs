//! A mailbox for one item, shared by two threads.

use crate::sync::guarded;
use std::sync::Condvar;
use std::sync::LockResult;
use std::sync::Mutex;
use std::sync::MutexGuard;
use vstd::prelude::*;

verus! {

/// Removes the item from a slot, if there is one.
pub fn slot_take<T>(slot: &mut Option<T>) -> (r: Option<T>)
    ensures
        r == *old(slot),
        *final(slot) is None,
{
    slot.take()
}

/// Puts `payload` into a slot if the slot is empty, and hands it back if not.
pub fn slot_put<T>(slot: &mut Option<T>, payload: T) -> (r: Result<(), T>)
    ensures
        *old(slot) is None ==> r is Ok && *final(slot) == Some(payload),
        *old(slot) is Some ==> r == Err::<(), T>(payload) && *final(slot) == *old(slot),
{
    if slot.is_some() {
        Err(payload)
    } else {
        *slot = Some(payload);
        Ok(())
    }
}

/// Removes the item from a slot if there is one and `ready` accepts it.
pub fn slot_take_if<T, F: Fn(&T) -> bool>(slot: &mut Option<T>, ready: &F) -> (r: Option<T>)
    requires
        forall|p: &T| #[trigger] ready.requires((p,)),
    ensures
        match r {
            Some(p) => *old(slot) == Some(p) && *final(slot) is None && ready.ensures((&p,), true),
            None => *final(slot) == *old(slot) && (*old(slot) matches Some(p) ==> ready.ensures(
                (&p,),
                false,
            )),
        },
{
    if must_wait(slot, ready) {
        None
    } else {
        slot.take()
    }
}

/// Whether a thread that waits for an item that `ready` accepts has to go on
/// waiting: the slot is empty, or `ready` refuses what it holds.
pub fn must_wait<T, F: Fn(&T) -> bool>(slot: &Option<T>, ready: &F) -> (b: bool)
    requires
        forall|p: &T| #[trigger] ready.requires((p,)),
    ensures
        match *slot {
            Some(p) => ready.ensures((&p,), !b),
            None => b,
        },
{
    match slot {
        Some(p) => !ready(p),
        None => true,
    }
}

/// `Condvar::wait_while`: gives up the lock and blocks until the slot behind
/// it holds an item that `ready` accepts, then takes the lock again. It asks
/// [`must_wait`] each time it is woken. Nothing is proved or claimed of the
/// result.
#[verifier::external_body]
fn wait_while_unready<'a, T, F: Fn(&T) -> bool>(
    signal: &Condvar,
    guard: MutexGuard<'a, Option<T>>,
    ready: &F,
) -> (r: LockResult<MutexGuard<'a, Option<T>>>)
    requires
        forall|p: &T| #[trigger] ready.requires((p,)),
{
    signal.wait_while(guard, |slot: &mut Option<T>| must_wait(slot, ready))
}

/// The hand-off is broken: a thread panicked while it held the mailbox.
#[derive(Debug, Clone, Copy, PartialEq, Eq)]
pub struct Closed;

/// A mailbox that holds one item or none.
#[verifier::reject_recursive_types(T)]
pub struct Rendezvous<T> {
    slot: Mutex<Option<T>>,
    signal: Condvar,
    /// What was put behind the lock when the mailbox was made.
    first: Ghost<Option<T>>,
}

impl<T> Rendezvous<T> {
    /// What the mailbox held when it was made. What it holds now is the
    /// business of whoever had it last, and no function says.
    pub closed spec fn first(&self) -> Option<T> {
        self.first@
    }

    /// A mailbox that holds `payload`.
    pub fn new(payload: T) -> (r: Self)
        ensures
            r.first() == Some(payload),
    {
        let ghost first = Some(payload);
        Rendezvous {
            slot: Mutex::new(Some(payload)),
            signal: Condvar::new(),
            first: Ghost(first),
        }
    }

    fn lock<'a>(&'a self) -> (g: Option<MutexGuard<'a, Option<T>>>) {
        match self.slot.lock() {
            Ok(guard) => Some(guard),
            Err(_) => None,
        }
    }

    /// Whether the hand-off is broken for good.
    pub fn is_broken(&self) -> (b: bool) {
        self.slot.is_poisoned()
    }

    /// Removes the item, if there is one. Does not wait for one.
    pub fn take(&self) -> (r: Option<T>) {
        match self.lock() {
            Some(mut guard) => slot_take(guarded(&mut guard)),
            None => None,
        }
    }

    /// Puts `payload` into the mailbox if it is empty, and hands it back if
    /// not. With `notify`, a thread that waits for an item is woken.
    pub fn put(&self, payload: T, notify: bool) -> (r: Result<(), T>)
        ensures
            r matches Err(p) ==> p == payload,
    {
        match self.lock() {
            Some(mut guard) => {
                let r = slot_put(guarded(&mut guard), payload);
                if notify && r.is_ok() {
                    self.signal.notify_all();
                }
                r
            },
            None => Err(payload),
        }
    }

    /// Blocks until the mailbox holds an item that `ready` accepts, and
    /// removes it. `ready` is asked while the mailbox is locked, so it must
    /// not touch the mailbox itself.
    pub fn wait_until<F: Fn(&T) -> bool>(&self, ready: F) -> (r: Result<T, Closed>)
        requires
            forall|p: &T| #[trigger] ready.requires((p,)),
        ensures
            r matches Ok(p) ==> ready.ensures((&p,), true),
    {
        match self.lock() {
            Some(guard) => match wait_while_unready(&self.signal, guard, &ready) {
                Ok(mut guard) => match slot_take_if(guarded(&mut guard), &ready) {
                    Some(p) => Ok(p),
                    None => Err(Closed),
                },
                Err(_) => Err(Closed),
            },
            None => Err(Closed),
        }
    }
}

} // verus!
