use crate::free_list::{taken, FreeList};
use std::sync::{Mutex, MutexGuard};
use vstd::prelude::*;

verus! {

/// Restores a used value to the state of a freshly constructed one, in place,
/// without allocating a new value.
pub trait Reset {
    fn reset(&mut self);
}

#[verifier::external_type_specification]
#[verifier::external_body]
#[verifier::reject_recursive_types(T)]
pub struct ExMutex<T: ?Sized>(Mutex<T>);

/// Relies on `Mutex::new`: a lock around the given free list.
#[verifier::external_body]
fn new_lock<T>(spares: FreeList<T>) -> (r: Mutex<FreeList<T>>) {
    Mutex::new(spares)
}

#[verifier::external_type_specification]
#[verifier::external_body]
#[verifier::reject_recursive_types(T)]
pub struct ExMutexGuard<'a, T: ?Sized + 'a>(MutexGuard<'a, T>);

/// Relies on `Mutex::lock`: waits for the lock and returns its guard, or
/// reports that the lock was poisoned. `lock` panics only where the calling
/// thread already holds the lock; this library drops every guard it takes
/// before it returns, and runs no code of the pooled type while one lives.
/// Stated as not unwinding, as the return path of a handle's drop needs.
#[verifier::external_body]
fn lock_landfill<T>(landfill: &Mutex<FreeList<T>>) -> (r: Result<MutexGuard<'_, FreeList<T>>, PoolPoisoned>)
    opens_invariants none
    no_unwind
{
    match landfill.lock() {
        Ok(guard) => Ok(guard),
        Err(_) => Err(PoolPoisoned),
    }
}

/// Relies on `MutexGuard::deref_mut`: the free list behind a held lock.
#[verifier::external_body]
fn guarded<'g, 'a, T>(guard: &'g mut MutexGuard<'a, FreeList<T>>) -> (r: &'g mut FreeList<T>)
    opens_invariants none
    no_unwind
{
    std::ops::DerefMut::deref_mut(guard)
}

/// The lock around a pool's free list was poisoned by a panic that happened
/// while it was held; the list may be inconsistent and is no longer read.
#[derive(PartialEq, Eq, Structural, Debug, Clone, Copy)]
pub struct PoolPoisoned;

/// Applies the type's reset to an owned value, once.
pub fn reset_spare<T: Reset>(val: T) -> T {
    let mut val = val;
    val.reset();
    val
}

/// `r` is what handing out `popped` gives: a spare that was reset once, or a
/// default value, which is not reset, where there was no spare.
pub open spec fn refurbished<T: Default + Reset>(popped: Option<T>, r: T) -> bool {
    match popped {
        Some(val) => call_ensures(reset_spare::<T>, (val,), r),
        None => call_ensures(T::default, (), r),
    }
}

/// What is handed out after a take from a free list holding `spares`: with a
/// spare there, the most recently returned one, reset exactly once; with none,
/// a newly constructed default value that is never reset.
pub proof fn lemma_handout<T: Default + Reset>(spares: Seq<T>, r: T)
    requires
        refurbished(taken(spares), r),
    ensures
        spares.len() > 0 ==> call_ensures(reset_spare::<T>, (spares.last(),), r),
        spares.len() == 0 ==> call_ensures(T::default, (), r),
{
}

/// Turns what was taken off the free list into a value ready to be handed
/// out: a spare is reset exactly once, and a default value is constructed
/// when there was none (and is not reset).
pub fn refurbish<T: Default + Reset>(popped: Option<T>) -> (r: T)
    ensures
        refurbished(popped, r),
{
    match popped {
        Some(val) => reset_spare(val),
        None => T::default(),
    }
}

/// A checked-out value that goes back to the free list of its pool, exactly
/// once, when the handle is dropped: on whichever thread that happens. Where
/// the pool's lock has been poisoned the value is dropped instead: a drop
/// cannot report it, and the pool's own calls surface the poisoned lock.
#[verifier::reject_recursive_types(T)]
pub struct Recyclable<'a, T: 'a + Default + Reset> {
    val: Option<T>,
    landfill: &'a Mutex<FreeList<T>>,
}

impl<'a, T: Default + Reset> Recyclable<'a, T> {
    /// The handle still owns its value: it does until it is dropped.
    pub closed spec fn is_live(&self) -> bool {
        self.val is Some
    }

    /// The checked-out value.
    pub closed spec fn value(&self) -> T {
        self.val->0
    }

    /// The free list the value goes back to.
    pub closed spec fn home(&self) -> Mutex<FreeList<T>> {
        *self.landfill
    }

    /// Read access to the checked-out value.
    pub fn as_ref(&self) -> (r: &T)
        requires
            self.is_live(),
        ensures
            *r == self.value(),
    {
        self.val.as_ref().unwrap()
    }

    /// Write access to the checked-out value.
    pub fn as_mut(&mut self) -> (r: &mut T)
        requires
            old(self).is_live(),
        ensures
            *r == old(self).value(),
            final(self).value() == *final(r),
            final(self).is_live(),
            final(self).home() == old(self).home(),
    {
        self.val.as_mut().unwrap()
    }
}

impl<'a, T: Default + Reset> Recyclable<'a, T> {
    /// Takes the value out of the handle for manual management: it is then
    /// no longer returned on drop, and goes back only through `recycle`.
    pub fn into_inner(self) -> (r: T)
        requires
            self.is_live(),
        ensures
            r == self.value(),
    {
        let mut handle = self;
        let mut taken: Option<T> = None;
        std::mem::swap(&mut handle.val, &mut taken);
        taken.unwrap()
    }
}

impl<'a, T: Default + Reset> Drop for Recyclable<'a, T> {
    /// Gives the value back to the free list and leaves the handle empty,
    /// so that it cannot be given back twice. On a poisoned lock the value
    /// is dropped: a drop cannot report the error.
    fn drop(&mut self)
        ensures
            !final(self).is_live(),
        opens_invariants none
        no_unwind
    {
        let mut taken: Option<T> = None;
        std::mem::swap(&mut self.val, &mut taken);
        if let Some(val) = taken {
            match lock_landfill(self.landfill) {
                Ok(guard) => {
                    let mut guard = guard;
                    guarded(&mut guard).push(val);
                },
                Err(_) => {},
            }
        }
    }
}

/// A pool of reusable values of type `T`. `allocate` hands out values from
/// the free list, most recently returned first, or constructs new ones when
/// it is empty; dropped handles put their values back.
#[verifier::reject_recursive_types(T)]
pub struct Recycler<T: Default + Reset> {
    landfill: Mutex<FreeList<T>>,
}

impl<T: Default + Reset> Recycler<T> {
    /// The lock-guarded free list that this pool and its handles share.
    pub closed spec fn store(&self) -> Mutex<FreeList<T>> {
        self.landfill
    }

    /// Checks out a value: the most recently returned spare, reset, or a new
    /// one where there is none. The value is reset after the lock is
    /// released. A poisoned free list is surfaced as an error and not read.
    pub fn allocate(&self) -> (r: Result<Recyclable<'_, T>, PoolPoisoned>)
        ensures
            r matches Ok(h) ==> {
                &&& h.is_live()
                &&& h.home() == self.store()
                &&& exists|popped: Option<T>| refurbished(popped, h.value())
            },
    {
        let popped = {
            let mut guard = match lock_landfill(&self.landfill) {
                Ok(guard) => guard,
                Err(e) => return Err(e),
            };
            guarded(&mut guard).pop()
        };
        let val = refurbish(popped);
        let r = Recyclable { val: Some(val), landfill: &self.landfill };
        assert(refurbished(popped, r.value()));
        Ok(r)
    }

    /// Puts a value straight back on the free list, on top, without a
    /// handle. On a poisoned free list the value is dropped and the error is
    /// returned.
    pub fn recycle(&self, val: T) -> (r: Result<(), PoolPoisoned>) {
        let mut guard = match lock_landfill(&self.landfill) {
            Ok(guard) => guard,
            Err(e) => return Err(e),
        };
        guarded(&mut guard).push(val);
        Ok(())
    }

    /// The number of spare values on the free list, or the error where it
    /// is poisoned.
    pub fn spare_count(&self) -> (r: Result<usize, PoolPoisoned>) {
        let mut guard = match lock_landfill(&self.landfill) {
            Ok(guard) => guard,
            Err(e) => return Err(e),
        };
        Ok(guarded(&mut guard).len())
    }
}

impl<T: Default + Reset> Default for Recycler<T> {
    fn default() -> (r: Self) {
        Recycler { landfill: new_lock(FreeList::new()) }
    }
}

} // verus!
