use vstd::prelude::*;

verus! {

/// The contents after a value is returned: it goes on top.
pub open spec fn returned<T>(spares: Seq<T>, val: T) -> Seq<T> {
    spares.push(val)
}

/// The contents after one value is taken: the top one, where there is one.
pub open spec fn after_take<T>(spares: Seq<T>) -> Seq<T> {
    if spares.len() == 0 {
        spares
    } else {
        spares.drop_last()
    }
}

/// The value that a take hands out: the most recently returned one.
pub open spec fn taken<T>(spares: Seq<T>) -> Option<T> {
    if spares.len() == 0 {
        None
    } else {
        Some(spares.last())
    }
}

/// Taking a value and then returning one leaves the number of spares as it
/// was, where there was a spare to take; on an empty list the value returned
/// was newly constructed, and the list grows by one. The count never goes
/// below zero.
pub proof fn lemma_take_return_keeps_size<T>(spares: Seq<T>, val: T)
    ensures
        spares.len() > 0 ==> returned(after_take(spares), val).len() == spares.len(),
        spares.len() == 0 ==> returned(after_take(spares), val).len() == 1,
        after_take(spares).len() >= spares.len() - 1,
{
}

/// Any run of take-then-return pairs, each taking a spare that was there,
/// ends with as many spares as it began with.
pub proof fn lemma_pairs_keep_size<T>(spares: Seq<T>, vals: Seq<T>)
    requires
        spares.len() > 0,
    ensures
        pairs(spares, vals).len() == spares.len(),
    decreases vals.len(),
{
    if vals.len() > 0 {
        lemma_pairs_keep_size(returned(after_take(spares), vals[0]), vals.drop_first());
    }
}

/// The contents after taking a value and returning the next of `vals`, once
/// for each of them in turn.
pub open spec fn pairs<T>(spares: Seq<T>, vals: Seq<T>) -> Seq<T>
    decreases vals.len(),
{
    if vals.len() == 0 {
        spares
    } else {
        pairs(returned(after_take(spares), vals[0]), vals.drop_first())
    }
}

/// After `a` and then `b` are returned, the next two takes hand out `b` and
/// then `a`, and leave the list as it was before.
pub proof fn lemma_last_in_first_out<T>(spares: Seq<T>, a: T, b: T)
    ensures
        taken(returned(returned(spares, a), b)) == Some(b),
        taken(after_take(returned(returned(spares, a), b))) == Some(a),
        after_take(after_take(returned(returned(spares, a), b))) == spares,
{
    assert(returned(returned(spares, a), b).drop_last() == returned(spares, a));
    assert(returned(spares, a).drop_last() == spares);
}

/// Relies on `Vec::push`: appends the value at the end. Stated as not
/// unwinding, as a handle's drop needs: the push panics only where the
/// vector's capacity would exceed `isize::MAX` bytes.
#[verifier::external_body]
fn push_spare<T>(spares: &mut Vec<T>, val: T)
    ensures
        final(spares)@ == old(spares)@.push(val),
    opens_invariants none
    no_unwind
{
    spares.push(val);
}

/// A pool's store of spare values, used last in, first out.
pub struct FreeList<T> {
    spares: Vec<T>,
}

impl<T> View for FreeList<T> {
    type V = Seq<T>;

    closed spec fn view(&self) -> Seq<T> {
        self.spares@
    }
}

impl<T> FreeList<T> {
    /// An empty free list.
    pub fn new() -> (r: Self)
        ensures
            r@ == Seq::<T>::empty(),
    {
        FreeList { spares: Vec::new() }
    }

    /// The number of spare values.
    pub fn len(&self) -> (r: usize)
        ensures
            r == self@.len(),
    {
        self.spares.len()
    }

    /// Returns a value to the list, on top of the others.
    pub fn push(&mut self, val: T)
        ensures
            final(self)@ == returned(old(self)@, val),
        opens_invariants none
        no_unwind
    {
        push_spare(&mut self.spares, val);
    }

    /// Takes the most recently returned value, or `None` when the list is
    /// empty.
    pub fn pop(&mut self) -> (r: Option<T>)
        ensures
            r == taken(old(self)@),
            final(self)@ == after_take(old(self)@),
    {
        self.spares.pop()
    }
}

} // verus!
