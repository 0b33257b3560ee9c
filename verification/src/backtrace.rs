//! The fixed-capacity backtrace buffer, stored in a `heapless::Vec`.

use vstd::prelude::*;

use crate::location::Location;

verus! {

#[verifier::external_type_specification]
#[verifier::external_body]
#[verifier::reject_recursive_types(T)]
pub struct ExHeaplessVec<T, const N: usize>(heapless::Vec<T, N>);

/// At most `N` locations, most recent call first.
///
/// The view is the sequence of locations held, index 0 being the most recent;
/// it never grows past `N`. The `model` field carries that sequence in ghost
/// code; the trusted methods below keep it equal to the vector's contents.
pub struct Backtrace<const N: usize> {
    buf: heapless::Vec<Location, N>,
    model: Ghost<Seq<Location>>,
}

impl<const N: usize> View for Backtrace<N> {
    type V = Seq<Location>;

    closed spec fn view(&self) -> Seq<Location> {
        self.model@
    }
}

impl<const N: usize> Backtrace<N> {
    #[verifier::type_invariant]
    closed spec fn bounded(self) -> bool {
        self@.len() <= N
    }

    /// Relies on `heapless::Vec::new`: the vector starts empty. The contracts
    /// of the other trusted methods count on that.
    #[verifier::external_body]
    fn raw_vec_new() -> heapless::Vec<Location, N> {
        heapless::Vec::new()
    }

    /// Relies on `heapless::Vec::len` through its slice form.
    #[verifier::external_body]
    fn raw_len(&self) -> (n: usize)
        ensures
            n == self@.len(),
    {
        self.buf.len()
    }

    /// Relies on `heapless::Vec::is_full`: the length has reached `N`.
    #[verifier::external_body]
    fn raw_is_full(&self) -> (full: bool)
        ensures
            full == (self@.len() == N),
    {
        self.buf.is_full()
    }

    /// Relies on indexing the slice that `heapless::Vec` dereferences to.
    #[verifier::external_body]
    fn raw_get(&self, i: usize) -> (loc: &Location)
        requires
            i < self@.len(),
        ensures
            *loc == self@[i as int],
    {
        &self.buf[i]
    }

    /// Relies on `heapless::Vec::insert` at index 0: shifts the contents one
    /// place and fails, handing the element back, when the vector is full.
    #[verifier::external_body]
    fn raw_push_front(&mut self, loc: Location) -> (r: Result<(), Location>)
        ensures
            r is Ok <==> old(self)@.len() < N,
            old(self)@.len() < N ==> final(self)@ == old(self)@.insert(0, loc),
            old(self)@.len() >= N ==> final(self)@ == old(self)@ && (r matches Err(l) && l == loc),
    {
        self.buf.insert(0, loc)
    }

    /// Relies on `heapless::Vec::pop`: removes and returns the last element,
    /// or returns `None` when the vector is empty.
    #[verifier::external_body]
    fn raw_pop(&mut self) -> (r: Option<Location>)
        ensures
            old(self)@.len() == 0 ==> r is None && final(self)@ == old(self)@,
            old(self)@.len() > 0 ==> r == Some(old(self)@.last()) && final(self)@ == old(
                self,
            )@.drop_last(),
    {
        self.buf.pop()
    }

    /// An empty backtrace.
    pub fn new() -> (bt: Self)
        ensures
            bt@ == Seq::<Location>::empty(),
    {
        Backtrace { buf: Self::raw_vec_new(), model: Ghost(Seq::empty()) }
    }

    /// How many locations are recorded; never more than `N`.
    pub fn len(&self) -> (n: usize)
        ensures
            n == self@.len(),
            n <= N,
    {
        proof {
            use_type_invariant(&*self);
        }
        self.raw_len()
    }

    /// Whether the buffer has reached its capacity `N`.
    pub fn is_full(&self) -> (full: bool)
        ensures
            full == (self@.len() == N),
            self@.len() <= N,
    {
        proof {
            use_type_invariant(&*self);
        }
        self.raw_is_full()
    }

    /// The `i`-th recorded location, most recent call first.
    pub fn get(&self, i: usize) -> (loc: &Location)
        requires
            i < self@.len(),
        ensures
            *loc == self@[i as int],
    {
        self.raw_get(i)
    }

    /// Record `loc` as the most recent location; fails, handing it back,
    /// when the buffer is already full.
    pub fn push_front(&mut self, loc: Location) -> (r: Result<(), Location>)
        ensures
            old(self)@.len() < N ==> r is Ok && final(self)@ == seq![loc] + old(self)@,
            old(self)@.len() >= N ==> final(self)@ == old(self)@ && (r matches Err(l) && l == loc),
    {
        self.raw_push_front(loc)
    }

    /// Drop and return the oldest retained location, if any.
    pub fn pop(&mut self) -> (r: Option<Location>)
        ensures
            old(self)@.len() == 0 ==> r is None && final(self)@ == old(self)@,
            old(self)@.len() > 0 ==> r == Some(old(self)@.last()) && final(self)@ == old(
                self,
            )@.drop_last(),
    {
        self.raw_pop()
    }
}

} // verus!
