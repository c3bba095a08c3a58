//! Time, as nanoseconds since a fixed moment.
use std::time::Instant;
use vstd::prelude::*;

verus! {

/// `std::time::Instant`, of which nothing is known but which moment it is.
#[verifier::external_type_specification]
#[verifier::external_body]
pub struct ExInstant(std::time::Instant);

/// Reads the machine's monotonic clock. A reading is the number of nanoseconds that have passed
/// since the clock was started. The view is the list of the readings taken so far; it exists in
/// proofs alone.
pub(crate) struct Clock {
    origin: Instant,
    readings: Ghost<Seq<u128>>,
}

/// Calls `std::time::Instant::now`. Nothing is claimed of the moment that comes back.
#[verifier::external_body]
fn instant_now() -> (r: Instant)
{
    Instant::now()
}

impl View for Clock {
    type V = Seq<u128>;

    closed spec fn view(&self) -> Seq<u128> {
        self.readings@
    }
}

impl Clock {
    /// The moment that the readings count from.
    pub closed spec fn origin(&self) -> Instant {
        self.origin
    }

    /// A clock whose readings count from now on.
    pub(crate) fn start() -> (r: Self)
        ensures
            r@ == Seq::<u128>::empty(),
    {
        Clock { origin: instant_now(), readings: Ghost(Seq::empty()) }
    }

    /// Calls `std::time::Instant::elapsed` on the clock's origin and gives the time that has passed
    /// as a number of nanoseconds. The contract claims that this is one more reading of the same
    /// clock, and that it is not below the last one: the clock that `Instant` measures by never goes
    /// back. How much time has passed is left unsaid.
    #[verifier::external_body]
    pub(crate) fn now(&mut self) -> (r: u128)
        ensures
            final(self).origin() == old(self).origin(),
            final(self)@ == old(self)@.push(r),
            old(self)@.len() > 0 ==> r >= old(self)@.last(),
    {
        self.origin.elapsed().as_nanos()
    }
}

} // verus!
