use vstd::prelude::*;

use rand::rngs::ThreadRng;
use rand::Rng;

verus! {

#[verifier::external_type_specification]
#[verifier::external_body]
pub struct ExThreadRng(ThreadRng);

/// Calls `rand::thread_rng`, which hands out this thread's random number
/// generator. Nothing is claimed of the generator.
#[verifier::external_body]
fn thread_rng() -> ThreadRng {
    rand::thread_rng()
}

/// Calls `Rng::gen_range` on the half-open range `low..high`. The crate
/// documents a value drawn from that range, and a panic on an empty range,
/// which `requires` rules out. Which value comes is left open.
#[verifier::external_body]
fn gen_range(rng: &mut ThreadRng, low: i32, high: i32) -> (res: i32)
    requires
        low < high,
    ensures
        low <= res < high,
{
    rng.gen_range(low..high)
}

/// This thread's random number generator, with the record of every value
/// drawn from it through `draw`, in order.
pub struct Draws {
    rng: ThreadRng,
    taken: Ghost<Seq<i32>>,
}

impl Draws {
    /// The values drawn so far, in order.
    pub closed spec fn taken(&self) -> Seq<i32> {
        self.taken@
    }

    /// The thread's generator, with nothing drawn yet.
    pub fn new() -> (res: Self)
        ensures
            res.taken() == Seq::<i32>::empty(),
    {
        Draws { rng: thread_rng(), taken: Ghost(Seq::empty()) }
    }

    /// Draws a value from `low..high` and records it.
    pub fn draw(&mut self, low: i32, high: i32) -> (res: i32)
        requires
            low < high,
        ensures
            low <= res < high,
            final(self).taken() == old(self).taken().push(res),
    {
        let res: i32 = gen_range(&mut self.rng, low, high);
        self.taken = Ghost(self.taken@.push(res));
        res
    }
}

} // verus!
