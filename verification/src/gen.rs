//! The reuse counter attached to every slot.

use vstd::prelude::*;

verus! {

/// The generation that follows `g`: one more, except that the largest value
/// is followed by 1, so that zero is never reached.
pub open spec fn next_gen(g: u32) -> u32 {
    if g == u32::MAX {
        1
    } else {
        (g + 1) as u32
    }
}

/// The generation that is reached from `g` in `steps` steps.
pub open spec fn gen_after(g: u32, steps: nat) -> u32
    decreases steps,
{
    if steps == 0 {
        g
    } else {
        next_gen(gen_after(g, (steps - 1) as nat))
    }
}

/// No step leads to zero, and a step from any generation but the largest
/// leads to a larger one.
pub proof fn next_gen_ascends(g: u32)
    ensures
        next_gen(g) != 0,
        g < u32::MAX ==> next_gen(g) == g + 1,
        g == u32::MAX ==> next_gen(g) == 1,
{
}

/// The generations run in a circle of length 2^32 - 1 that leaves out zero:
/// after `steps` steps, a generation has moved on by that many places on
/// the circle.
pub proof fn generations_cycle(g: u32, steps: nat)
    requires
        g != 0,
    ensures
        gen_after(g, steps) != 0,
        gen_after(g, steps) == (g - 1 + steps) % 0xffff_ffff + 1,
    decreases steps,
{
    if steps > 0 {
        generations_cycle(g, (steps - 1) as nat);
    }
}

/// After 2^32 - 1 steps a generation is back where it started.
pub proof fn generations_return(g: u32)
    requires
        g != 0,
    ensures
        gen_after(g, 0xffff_ffff) == g,
{
    generations_cycle(g, 0xffff_ffff);
}

/// A reuse counter. It is never zero.
#[derive(Debug, Clone, Copy, PartialEq, Eq, PartialOrd, Ord, Hash, Structural)]
pub struct Gen(u32);

impl View for Gen {
    type V = u32;

    closed spec fn view(&self) -> u32 {
        self.0
    }
}

impl Gen {
    /// How many bits a generation takes.
    pub const SIZE_IN_BITS: u32 = 32;

    /// The bits of a 64-bit word in which a generation fits.
    pub const MASK: u64 = 0xffff_ffff;

    #[verifier::type_invariant]
    spec fn nonzero(self) -> bool {
        self.0 != 0
    }

    /// Two generations with the same value are the same.
    pub proof fn view_injective(a: Gen, b: Gen)
        requires
            a@ == b@,
        ensures
            a == b,
    {
    }

    /// The generation with the given value, or nothing for zero.
    pub fn new(gen: u32) -> (r: Option<Gen>)
        ensures
            gen == 0 <==> r is None,
            r matches Some(g) ==> g@ == gen,
    {
        if gen == 0 {
            None
        } else {
            Some(Gen(gen))
        }
    }

    /// The counter's value.
    pub fn get(&self) -> (r: u32)
        ensures
            r == self@,
            r != 0,
    {
        proof {
            use_type_invariant(self);
        }
        self.0
    }

    /// The counter's value as the low half of a 64-bit word.
    pub fn get_bits(&self) -> (r: u64)
        ensures
            r == self@,
            r != 0,
    {
        self.get() as u64
    }

    /// The generation after this one.
    pub fn next(&self) -> (r: Gen)
        ensures
            r@ == next_gen(self@),
            r@ != 0,
            self@ < u32::MAX ==> r@ == self@ + 1,
            self@ == u32::MAX ==> r@ == 1,
    {
        let gen = self.0.wrapping_add(1);
        match Gen::new(gen) {
            Some(g) => g,
            None => Gen::default(),
        }
    }
}

impl Default for Gen {
    /// The first generation of every slot.
    fn default() -> (r: Gen)
        ensures
            r@ == 1,
    {
        Gen(1)
    }
}

} // verus!
