use vstd::prelude::*;

verus! {

/// Largest value a 20-bit quantity can hold.
pub const U20_MAX: u32 = 0xF_FFFF;

/// An unsigned 20-bit integer, as carried by the 8088's address lines.
#[allow(non_camel_case_types)]
#[derive(Debug)]
pub struct u20 {
    val: u32,
}

impl View for u20 {
    type V = u32;

    closed spec fn view(&self) -> u32 {
        self.val
    }
}

impl u20 {
    /// The invariant of the type: the value fits in 20 bits.
    pub closed spec fn wf(&self) -> bool {
        self.val <= U20_MAX
    }

    pub fn new(val: u32) -> (r: Self)
        requires
            val <= U20_MAX,
        ensures
            r.wf(),
            r@ == val,
    {
        u20 { val }
    }

    pub fn get(&self) -> (r: u32)
        ensures
            r == self@,
            self.wf() ==> r <= U20_MAX,
    {
        self.val
    }

    pub fn set(&mut self, val: u32)
        requires
            val <= U20_MAX,
        ensures
            final(self).wf(),
            final(self)@ == val,
    {
        self.val = val;
    }
}

} // verus!
