//! Writes to the registers of the chips on the I2C bus.

use vstd::prelude::*;

verus! {

/// A write of up to three bytes, the first of which is the register.
#[derive(Clone, Copy, PartialEq, Eq, Debug)]
pub struct Write {
    pub addr: u8,
    pub len: u8,
    pub bytes: [u8; 3],
}

impl Write {
    pub open spec fn wf(self) -> bool {
        self.len <= 3
    }

    /// The bytes that are written.
    pub open spec fn data(self) -> Seq<u8> {
        self.bytes@.take(self.len as int)
    }

    pub fn payload(&self) -> (r: &[u8])
        requires
            self.wf(),
        ensures
            r@ == self.data(),
    {
        vstd::slice::slice_subrange(self.bytes.as_slice(), 0, self.len as usize)
    }

    /// A write of one byte to a register.
    pub(crate) fn byte(addr: u8, register: u8, value: u8) -> (r: Write)
        ensures
            r.wf(),
            r.addr == addr,
            r.data() == seq![register, value],
    {
        let r = Write { addr, len: 2, bytes: [register, value, 0] };
        assert(r.data() =~= seq![register, value]);
        r
    }

    /// A write of two bytes to a register and the one behind it.
    pub(crate) fn pair(addr: u8, register: u8, first: u8, second: u8) -> (r: Write)
        ensures
            r.wf(),
            r.addr == addr,
            r.data() == seq![register, first, second],
    {
        let r = Write { addr, len: 3, bytes: [register, first, second] };
        assert(r.data() =~= seq![register, first, second]);
        r
    }
}

} // verus!
