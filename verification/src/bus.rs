//! The bus transport abstraction and an in-memory register store.
//!
//! The driver talks to the chip through the [`Bus`] trait: one blocking
//! write transaction, or one blocking write-then-read transaction, per call.
//! The trait's contract describes each transaction's effect on the chip's
//! sixteen-byte register file, so everything the driver proves holds of any
//! transport that honours the chip's register protocol. [`RegisterStore`]
//! is a complete, verified implementation backed by plain memory.

use vstd::prelude::*;
use vstd::slice::slice_to_vec;
use crate::DEVICE_ADDRESS;

verus! {

/// The register file after one burst write: byte 0 of the payload selects
/// the start register, and each following byte lands in the next register.
pub open spec fn burst_written(regs: Seq<u8>, payload: Seq<u8>) -> Seq<u8> {
    let start = payload[0] as int;
    Seq::new(
        regs.len(),
        |i: int|
            if start <= i && i < start + payload.len() - 1 {
                payload[i - start + 1]
            } else {
                regs[i]
            },
    )
}

/// A blocking connection to the chip: the capability to issue one write or
/// one write-then-read transaction at a time, addressed to the chip's fixed
/// bus address. The driver is polymorphic over any transport with this
/// contract; [`RegisterStore`] provides it in memory.
pub trait Bus: Sized {
    /// The transport's own error type, surfaced verbatim by the driver.
    type Fault;

    /// The chip's sixteen-byte register file as visible through this
    /// transport. An implementation that does not model the registers may
    /// leave the default, an empty file, of which the contracts below claim
    /// nothing.
    open spec fn regs(&self) -> Seq<u8> {
        Seq::empty()
    }

    /// How many write transactions have been issued over this transport.
    open spec fn nwrites(&self) -> nat {
        0
    }

    /// Issue one write transaction of `bytes`: byte 0 selects the start
    /// register, the remaining bytes land in consecutive registers. On
    /// failure the register file is left however the transport left it.
    fn write(&mut self, addr: u8, bytes: &[u8]) -> (r: Result<(), Self::Fault>)
        requires
            old(self).regs().len() == 16,
            addr == DEVICE_ADDRESS,
            2 <= bytes@.len() <= 17,
            bytes@[0] as int + bytes@.len() <= 17,
        ensures
            final(self).regs().len() == 16,
            old(self).nwrites() <= final(self).nwrites() <= old(self).nwrites() + 1,
            r is Ok ==> final(self).nwrites() == old(self).nwrites() + 1,
            r is Ok ==> final(self).regs() == burst_written(old(self).regs(), bytes@),
    ;

    /// Issue one write-then-read transaction: write the register pointer
    /// `reg`, then read `n` bytes back from consecutive registers. Reading
    /// never alters the register file.
    fn write_read(&mut self, addr: u8, reg: u8, n: usize) -> (r: Result<Vec<u8>, Self::Fault>)
        requires
            old(self).regs().len() == 16,
            addr == DEVICE_ADDRESS,
            1 <= n,
            reg as int + n <= 16,
        ensures
            final(self).regs() == old(self).regs(),
            final(self).nwrites() == old(self).nwrites(),
            r matches Ok(v) ==> v@ == old(self).regs().subrange(reg as int, reg as int + n),
    ;
}

/// The error type of [`RegisterStore`]: a transaction against plain memory
/// cannot fail, so no value of this type is ever produced.
#[derive(Debug, Clone, Copy, PartialEq, Eq)]
pub struct NoFault;

/// An in-memory register store: a verified [`Bus`] implementation holding
/// the chip's sixteen registers as plain bytes. Burst writes land in
/// consecutive registers and reads return the stored bytes, so a driver
/// stacked on top behaves as it would against the chip. Every write
/// transaction is recorded payload by payload, so the exact bus traffic of
/// an operation can be inspected afterwards.
pub struct RegisterStore {
    /// The sixteen registers.
    pub regs: Vec<u8>,
    /// Every write transaction issued so far, each with its full payload.
    pub writes: Vec<Vec<u8>>,
}

impl RegisterStore {
    /// A fresh store: all registers zero, no writes recorded.
    pub fn new() -> (r: RegisterStore)
        ensures
            r.regs@.len() == 16,
            forall|i: int| 0 <= i < 16 ==> r.regs@[i] == 0u8,
            r.writes@.len() == 0,
    {
        let mut regs: Vec<u8> = Vec::new();
        let mut i: usize = 0;
        while i < 16
            invariant
                i <= 16,
                regs@.len() == i,
                forall|j: int| 0 <= j < i ==> regs@[j] == 0u8,
            decreases 16 - i,
        {
            regs.push(0);
            i += 1;
        }
        RegisterStore { regs, writes: Vec::new() }
    }

    /// A store whose registers start out at the given sixteen values.
    pub fn with_registers(regs: Vec<u8>) -> (r: RegisterStore)
        requires
            regs@.len() == 16,
        ensures
            r.regs@ == regs@,
            r.writes@.len() == 0,
    {
        RegisterStore { regs, writes: Vec::new() }
    }
}

impl Bus for RegisterStore {
    type Fault = NoFault;

    open spec fn regs(&self) -> Seq<u8> {
        self.regs@
    }

    open spec fn nwrites(&self) -> nat {
        self.writes@.len()
    }

    fn write(&mut self, addr: u8, bytes: &[u8]) -> (r: Result<(), NoFault>) {
        let data: Vec<u8> = slice_to_vec(bytes);
        let start: usize = data[0] as usize;
        let ghost orig = *self;
        let mut i: usize = 1;
        while i < data.len()
            invariant
                1 <= i <= data@.len(),
                2 <= data@.len() <= 17,
                start == data@[0] as int,
                start + data@.len() <= 17,
                data@ == bytes@,
                self.regs@.len() == 16,
                self.writes == orig.writes,
                forall|j: int|
                    0 <= j < 16 ==> self.regs@[j] == (if start <= j && j < start + i - 1 {
                        data@[j - start + 1]
                    } else {
                        orig.regs@[j]
                    }),
            decreases data@.len() - i,
        {
            let v = data[i];
            self.regs[start + i - 1] = v;
            i += 1;
        }
        self.writes.push(data);
        proof {
            assert(self.regs@ =~= burst_written(orig.regs@, bytes@));
        }
        Ok(())
    }

    fn write_read(&mut self, addr: u8, reg: u8, n: usize) -> (r: Result<Vec<u8>, NoFault>) {
        let mut out: Vec<u8> = Vec::new();
        let mut i: usize = 0;
        while i < n
            invariant
                i <= n,
                reg as int + n <= 16,
                self.regs@.len() == 16,
                out@.len() == i,
                forall|j: int| 0 <= j < i ==> out@[j] == self.regs@[reg as int + j],
            decreases n - i,
        {
            let v = self.regs[reg as usize + i];
            out.push(v);
            i += 1;
        }
        proof {
            assert(out@ =~= self.regs@.subrange(reg as int, reg as int + n));
        }
        Ok(out)
    }
}

} // verus!
