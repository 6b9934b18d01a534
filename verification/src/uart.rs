//! The device model and the byte emitter.
//!
//! A [`Uart`] stands for a transmitter whose data register sits at a fixed
//! address. Nothing here touches memory: the value records, in issue order,
//! the stores that the hardware is to receive, and whoever owns the bus
//! performs them as volatile writes.

use vstd::prelude::*;

verus! {

/// Distance from the base address to the line-status register. The transmit
/// path never reads or writes that register.
pub const LINE_STATUS_OFFSET: usize = 5;

/// Bit of the line-status register that reports an empty transmitter.
pub const LINE_STATUS_EMPTY: u8 = 0x40;

/// One byte-wide store to a device register.
#[derive(Clone, Copy, Debug, PartialEq, Eq, Structural)]
pub struct Store {
    pub addr: usize,
    pub value: u8,
}

/// A transmitter together with the stores issued to it so far.
#[derive(Debug)]
pub struct Uart {
    base: usize,
    issued: Vec<Store>,
}

impl View for Uart {
    type V = Seq<Store>;

    /// The stores issued so far, oldest first.
    closed spec fn view(&self) -> Seq<Store> {
        self.issued@
    }
}

impl Uart {
    /// Address of the transmit register.
    pub closed spec fn tx(&self) -> usize {
        self.base
    }

    /// A transmitter at `base` to which nothing has been issued.
    pub fn new(base: usize) -> (uart: Uart)
        ensures
            uart.tx() == base,
            uart@ == Seq::<Store>::empty(),
    {
        Uart { base, issued: Vec::new() }
    }

    /// Address of the transmit register.
    pub fn tx_addr(&self) -> (addr: usize)
        ensures
            addr == self.tx(),
    {
        self.base
    }

    /// The stores issued so far, oldest first, for whoever performs them.
    pub fn stores(&self) -> (out: &[Store])
        ensures
            out@ == self@,
    {
        self.issued.as_slice()
    }

    /// The byte stream issued so far: the value of each store, oldest first.
    pub fn sent(&self) -> (out: Vec<u8>)
        ensures
            out@ == payload(self@),
    {
        let mut out: Vec<u8> = Vec::new();
        let mut i: usize = 0;
        while i < self.issued.len()
            invariant
                i <= self.issued@.len(),
                out@ == payload(self.issued@.take(i as int)),
            decreases self.issued@.len() - i,
        {
            out.push(self.issued[i].value);
            i += 1;
            assert(out@ =~= payload(self.issued@.take(i as int)));
        }
        assert(self.issued@.take(i as int) =~= self.issued@);
        out
    }
}

/// The values of `stores`, in order.
pub open spec fn payload(stores: Seq<Store>) -> Seq<u8> {
    Seq::new(stores.len(), |i: int| stores[i].value)
}

/// Issues one store of `c` to the transmit register.
///
/// All 256 values are legal. The transmitter's readiness is not consulted.
pub fn putc(uart: &mut Uart, c: u8)
    ensures
        final(uart).tx() == old(uart).tx(),
        final(uart)@ == old(uart)@.push(Store { addr: old(uart).tx(), value: c }),
{
    uart.issued.push(Store { addr: uart.base, value: c });
}

} // verus!
