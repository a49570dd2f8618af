//! The bus transport boundary: byte-level register reads and writes over a
//! two-wire addressed bus, 7-bit device address plus 8-bit register address.
//!
//! The trait carries a ghost history of the transactions a bus has
//! performed, so that the driver's contracts can say exactly which
//! registers were touched, in what order, and with what outcome. A platform
//! supplies the real bus; [`crate::sim::SimBus`] is a scripted in-memory
//! implementation for running the driver without hardware.

use vstd::prelude::*;

verus! {

/// A register transaction failed: no acknowledgment from the device,
/// arbitration loss, or a transport-level timeout.
#[derive(Clone, Copy, Debug, PartialEq, Eq, Structural)]
pub struct BusError;

/// One register transaction, as recorded in a bus's ghost history.
pub enum Transaction {
    /// A single-byte register write; `acked` is false when the device did
    /// not acknowledge it.
    Write { addr: u8, reg: u8, value: u8, acked: bool },
    /// A multi-byte register read starting at `reg`; `data` is `None` when
    /// the transport failed.
    Read { addr: u8, reg: u8, data: Option<Seq<u8>> },
}

/// Byte-level access to device registers. Implementations perform one bus
/// transaction per call and append it to their ghost history; nothing is
/// promised about the bytes a device hands back or about which
/// transactions succeed.
pub trait BusTransport: Sized {
    /// The transactions this bus has performed, oldest first. The default
    /// is unusable — a bus that performs transactions cannot keep an empty
    /// history — so a verified implementation must supply its own.
    open spec fn history(&self) -> Seq<Transaction> {
        Seq::empty()
    }

    /// Write one byte to a device register.
    fn write_register(&mut self, addr: u8, reg: u8, value: u8) -> (r: Result<(), BusError>)
        ensures
            final(self).history() == old(self).history().push(
                Transaction::Write { addr, reg, value, acked: r is Ok },
            ),
    ;

    /// Read `len` consecutive bytes starting at a device register.
    fn read_register(&mut self, addr: u8, reg: u8, len: usize) -> (r: Result<Vec<u8>, BusError>)
        ensures
            r matches Ok(b) ==> b@.len() == len && final(self).history() == old(
                self,
            ).history().push(Transaction::Read { addr, reg, data: Some(b@) }),
            r is Err ==> final(self).history() == old(self).history().push(
                Transaction::Read { addr, reg, data: None },
            ),
    ;
}

} // verus!
