//! A scripted in-memory bus, for driving the sensor logic without
//! hardware: each transaction consumes the next scripted reply. A reply of
//! the wrong kind for the transaction, a byte reply of the wrong length,
//! or an exhausted script fails the transaction, so every script yields
//! some behaviour the transport contract allows.

use vstd::prelude::*;
use crate::bus::{BusError, BusTransport, Transaction};

verus! {

/// One scripted reply.
pub enum SimReply {
    /// Acknowledge a register write.
    Ack,
    /// Refuse a register write.
    Nack,
    /// Answer a register read with these bytes.
    Bytes(Vec<u8>),
    /// Fail a register read at the transport.
    ReadFail,
}

/// The scripted bus: replies are consumed front to back. Every attempted
/// register write is also recorded in an ordinary vector, so the exact
/// bytes the driver put on the bus can be inspected at run time.
pub struct SimBus {
    script: Vec<SimReply>,
    next: usize,
    writes: Vec<(u8, u8, u8)>,
    performed: Ghost<Seq<Transaction>>,
}

impl SimBus {
    /// The register writes attempted so far, as (address, register, value).
    pub closed spec fn spec_write_log(&self) -> Seq<(u8, u8, u8)> {
        self.writes@
    }

    /// The register writes attempted so far, acknowledged or not, as
    /// (address, register, value) in order.
    pub fn write_log(&self) -> (r: &Vec<(u8, u8, u8)>)
        ensures
            r@ == self.spec_write_log(),
    {
        &self.writes
    }

    /// How many scripted replies have not been consumed yet.
    pub closed spec fn spec_replies_left(&self) -> int {
        if self.next <= self.script@.len() {
            self.script@.len() - self.next
        } else {
            0
        }
    }

    /// A fresh bus with the given script and an empty history.
    pub fn new(script: Vec<SimReply>) -> (r: SimBus)
        ensures
            r.history() == Seq::<Transaction>::empty(),
            r.spec_replies_left() == script@.len(),
            r.spec_write_log() == Seq::<(u8, u8, u8)>::empty(),
    {
        SimBus { script, next: 0, writes: Vec::new(), performed: Ghost(Seq::empty()) }
    }

    /// How many scripted replies are still unconsumed; each transaction
    /// performed so far consumed at most one.
    pub fn replies_left(&self) -> (r: usize)
        ensures
            r == self.spec_replies_left(),
    {
        if self.next <= self.script.len() {
            self.script.len() - self.next
        } else {
            0
        }
    }
}

/// Copy the contents of a byte vector.
fn copy_bytes(v: &Vec<u8>) -> (r: Vec<u8>)
    ensures
        r@ == v@,
{
    let mut out: Vec<u8> = Vec::new();
    let mut j: usize = 0;
    while j < v.len()
        invariant
            j <= v@.len(),
            out@ == v@.take(j as int),
        decreases v@.len() - j,
    {
        out.push(v[j]);
        j = j + 1;
        proof {
            assert(out@ =~= v@.take(j as int));
        }
    }
    proof {
        assert(out@ =~= v@);
    }
    out
}

impl BusTransport for SimBus {
    closed spec fn history(&self) -> Seq<Transaction> {
        self.performed@
    }

    fn write_register(&mut self, addr: u8, reg: u8, value: u8) -> (r: Result<(), BusError>)
        ensures
            final(self).spec_write_log() == old(self).spec_write_log().push((addr, reg, value)),
    {
        self.writes.push((addr, reg, value));
        let mut acked = false;
        if self.next < self.script.len() {
            match &self.script[self.next] {
                SimReply::Ack => {
                    acked = true;
                }
                _ => {}
            }
            self.next = self.next + 1;
        }
        self.performed = Ghost(
            self.performed@.push(Transaction::Write { addr, reg, value, acked }),
        );
        if acked {
            Ok(())
        } else {
            Err(BusError)
        }
    }

    fn read_register(&mut self, addr: u8, reg: u8, len: usize) -> (r: Result<Vec<u8>, BusError>)
        ensures
            final(self).spec_write_log() == old(self).spec_write_log(),
    {
        let mut data: Option<Vec<u8>> = None;
        if self.next < self.script.len() {
            match &self.script[self.next] {
                SimReply::Bytes(v) => {
                    if v.len() == len {
                        data = Some(copy_bytes(v));
                    }
                }
                _ => {}
            }
            self.next = self.next + 1;
        }
        match data {
            Some(b) => {
                self.performed = Ghost(
                    self.performed@.push(Transaction::Read { addr, reg, data: Some(b@) }),
                );
                Ok(b)
            }
            None => {
                self.performed = Ghost(
                    self.performed@.push(Transaction::Read { addr, reg, data: None }),
                );
                Err(BusError)
            }
        }
    }
}

} // verus!
