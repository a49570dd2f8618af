//! The LIS2MDL sensor driver: initialization into a known operating
//! configuration, the chip-identity read, and the magnetometer and
//! temperature data reads.
//!
//! Every operation's contract pins the exact bus transactions performed —
//! register addresses, written bit patterns, read lengths — and ties the
//! returned value to the bytes the device handed back in that same call.

use vstd::prelude::*;
use crate::bus::{BusTransport, Transaction};
use crate::convert::{decode_mag_frame, i16_from_le, spec_i16_from_le, spec_mag_frame};
use crate::odr::{cfg_reg_a_value, lemma_odr_roundtrip, spec_cfg_reg_a_value, spec_odr_field,
    spec_odr_of_bits, OutputDataRate};
use crate::regs::{BDU, CFG_REG_A, CFG_REG_B, CFG_REG_C, OFF_CANC, OUTX_L_REG, STATUS_REG,
    TEMP_OUT_L_REG, WHO_AM_I, ZYXDA};

verus! {

/// What can go wrong in a driver operation.
#[derive(Clone, Copy, Debug, PartialEq, Eq, Structural)]
pub enum Error {
    /// A register transaction failed at the transport.
    Bus,
    /// The device signalled that no new sample is available.
    DataNotReady,
    /// The chip identity read from the device is not the LIS2MDL constant.
    IdentityMismatch,
}

/// A failed construction: the error, with the bus handed back so a caller
/// can inspect or reuse the channel.
pub struct InitFailure<B> {
    pub bus: B,
    pub error: Error,
}

/// An exclusively owned LIS2MDL device handle: the bus channel, the
/// configured 7-bit device address, and the active output data rate.
pub struct Lis2mdl<B: BusTransport> {
    bus: B,
    addr: u8,
    odr: OutputDataRate,
}

/// Register and value of the `i`-th initialization write: CFG_REG_A gets
/// temperature compensation, the rate and continuous mode; CFG_REG_B gets
/// offset cancellation; CFG_REG_C gets block data update.
pub open spec fn init_register_value(odr: OutputDataRate, i: int) -> (u8, u8) {
    if i == 0 {
        (CFG_REG_A, spec_cfg_reg_a_value(odr))
    } else if i == 1 {
        (CFG_REG_B, OFF_CANC)
    } else {
        (CFG_REG_C, BDU)
    }
}

/// The `i`-th initialization write as a bus transaction.
pub open spec fn init_write(addr: u8, odr: OutputDataRate, i: int, acked: bool) -> Transaction {
    Transaction::Write {
        addr,
        reg: init_register_value(odr, i).0,
        value: init_register_value(odr, i).1,
        acked,
    }
}

/// The three acknowledged writes of a successful initialization, in order.
pub open spec fn init_transactions(addr: u8, odr: OutputDataRate) -> Seq<Transaction> {
    seq![
        init_write(addr, odr, 0, true),
        init_write(addr, odr, 1, true),
        init_write(addr, odr, 2, true),
    ]
}

/// A successful one-byte read of the status register.
pub open spec fn status_read(addr: u8, status: u8) -> Transaction {
    Transaction::Read { addr, reg: STATUS_REG, data: Some(seq![status]) }
}

/// The status register reports a new X/Y/Z sample.
pub open spec fn spec_data_ready(status: u8) -> bool {
    status & ZYXDA != 0
}

/// Everything a magnetometer read can do: exactly one of a failed status
/// read, a status read showing no fresh sample, a failed data read after a
/// ready status, or a six-byte data read whose little-endian two's-complement
/// decode is the returned sample.
pub open spec fn mag_read_outcome(
    addr: u8,
    pre: Seq<Transaction>,
    post: Seq<Transaction>,
    r: Result<(i16, i16, i16), Error>,
) -> bool {
    ||| (post == pre.push(Transaction::Read { addr, reg: STATUS_REG, data: None })
        && r == Err::<(i16, i16, i16), Error>(Error::Bus))
    ||| (exists|s: u8|
        !spec_data_ready(s) && post == pre.push(#[trigger] status_read(addr, s))
            && r == Err::<(i16, i16, i16), Error>(Error::DataNotReady))
    ||| (exists|s: u8|
        spec_data_ready(s) && post == pre.push(#[trigger] status_read(addr, s)).push(
            Transaction::Read { addr, reg: OUTX_L_REG, data: None },
        ) && r == Err::<(i16, i16, i16), Error>(Error::Bus))
    ||| (exists|s: u8, b: Seq<u8>|
        spec_data_ready(s) && #[trigger] b.len() == 6 && post == pre.push(
            #[trigger] status_read(addr, s),
        ).push(
            Transaction::Read { addr, reg: OUTX_L_REG, data: Some(b) },
        ) && (r matches Ok(v) && v.0 == spec_mag_frame(b).0 && v.1 == spec_mag_frame(b).1
            && v.2 == spec_mag_frame(b).2))
}

/// Everything a temperature read can do: a failed transport read, or a
/// two-byte register-pair read whose little-endian two's-complement decode
/// is the returned raw count.
pub open spec fn temp_read_outcome(
    addr: u8,
    pre: Seq<Transaction>,
    post: Seq<Transaction>,
    r: Result<i16, Error>,
) -> bool {
    ||| (post == pre.push(Transaction::Read { addr, reg: TEMP_OUT_L_REG, data: None })
        && r == Err::<i16, Error>(Error::Bus))
    ||| (exists|b: Seq<u8>|
        #[trigger] b.len() == 2 && post == pre.push(
            Transaction::Read { addr, reg: TEMP_OUT_L_REG, data: Some(b) },
        ) && (r matches Ok(t) && t == spec_i16_from_le(b[0], b[1])))
}

impl<B: BusTransport> Lis2mdl<B> {
    /// The transactions performed so far on the owned bus channel.
    pub closed spec fn bus_history(&self) -> Seq<Transaction> {
        self.bus.history()
    }

    /// The configured 7-bit device address.
    pub closed spec fn address(&self) -> u8 {
        self.addr
    }

    /// The active output data rate.
    pub closed spec fn rate(&self) -> OutputDataRate {
        self.odr
    }

    /// Take exclusive ownership of the bus and put the device into
    /// continuous-conversion mode at the requested rate, with temperature
    /// compensation, offset cancellation and block data update enabled.
    /// On the first unacknowledged write the construction stops — no
    /// further register is touched — and the bus comes back in the error.
    pub fn new(bus: B, addr: u8, odr: OutputDataRate) -> (r: Result<Self, InitFailure<B>>)
        ensures
            r matches Ok(d) ==> d.address() == addr && d.rate() == odr && d.bus_history()
                == bus.history() + init_transactions(addr, odr),
            r matches Err(f) ==> f.error == Error::Bus && (
                f.bus.history() == bus.history().push(init_write(addr, odr, 0, false))
                || f.bus.history() == bus.history() + seq![
                    init_write(addr, odr, 0, true),
                    init_write(addr, odr, 1, false),
                ]
                || f.bus.history() == bus.history() + seq![
                    init_write(addr, odr, 0, true),
                    init_write(addr, odr, 1, true),
                    init_write(addr, odr, 2, false),
                ]
            ),
    {
        let ghost h0 = bus.history();
        let mut bus = bus;
        let a_value = cfg_reg_a_value(odr);
        if let Err(_) = bus.write_register(addr, CFG_REG_A, a_value) {
            return Err(InitFailure { bus, error: Error::Bus });
        }
        if let Err(_) = bus.write_register(addr, CFG_REG_B, OFF_CANC) {
            proof {
                assert(bus.history() =~= h0 + seq![
                    init_write(addr, odr, 0, true),
                    init_write(addr, odr, 1, false),
                ]);
            }
            return Err(InitFailure { bus, error: Error::Bus });
        }
        if let Err(_) = bus.write_register(addr, CFG_REG_C, BDU) {
            proof {
                assert(bus.history() =~= h0 + seq![
                    init_write(addr, odr, 0, true),
                    init_write(addr, odr, 1, true),
                    init_write(addr, odr, 2, false),
                ]);
            }
            return Err(InitFailure { bus, error: Error::Bus });
        }
        proof {
            assert(bus.history() =~= h0 + init_transactions(addr, odr));
        }
        Ok(Lis2mdl { bus, addr, odr })
    }

    /// Give the bus channel back, ending the driver's exclusive ownership.
    pub fn release(self) -> (r: B)
        ensures
            r.history() == self.bus_history(),
    {
        self.bus
    }

    /// Read the identity register. On success the returned byte is exactly
    /// the byte the device supplied; a transport failure is distinguishable
    /// as `Error::Bus`.
    pub fn get_chip_id(&mut self) -> (r: Result<u8, Error>)
        ensures
            final(self).address() == old(self).address(),
            final(self).rate() == old(self).rate(),
            r matches Ok(id) ==> final(self).bus_history() == old(self).bus_history().push(
                Transaction::Read { addr: old(self).address(), reg: WHO_AM_I, data: Some(seq![id]) },
            ),
            r matches Err(e) ==> e == Error::Bus && final(self).bus_history() == old(
                self,
            ).bus_history().push(
                Transaction::Read { addr: old(self).address(), reg: WHO_AM_I, data: None },
            ),
    {
        match self.bus.read_register(self.addr, WHO_AM_I, 1) {
            Ok(b) => {
                let id = b[0];
                proof {
                    assert(b@ =~= seq![id]);
                }
                Ok(id)
            }
            Err(_) => Err(Error::Bus),
        }
    }

    /// Read one magnetometer sample: check the data-ready flag, then read
    /// the six data registers in one latched transaction and decode each
    /// axis as a little-endian two's-complement word. The sample comes
    /// fresh from this call's bus read, never from a cache.
    pub fn read_magnetometer_data(&mut self) -> (r: Result<(i16, i16, i16), Error>)
        ensures
            final(self).address() == old(self).address(),
            final(self).rate() == old(self).rate(),
            mag_read_outcome(
                old(self).address(),
                old(self).bus_history(),
                final(self).bus_history(),
                r,
            ),
    {
        let status = match self.bus.read_register(self.addr, STATUS_REG, 1) {
            Ok(b) => {
                let s = b[0];
                proof {
                    assert(b@ =~= seq![s]);
                }
                s
            }
            Err(_) => {
                return Err(Error::Bus);
            }
        };
        proof {
            assert(self.bus.history() == old(self).bus_history().push(
                status_read(old(self).address(), status),
            ));
        }
        if status & ZYXDA == 0 {
            return Err(Error::DataNotReady);
        }
        let frame = match self.bus.read_register(self.addr, OUTX_L_REG, 6) {
            Ok(b) => b,
            Err(_) => {
                proof {
                    assert(self.bus.history() == old(self).bus_history().push(
                        status_read(old(self).address(), status),
                    ).push(
                        Transaction::Read {
                            addr: old(self).address(),
                            reg: OUTX_L_REG,
                            data: None,
                        },
                    ));
                }
                return Err(Error::Bus);
            }
        };
        let sample = decode_mag_frame(&frame);
        Ok(sample)
    }

    /// Read the raw temperature count from the temperature register pair,
    /// decoded as a little-endian two's-complement word.
    pub fn read_temperature(&mut self) -> (r: Result<i16, Error>)
        ensures
            final(self).address() == old(self).address(),
            final(self).rate() == old(self).rate(),
            temp_read_outcome(
                old(self).address(),
                old(self).bus_history(),
                final(self).bus_history(),
                r,
            ),
    {
        match self.bus.read_register(self.addr, TEMP_OUT_L_REG, 2) {
            Ok(b) => Ok(i16_from_le(b[0], b[1])),
            Err(_) => Err(Error::Bus),
        }
    }
}

/// The first write of a successful construction goes to CFG_REG_A, and
/// the rate field of the very byte it carries decodes back to the
/// configured rate: for every supported rate the construction writes the
/// exact control bit pattern that round-trips.
pub proof fn lemma_init_write_encodes_rate(addr: u8, odr: OutputDataRate)
    ensures
        init_transactions(addr, odr)[0] matches Transaction::Write { reg, value, .. } && reg
            == CFG_REG_A && spec_odr_of_bits(spec_odr_field(value)) == Some(odr),
{
    lemma_odr_roundtrip(odr);
}

/// Successive successful magnetometer reads are independent: each call
/// appends its own status read and data read to the bus history, and each
/// call's sample is the decode of the six-byte frame read by that call
/// alone — no result is carried over from an earlier frame.
pub proof fn lemma_mag_reads_independent(
    addr: u8,
    h0: Seq<Transaction>,
    h1: Seq<Transaction>,
    h2: Seq<Transaction>,
    r1: (i16, i16, i16),
    r2: (i16, i16, i16),
)
    requires
        mag_read_outcome(addr, h0, h1, Ok(r1)),
        mag_read_outcome(addr, h1, h2, Ok(r2)),
    ensures
        h1.len() == h0.len() + 2,
        h2.len() == h1.len() + 2,
        h1.last() matches Transaction::Read { addr: a1, reg: g1, data: Some(b1) } && a1 == addr
            && g1 == OUTX_L_REG && b1.len() == 6 && r1.0 == spec_mag_frame(b1).0 && r1.1
            == spec_mag_frame(b1).1 && r1.2 == spec_mag_frame(b1).2,
        h2.last() matches Transaction::Read { addr: a2, reg: g2, data: Some(b2) } && a2 == addr
            && g2 == OUTX_L_REG && b2.len() == 6 && r2.0 == spec_mag_frame(b2).0 && r2.1
            == spec_mag_frame(b2).1 && r2.2 == spec_mag_frame(b2).2,
{
    let (s1, b1) = choose|s: u8, b: Seq<u8>|
        spec_data_ready(s) && #[trigger] b.len() == 6 && h1 == h0.push(
            #[trigger] status_read(addr, s),
        ).push(
            Transaction::Read { addr, reg: OUTX_L_REG, data: Some(b) },
        ) && r1.0 == spec_mag_frame(b).0 && r1.1 == spec_mag_frame(b).1 && r1.2 == spec_mag_frame(
            b,
        ).2;
    let (s2, b2) = choose|s: u8, b: Seq<u8>|
        spec_data_ready(s) && #[trigger] b.len() == 6 && h2 == h1.push(
            #[trigger] status_read(addr, s),
        ).push(
            Transaction::Read { addr, reg: OUTX_L_REG, data: Some(b) },
        ) && r2.0 == spec_mag_frame(b).0 && r2.1 == spec_mag_frame(b).1 && r2.2 == spec_mag_frame(
            b,
        ).2;
    assert(h1.last() == Transaction::Read { addr, reg: OUTX_L_REG, data: Some(b1) });
    assert(h2.last() == Transaction::Read { addr, reg: OUTX_L_REG, data: Some(b2) });
}

} // verus!
