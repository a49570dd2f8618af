//! The acquisition step: the decisions of the polling lifecycle
//! (construct, verify identity, poll forever) that do not touch hardware
//! themselves. The platform runs the unbounded loop, performs the delay
//! between cycles, and emits the samples to its log; every failure
//! returned from here is fatal under the fail-fast policy — the caller
//! halts rather than continue with stale data.

use vstd::prelude::*;
use crate::bus::{BusTransport, Transaction};
use crate::driver::{mag_read_outcome, temp_read_outcome, Error, Lis2mdl};
use crate::CHIP_ID;

verus! {

/// One polling cycle's readings, as raw signed counts.
#[derive(Clone, Copy, Debug, PartialEq, Eq, Structural)]
pub struct Sample {
    pub x: i16,
    pub y: i16,
    pub z: i16,
    pub temperature: i16,
}

/// Everything one polling cycle can do: a magnetometer read that fails and
/// ends the cycle before any temperature transaction, or a successful
/// magnetometer read followed by a temperature read, whose decoded words
/// form the returned sample.
pub open spec fn poll_outcome(
    addr: u8,
    pre: Seq<Transaction>,
    post: Seq<Transaction>,
    r: Result<Sample, Error>,
) -> bool {
    ||| (exists|e: Error|
        #[trigger] mag_read_outcome(addr, pre, post, Err(e)) && r == Err::<Sample, Error>(e))
    ||| (exists|mid: Seq<Transaction>, m: (i16, i16, i16)|
        #[trigger] mag_read_outcome(addr, pre, mid, Ok(m)) && #[trigger] temp_read_outcome(
            addr,
            mid,
            post,
            Err(Error::Bus),
        ) && r == Err::<Sample, Error>(Error::Bus))
    ||| (exists|mid: Seq<Transaction>, m: (i16, i16, i16), t: i16|
        #[trigger] mag_read_outcome(addr, pre, mid, Ok(m)) && #[trigger] temp_read_outcome(
            addr,
            mid,
            post,
            Ok(t),
        ) && r == Ok::<Sample, Error>(Sample { x: m.0, y: m.1, z: m.2, temperature: t }))
}

/// Read one magnetometer sample and one temperature sample, fail-fast: a
/// failed magnetometer read ends the cycle at once and the temperature
/// registers are not touched.
pub fn poll_once<B: BusTransport>(d: &mut Lis2mdl<B>) -> (r: Result<Sample, Error>)
    ensures
        final(d).address() == old(d).address(),
        final(d).rate() == old(d).rate(),
        poll_outcome(old(d).address(), old(d).bus_history(), final(d).bus_history(), r),
{
    let ghost addr = d.address();
    let ghost pre = d.bus_history();
    let m = match d.read_magnetometer_data() {
        Ok(m) => m,
        Err(e) => {
            proof {
                assert(mag_read_outcome(addr, pre, d.bus_history(), Err::<(i16, i16, i16), Error>(e)));
            }
            return Err(e);
        }
    };
    let ghost mid = d.bus_history();
    let t = match d.read_temperature() {
        Ok(t) => t,
        Err(e) => {
            proof {
                assert(mag_read_outcome(addr, pre, mid, Ok::<(i16, i16, i16), Error>(m)));
                assert(temp_read_outcome(addr, mid, d.bus_history(), Err::<i16, Error>(Error::Bus)));
            }
            return Err(Error::Bus);
        }
    };
    proof {
        assert(mag_read_outcome(addr, pre, mid, Ok::<(i16, i16, i16), Error>(m)));
        assert(temp_read_outcome(addr, mid, d.bus_history(), Ok::<i16, Error>(t)));
    }
    Ok(Sample { x: m.0, y: m.1, z: m.2, temperature: t })
}

/// The identity-check policy: accept exactly the manufacturer constant.
pub fn check_identity(id: u8) -> (r: Result<(), Error>)
    ensures
        id == CHIP_ID ==> r == Ok::<(), Error>(()),
        id != CHIP_ID ==> r == Err::<(), Error>(Error::IdentityMismatch),
{
    if id == CHIP_ID {
        Ok(())
    } else {
        Err(Error::IdentityMismatch)
    }
}

} // verus!
