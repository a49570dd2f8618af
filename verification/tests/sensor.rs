use lis2mdl_driver::driver::{Error, Lis2mdl};
use lis2mdl_driver::identity_matches;
use lis2mdl_driver::monitor::{check_identity, poll_once, Sample};
use lis2mdl_driver::regs::DEFAULT_I2C_ADDRESS;
use lis2mdl_driver::sim::{SimBus, SimReply};
use lis2mdl_driver::CHIP_ID;
use lis2mdl_driver::odr::OutputDataRate;

fn acked_init() -> Vec<SimReply> {
    vec![SimReply::Ack, SimReply::Ack, SimReply::Ack]
}

#[test]
fn it_works() {
    assert!(true)
}

#[test]
fn construction_writes_exact_control_patterns() {
    let bus = SimBus::new(acked_init());
    let dev = Lis2mdl::new(bus, DEFAULT_I2C_ADDRESS, OutputDataRate::Hz10)
        .ok()
        .expect("construction should succeed on an all-ack bus");
    let bus = dev.release();
    assert_eq!(
        *bus.write_log(),
        vec![(0x1E, 0x60, 0x80), (0x1E, 0x61, 0x02), (0x1E, 0x62, 0x10)]
    );
    assert_eq!(bus.replies_left(), 0);
}

#[test]
fn construction_rate_selects_control_bits() {
    let bus = SimBus::new(acked_init());
    let dev = Lis2mdl::new(bus, DEFAULT_I2C_ADDRESS, OutputDataRate::Hz100)
        .ok()
        .expect("construction should succeed on an all-ack bus");
    let bus = dev.release();
    assert_eq!(bus.write_log()[0], (0x1E, 0x60, 0x8C));
}

#[test]
fn construction_stops_at_first_unacknowledged_write() {
    let script = vec![SimReply::Ack, SimReply::Nack, SimReply::Ack, SimReply::Ack];
    let bus = SimBus::new(script);
    let failure = Lis2mdl::new(bus, DEFAULT_I2C_ADDRESS, OutputDataRate::Hz10)
        .err()
        .expect("construction should fail on a nacked write");
    assert_eq!(failure.error, Error::Bus);
    // only the first two writes were attempted; nothing touched the bus after
    assert_eq!(
        *failure.bus.write_log(),
        vec![(0x1E, 0x60, 0x80), (0x1E, 0x61, 0x02)]
    );
    assert_eq!(failure.bus.replies_left(), 2);
}

#[test]
fn chip_id_constant_is_documented_value() {
    assert_eq!(CHIP_ID, 0x40);
    assert!(identity_matches(0x40));
    assert!(!identity_matches(0x3D));
}

#[test]
fn genuine_chip_id_is_returned_verbatim() {
    let mut script = acked_init();
    script.push(SimReply::Bytes(vec![0x40]));
    let bus = SimBus::new(script);
    let mut dev = Lis2mdl::new(bus, DEFAULT_I2C_ADDRESS, OutputDataRate::Hz10)
        .ok()
        .expect("construction should succeed on an all-ack bus");
    assert_eq!(dev.get_chip_id(), Ok(0x40));
    assert_eq!(check_identity(0x40), Ok(()));
}

#[test]
fn chip_id_transport_failure_is_distinguishable() {
    let mut script = acked_init();
    script.push(SimReply::ReadFail);
    let bus = SimBus::new(script);
    let mut dev = Lis2mdl::new(bus, DEFAULT_I2C_ADDRESS, OutputDataRate::Hz10)
        .ok()
        .expect("construction should succeed on an all-ack bus");
    assert_eq!(dev.get_chip_id(), Err(Error::Bus));
}

#[test]
fn foreign_chip_id_fails_identity_policy() {
    assert_eq!(check_identity(0x41), Err(Error::IdentityMismatch));
}

#[test]
fn magnetometer_frame_decodes_little_endian() {
    let mut script = acked_init();
    script.push(SimReply::Bytes(vec![0x08])); // status: new sample ready
    script.push(SimReply::Bytes(vec![0x01, 0x00, 0x02, 0x00, 0x03, 0x00]));
    let bus = SimBus::new(script);
    let mut dev = Lis2mdl::new(bus, DEFAULT_I2C_ADDRESS, OutputDataRate::Hz10)
        .ok()
        .expect("construction should succeed on an all-ack bus");
    assert_eq!(dev.read_magnetometer_data(), Ok((1, 2, 3)));
}

#[test]
fn magnetometer_not_ready_is_reported() {
    let mut script = acked_init();
    script.push(SimReply::Bytes(vec![0x00])); // status: nothing new
    let bus = SimBus::new(script);
    let mut dev = Lis2mdl::new(bus, DEFAULT_I2C_ADDRESS, OutputDataRate::Hz10)
        .ok()
        .expect("construction should succeed on an all-ack bus");
    assert_eq!(dev.read_magnetometer_data(), Err(Error::DataNotReady));
    // the data registers were never read
    assert_eq!(dev.release().replies_left(), 0);
}

#[test]
fn magnetometer_read_failure_is_bus_error() {
    let mut script = acked_init();
    script.push(SimReply::ReadFail);
    let bus = SimBus::new(script);
    let mut dev = Lis2mdl::new(bus, DEFAULT_I2C_ADDRESS, OutputDataRate::Hz10)
        .ok()
        .expect("construction should succeed on an all-ack bus");
    assert_eq!(dev.read_magnetometer_data(), Err(Error::Bus));
}

#[test]
fn repeated_magnetometer_reads_are_fresh() {
    let mut script = acked_init();
    script.push(SimReply::Bytes(vec![0x08]));
    script.push(SimReply::Bytes(vec![0x01, 0x00, 0x02, 0x00, 0x03, 0x00]));
    script.push(SimReply::Bytes(vec![0x08]));
    script.push(SimReply::Bytes(vec![0x04, 0x00, 0x05, 0x00, 0x06, 0x00]));
    let bus = SimBus::new(script);
    let mut dev = Lis2mdl::new(bus, DEFAULT_I2C_ADDRESS, OutputDataRate::Hz10)
        .ok()
        .expect("construction should succeed on an all-ack bus");
    // each call performs its own transactions and returns that call's frame
    assert_eq!(dev.read_magnetometer_data(), Ok((1, 2, 3)));
    assert_eq!(dev.read_magnetometer_data(), Ok((4, 5, 6)));
    assert_eq!(dev.release().replies_left(), 0);
}

#[test]
fn temperature_reads_register_pair() {
    let mut script = acked_init();
    script.push(SimReply::Bytes(vec![0x10, 0x00]));
    let bus = SimBus::new(script);
    let mut dev = Lis2mdl::new(bus, DEFAULT_I2C_ADDRESS, OutputDataRate::Hz10)
        .ok()
        .expect("construction should succeed on an all-ack bus");
    assert_eq!(dev.read_temperature(), Ok(16));
}

#[test]
fn temperature_below_reference_is_negative() {
    let mut script = acked_init();
    script.push(SimReply::Bytes(vec![0xFF, 0xFF]));
    let bus = SimBus::new(script);
    let mut dev = Lis2mdl::new(bus, DEFAULT_I2C_ADDRESS, OutputDataRate::Hz10)
        .ok()
        .expect("construction should succeed on an all-ack bus");
    assert_eq!(dev.read_temperature(), Ok(-1));
}

#[test]
fn poll_cycle_returns_both_samples() {
    let mut script = acked_init();
    script.push(SimReply::Bytes(vec![0x08]));
    script.push(SimReply::Bytes(vec![0x01, 0x00, 0x02, 0x00, 0x03, 0x00]));
    script.push(SimReply::Bytes(vec![0xF8, 0xFF])); // one degree below reference
    let bus = SimBus::new(script);
    let mut dev = Lis2mdl::new(bus, DEFAULT_I2C_ADDRESS, OutputDataRate::Hz10)
        .ok()
        .expect("construction should succeed on an all-ack bus");
    assert_eq!(
        poll_once(&mut dev),
        Ok(Sample { x: 1, y: 2, z: 3, temperature: -8 })
    );
}

#[test]
fn poll_cycle_fails_fast_on_magnetometer_error() {
    let mut script = acked_init();
    script.push(SimReply::ReadFail); // status read fails
    script.push(SimReply::Bytes(vec![0x10, 0x00])); // would be the temperature
    let bus = SimBus::new(script);
    let mut dev = Lis2mdl::new(bus, DEFAULT_I2C_ADDRESS, OutputDataRate::Hz10)
        .ok()
        .expect("construction should succeed on an all-ack bus");
    assert_eq!(poll_once(&mut dev), Err(Error::Bus));
    // the temperature registers were never read
    assert_eq!(dev.release().replies_left(), 1);
}
