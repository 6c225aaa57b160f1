use wsen_tids::{AddressSelect, BusError, Mode, Sensor, SimulatedBus, Speed};

fn memory_with(entries: &[(usize, u8)]) -> Vec<u8> {
    let mut memory = vec![0u8; 256];
    for &(at, value) in entries {
        memory[at] = value;
    }
    memory
}

fn sensor(select: AddressSelect, memory: Vec<u8>, successes: usize) -> Sensor<SimulatedBus> {
    Sensor::new(SimulatedBus::new(memory, successes), select)
}

fn single_write(bus: &SimulatedBus) -> (u8, Vec<u8>, bool) {
    assert_eq!(bus.log.len(), 1);
    let record = &bus.log[0];
    assert!(!record.read);
    (record.address, record.bytes.clone(), record.ok)
}

#[test]
fn address_select_values() {
    assert_eq!(AddressSelect::High.address(), 0x38);
    assert_eq!(AddressSelect::Low.address(), 0x3F);
    assert_eq!(u8::from(AddressSelect::High), 0x38);
    let low: u8 = AddressSelect::Low.into();
    assert_eq!(low, 0x3F);
}

#[test]
fn new_makes_no_transaction() {
    let s = sensor(AddressSelect::High, Vec::new(), 10);
    assert!(s.bus().log.is_empty());
}

#[test]
fn read_device_id_returns_the_byte_read() {
    let mut s = sensor(AddressSelect::High, memory_with(&[(0x39, 0xA0)]), 10);
    assert_eq!(s.read_device_id(), Ok(0xA0));
    let bus = s.release();
    assert_eq!(bus.log.len(), 1);
    assert!(bus.log[0].read);
    assert_eq!(bus.log[0].address, 0x39);
    assert_eq!(bus.log[0].bytes, vec![0xA0]);
}

#[test]
fn read_device_id_on_low_address() {
    let mut s = sensor(AddressSelect::Low, memory_with(&[(0x40, 0x5C)]), 10);
    assert_eq!(s.read_device_id(), Ok(0x5C));
    assert_eq!(s.bus().log[0].address, 0x40);
}

#[test]
fn read_device_id_propagates_failure() {
    let mut s = sensor(AddressSelect::High, memory_with(&[(0x39, 0xA0)]), 0);
    assert_eq!(s.read_device_id(), Err(BusError));
    assert_eq!(s.bus().log.len(), 1);
    assert!(!s.bus().log[0].ok);
}

#[test]
fn disable_high_limit_writes_zero() {
    let mut s = sensor(AddressSelect::High, Vec::new(), 10);
    assert_eq!(s.disable_temperature_high_limit(), Ok(()));
    assert_eq!(single_write(s.bus()), (0x3A, vec![0x00], true));
}

#[test]
fn disable_low_limit_writes_zero() {
    let mut s = sensor(AddressSelect::Low, Vec::new(), 10);
    assert_eq!(s.disable_temperature_low_limit(), Ok(()));
    assert_eq!(single_write(s.bus()), (0x42, vec![0x00], true));
}

#[test]
fn limits_write_encoded_value() {
    let mut s = sensor(AddressSelect::High, Vec::new(), 10);
    assert_eq!(s.temperature_high_limit(0), Ok(()));
    assert_eq!(single_write(s.bus()), (0x3A, vec![63], true));

    let mut s = sensor(AddressSelect::Low, Vec::new(), 10);
    assert_eq!(s.temperature_low_limit(-39_680), Ok(()));
    assert_eq!(single_write(s.bus()), (0x42, vec![1], true));
}

#[test]
fn limit_write_failure_is_returned() {
    let mut s = sensor(AddressSelect::High, Vec::new(), 0);
    assert_eq!(s.temperature_high_limit(25_000), Err(BusError));
    assert_eq!(single_write(s.bus()), (0x3A, vec![102], false));
}

#[test]
fn reset_writes_soft_reset_command() {
    let mut s = sensor(AddressSelect::High, Vec::new(), 10);
    assert_eq!(s.reset(), Ok(()));
    assert_eq!(single_write(s.bus()), (0x44, vec![0x02], true));

    let mut s = sensor(AddressSelect::Low, Vec::new(), 10);
    assert_eq!(s.reset(), Ok(()));
    assert_eq!(single_write(s.bus()), (0x4B, vec![0x02], true));
}

#[test]
fn configure_writes_control_byte() {
    let cases = [
        (Mode::PowerDown, 0x00),
        (Mode::SingleConversion, 0x01),
        (Mode::Continuous(Speed::Hz25), 0x04),
        (Mode::Continuous(Speed::Hz50), 0x14),
        (Mode::Continuous(Speed::Hz100), 0x24),
        (Mode::Continuous(Speed::Hz200), 0x34),
    ];
    for (mode, value) in cases {
        let mut s = sensor(AddressSelect::High, Vec::new(), 10);
        assert_eq!(s.configure(mode), Ok(()));
        assert_eq!(single_write(s.bus()), (0x3C, vec![value], true));
    }
}

#[test]
fn read_temperature_composes_low_then_high() {
    let mut s = sensor(AddressSelect::Low, memory_with(&[(0x45, 0x00), (0x46, 0x01)]), 10);
    assert_eq!(s.read_temperature(), Ok(256));
    let bus = s.release();
    assert_eq!(bus.log.len(), 2);
    assert!(bus.log[0].read && bus.log[1].read);
    assert_eq!(bus.log[0].address, 0x45);
    assert_eq!(bus.log[1].address, 0x46);
}

#[test]
fn read_temperature_stops_after_failed_low_read() {
    let mut s = sensor(AddressSelect::High, memory_with(&[(0x3E, 0x10), (0x3F, 0x09)]), 0);
    assert_eq!(s.read_temperature(), Err(BusError));
    assert_eq!(s.bus().log.len(), 1);
    assert_eq!(s.bus().log[0].address, 0x3E);
    assert!(!s.bus().log[0].ok);
}

#[test]
fn read_temperature_returns_failed_high_read() {
    let mut s = sensor(AddressSelect::High, memory_with(&[(0x3E, 0x10), (0x3F, 0x09)]), 1);
    assert_eq!(s.read_temperature(), Err(BusError));
    assert_eq!(s.bus().log.len(), 2);
    assert!(s.bus().log[0].ok);
    assert!(!s.bus().log[1].ok);
}

#[test]
fn register_addresses_are_base_plus_offset() {
    for select in [AddressSelect::High, AddressSelect::Low] {
        let base = select.address();
        let mut s = sensor(select, Vec::new(), 10);
        s.read_device_id().unwrap();
        s.disable_temperature_high_limit().unwrap();
        s.disable_temperature_low_limit().unwrap();
        s.configure(Mode::PowerDown).unwrap();
        s.read_temperature().unwrap();
        s.reset().unwrap();
        let seen: Vec<u8> = s.bus().log.iter().map(|r| r.address).collect();
        let expected: Vec<u8> = [0x01u8, 0x02, 0x03, 0x04, 0x06, 0x07, 0x0C]
            .iter()
            .map(|o| base + o)
            .collect();
        assert_eq!(seen, expected);
    }
}
