use std::cell::RefCell;
use std::rc::Rc;

use adxl343::driver::{decode_i16, decode_u16};
use adxl343::{
    Adxl343, ChipSelect, DataFormatFlags, DataFormatRange, Error, I16x3, I2cBus, I2cTransport,
    Register, RegisterLink, SpiBus, SpiTransport, Transport, TransportError, U16x3, DEVICE_ID,
    SAMPLE_RATE_HZ,
};

/// A register access as the device saw it.
#[derive(Clone, Debug, PartialEq, Eq)]
enum Access {
    Write(u8, u8),
    Read(u8, usize),
}

#[derive(Debug, PartialEq, Eq)]
struct BusFault(usize);

#[derive(Debug, PartialEq, Eq)]
struct PinFault;

/// A simulated device: its registers, the accesses made, the access to fail.
struct Device {
    registers: [u8; 64],
    accesses: Vec<Access>,
    fail_at: Option<usize>,
    pointer: usize,
    selected: bool,
}

impl Device {
    fn with_id(id: u8) -> Rc<RefCell<Device>> {
        let mut registers = [0u8; 64];
        registers[0] = id;
        Rc::new(RefCell::new(Device {
            registers,
            accesses: Vec::new(),
            fail_at: None,
            pointer: 0,
            selected: false,
        }))
    }

    fn record(&mut self, access: Access) -> Result<(), BusFault> {
        let index = self.accesses.len();
        self.accesses.push(access);
        if self.fail_at == Some(index) {
            Err(BusFault(index))
        } else {
            Ok(())
        }
    }

    fn set_axes(&mut self, x: [u8; 2], y: [u8; 2], z: [u8; 2]) {
        self.registers[0x32..0x34].copy_from_slice(&x);
        self.registers[0x34..0x36].copy_from_slice(&y);
        self.registers[0x36..0x38].copy_from_slice(&z);
    }
}

struct MockI2c(Rc<RefCell<Device>>);

impl I2cBus for MockI2c {
    type Error = BusFault;

    fn write(&mut self, address: u8, bytes: &[u8]) -> Result<(), BusFault> {
        assert_eq!(address, 0x53);
        assert_eq!(bytes.len(), 2);
        let mut d = self.0.borrow_mut();
        d.record(Access::Write(bytes[0], bytes[1]))?;
        d.registers[bytes[0] as usize] = bytes[1];
        Ok(())
    }

    fn write_read(&mut self, address: u8, bytes: &[u8], buffer: &mut [u8]) -> Result<(), BusFault> {
        assert_eq!(address, 0x53);
        assert_eq!(bytes.len(), 1);
        let mut d = self.0.borrow_mut();
        d.record(Access::Read(bytes[0], buffer.len()))?;
        for (i, b) in buffer.iter_mut().enumerate() {
            *b = d.registers[bytes[0] as usize + i];
        }
        Ok(())
    }
}

struct MockSpi(Rc<RefCell<Device>>);

impl SpiBus for MockSpi {
    type Error = BusFault;

    fn write(&mut self, words: &[u8]) -> Result<(), BusFault> {
        let mut d = self.0.borrow_mut();
        assert!(d.selected);
        if words[0] & 0x80 != 0 {
            assert_eq!(words.len(), 1);
            d.pointer = (words[0] & 0x7F) as usize;
            Ok(())
        } else {
            assert_eq!(words.len(), 2);
            d.record(Access::Write(words[0], words[1]))?;
            d.registers[words[0] as usize] = words[1];
            Ok(())
        }
    }

    fn transfer(&mut self, words: &mut [u8]) -> Result<(), BusFault> {
        let mut d = self.0.borrow_mut();
        assert!(d.selected);
        let start = d.pointer;
        d.record(Access::Read(start as u8, words.len()))?;
        for (i, w) in words.iter_mut().enumerate() {
            *w = d.registers[start + i];
        }
        Ok(())
    }
}

struct MockPin(Rc<RefCell<Device>>);

impl ChipSelect for MockPin {
    type Error = PinFault;

    fn set_low(&mut self) -> Result<(), PinFault> {
        self.0.borrow_mut().selected = true;
        Ok(())
    }

    fn set_high(&mut self) -> Result<(), PinFault> {
        self.0.borrow_mut().selected = false;
        Ok(())
    }
}

type I2cDriver = Adxl343<I2cTransport<MockI2c>>;

fn over_i2c(device: &Rc<RefCell<Device>>) -> I2cTransport<MockI2c> {
    I2cTransport::new(MockI2c(device.clone()))
}

fn over_spi(device: &Rc<RefCell<Device>>) -> SpiTransport<MockSpi, MockPin> {
    SpiTransport::new(MockSpi(device.clone()), MockPin(device.clone()))
}

fn started(device: &Rc<RefCell<Device>>, format: DataFormatFlags) -> I2cDriver {
    let driver = Adxl343::new_with_data_format(over_i2c(device), format).ok().unwrap();
    device.borrow_mut().accesses.clear();
    driver
}

fn startup(format: u8) -> Vec<Access> {
    vec![
        Access::Read(0x00, 1),
        Access::Write(0x31, format),
        Access::Write(0x2E, 0),
        Access::Write(0x1D, 20),
        Access::Write(0x21, 50),
        Access::Write(0x22, 0),
        Access::Write(0x23, 0),
        Access::Write(0x2A, 0x07),
        Access::Write(0x2D, 0x08),
    ]
}

#[test]
fn constants_are_those_of_the_data_sheet() {
    assert_eq!(DEVICE_ID, 0xE5);
    assert_eq!(SAMPLE_RATE_HZ, 100);
    assert_eq!(f32::from(SAMPLE_RATE_HZ), 100.0);
}

#[test]
fn start_up_issues_its_steps_in_order() {
    let device = Device::with_id(0xE5);
    let driver = Adxl343::new(over_i2c(&device));
    assert!(driver.is_ok());
    assert_eq!(device.borrow().accesses, startup(0));
}

#[test]
fn start_up_over_spi_issues_the_same_steps() {
    let device = Device::with_id(0xE5);
    let driver = Adxl343::new(over_spi(&device));
    assert!(driver.is_ok());
    assert_eq!(device.borrow().accesses, startup(0));
    assert!(!device.borrow().selected);
}

#[test]
fn start_up_writes_the_data_format_that_it_is_given() {
    let device = Device::with_id(0xE5);
    let format = DataFormatFlags::from_bits(DataFormatFlags::FULL_RES)
        .union(DataFormatRange::PLUSMINUS_16G.bits());
    let driver = Adxl343::new_with_data_format(over_i2c(&device), format);
    assert!(driver.is_ok());
    assert_eq!(device.borrow().accesses, startup(0b0000_1011));
    assert_eq!(device.borrow().registers[0x31], 0b0000_1011);
}

#[test]
fn start_up_leaves_the_device_measuring_with_single_tap() {
    let device = Device::with_id(0xE5);
    assert!(Adxl343::new(over_i2c(&device)).is_ok());
    let d = device.borrow();
    assert_eq!(d.registers[0x2E], 0);
    assert_eq!(d.registers[0x1D], 20);
    assert_eq!(d.registers[0x21], 50);
    assert_eq!(d.registers[0x22], 0);
    assert_eq!(d.registers[0x23], 0);
    assert_eq!(d.registers[0x2A], 0b111);
    assert_eq!(d.registers[0x2D], 0b1000);
}

#[test]
fn another_identity_fails_with_device_after_the_identity_read() {
    for id in [0x00u8, 0xE4, 0xE6, 0xFF] {
        let device = Device::with_id(id);
        let driver = Adxl343::new(over_i2c(&device));
        assert!(matches!(driver, Err(Error::Device)));
        assert_eq!(device.borrow().accesses, vec![Access::Read(0x00, 1)]);
    }
}

#[test]
fn initialize_reports_the_same_on_a_borrowed_transport() {
    let device = Device::with_id(0x12);
    let mut link = RegisterLink::new(over_i2c(&device));
    let result = I2cDriver::initialize(&mut link, DataFormatFlags::empty());
    assert!(matches!(result, Err(Error::Device)));
    assert_eq!(device.borrow().accesses.len(), 1);

    device.borrow_mut().registers[0] = 0xE5;
    device.borrow_mut().accesses.clear();
    let result = I2cDriver::initialize(&mut link, DataFormatFlags::from_bits(0x0B));
    assert!(result.is_ok());
    assert_eq!(device.borrow().accesses, startup(0x0B));
}

#[test]
fn a_failed_identity_read_is_a_bus_error() {
    let device = Device::with_id(0xE5);
    device.borrow_mut().fail_at = Some(0);
    let driver = Adxl343::new(over_i2c(&device));
    assert!(matches!(driver, Err(Error::Bus(TransportError::BusError(BusFault(0))))));
    assert_eq!(device.borrow().accesses, vec![Access::Read(0x00, 1)]);
}

#[test]
fn start_up_stops_at_the_first_write_that_fails() {
    for failing in 1..9usize {
        let device = Device::with_id(0xE5);
        device.borrow_mut().fail_at = Some(failing);
        let driver = Adxl343::new(over_i2c(&device));
        match driver {
            Err(Error::Bus(TransportError::BusError(BusFault(at)))) => assert_eq!(at, failing),
            _ => panic!("start-up went on after access {}", failing),
        }
        assert_eq!(device.borrow().accesses, startup(0)[..=failing].to_vec());
    }
}

#[test]
fn write_to_data_format_is_refused_whatever_the_value() {
    let device = Device::with_id(0xE5);
    let mut driver = started(&device, DataFormatFlags::empty());
    for value in 0..=255u8 {
        let result = driver.write_register(Register::DATA_FORMAT, value);
        assert!(matches!(result, Err(Error::Param)));
    }
    assert!(device.borrow().accesses.is_empty());
    assert_eq!(device.borrow().registers[0x31], 0);
}

#[test]
fn write_to_a_read_only_register_is_refused() {
    let device = Device::with_id(0xE5);
    let mut driver = started(&device, DataFormatFlags::empty());
    for register in [
        Register::DEVID,
        Register::ACT_TAP_STATUS,
        Register::INT_SOURCE,
        Register::DATAX0,
        Register::DATAX1,
        Register::DATAY0,
        Register::DATAY1,
        Register::DATAZ0,
        Register::DATAZ1,
        Register::FIFO_STATUS,
    ] {
        let result = driver.write_register(register, 0x5A);
        assert!(matches!(result, Err(Error::Param)), "{:?}", register);
    }
    assert!(device.borrow().accesses.is_empty());
    assert_eq!(device.borrow().registers[0x00], 0xE5);
}

#[test]
fn write_to_another_register_passes_through() {
    let device = Device::with_id(0xE5);
    let mut driver = started(&device, DataFormatFlags::empty());
    assert!(driver.write_register(Register::THRESH_FF, 0x07).is_ok());
    assert!(driver.write_register(Register::BW_RATE, 0x0A).is_ok());
    assert_eq!(
        device.borrow().accesses,
        vec![Access::Write(0x28, 0x07), Access::Write(0x2C, 0x0A)]
    );
}

#[test]
fn a_failed_write_is_a_bus_error() {
    let device = Device::with_id(0xE5);
    let mut driver = started(&device, DataFormatFlags::empty());
    device.borrow_mut().fail_at = Some(0);
    let result = driver.write_register(Register::OFSX, 1);
    assert!(matches!(result, Err(Error::Bus(TransportError::BusError(BusFault(0))))));
}

#[test]
fn read_register_passes_through_with_the_width_asked_for() {
    let device = Device::with_id(0xE5);
    let mut driver = started(&device, DataFormatFlags::empty());
    device.borrow_mut().registers[0x2C] = 0x0A;
    device.borrow_mut().set_axes([1, 2], [3, 4], [5, 6]);
    let rate: [u8; 1] = driver.read_register(Register::BW_RATE).ok().unwrap();
    let axes: [u8; 6] = driver.read_register(Register::DATAX0).ok().unwrap();
    assert_eq!(rate, [0x0A]);
    assert_eq!(axes, [1, 2, 3, 4, 5, 6]);
    assert_eq!(device.borrow().accesses, vec![Access::Read(0x2C, 1), Access::Read(0x32, 6)]);
    device.borrow_mut().fail_at = Some(2);
    let failed = driver.read_register::<1>(Register::BW_RATE);
    assert!(matches!(failed, Err(Error::Bus(TransportError::BusError(BusFault(2))))));
}

#[test]
fn pairs_decode_least_significant_byte_first() {
    assert_eq!(decode_i16([0x9C, 0xFF]), -100);
    assert_eq!(decode_i16([0x00, 0x00]), 0);
    assert_eq!(decode_i16([0xFF, 0x7F]), 32767);
    assert_eq!(decode_i16([0x00, 0x80]), -32768);
    assert_eq!(decode_i16([0x01, 0x00]), 1);
    assert_eq!(decode_i16([0x00, 0x01]), 256);
    assert_eq!(decode_i16([0xFF, 0xFF]), -1);
    assert_eq!(decode_u16([0x9C, 0xFF]), 0xFF9C);
    assert_eq!(decode_u16([0x01, 0x00]), 1);
    assert_eq!(decode_u16([0x00, 0x01]), 256);
    assert_eq!(decode_u16([0xFF, 0xFF]), 65535);
    for lo in [0u8, 1, 0x7F, 0x80, 0xFF] {
        for hi in [0u8, 1, 0x7F, 0x80, 0xFF] {
            assert_eq!(decode_i16([lo, hi]), i16::from_le_bytes([lo, hi]));
            assert_eq!(decode_u16([lo, hi]), u16::from_le_bytes([lo, hi]));
        }
    }
}

#[test]
fn signed_reading_of_a_right_justified_device() {
    let device = Device::with_id(0xE5);
    let mut driver = started(&device, DataFormatFlags::empty());
    device.borrow_mut().set_axes([0x9C, 0xFF], [0x00, 0x00], [0xFF, 0x7F]);
    let raw = driver.accel_raw().ok().unwrap();
    assert_eq!(raw, I16x3 { x: -100, y: 0, z: 32767 });
    assert_eq!(
        device.borrow().accesses,
        vec![Access::Read(0x32, 2), Access::Read(0x34, 2), Access::Read(0x36, 2)]
    );
}

#[test]
fn normalized_reading_at_two_g() {
    let device = Device::with_id(0xE5);
    let format = DataFormatFlags::empty();
    let mut driver = started(&device, format);
    device.borrow_mut().set_axes([0x9C, 0xFF], [0x00, 0x00], [0xFF, 0x7F]);
    let raw = driver.accel_raw().ok().unwrap();
    let range = f32::from(format.range().full_scale_g());
    let x = (raw.x as f32 / i16::MAX as f32) * range;
    let y = (raw.y as f32 / i16::MAX as f32) * range;
    let z = (raw.z as f32 / i16::MAX as f32) * range;
    assert!((x - (-2.0 * 100.0 / 32767.0)).abs() < 1e-6);
    assert_eq!(y, 0.0);
    assert!((z - 2.0).abs() < 1e-6);
}

#[test]
fn signed_reading_of_a_left_justified_device_is_a_mode_error_without_traffic() {
    let device = Device::with_id(0xE5);
    let mut driver = started(&device, DataFormatFlags::from_bits(DataFormatFlags::JUSTIFY));
    let raw = driver.accel_raw();
    assert!(matches!(raw, Err(Error::Mode)));
    assert!(device.borrow().accesses.is_empty());
}

#[test]
fn unsigned_reading_of_a_left_justified_device() {
    let device = Device::with_id(0xE5);
    let mut driver = started(&device, DataFormatFlags::from_bits(DataFormatFlags::JUSTIFY));
    device.borrow_mut().set_axes([0x9C, 0xFF], [0x40, 0x00], [0x00, 0x80]);
    let raw = driver.accel_raw_unsigned().ok().unwrap();
    assert_eq!(raw, U16x3 { x: 0xFF9C, y: 0x0040, z: 0x8000 });
    assert_eq!(
        device.borrow().accesses,
        vec![Access::Read(0x32, 2), Access::Read(0x34, 2), Access::Read(0x36, 2)]
    );
}

#[test]
fn unsigned_reading_of_a_right_justified_device_is_a_mode_error_without_traffic() {
    let device = Device::with_id(0xE5);
    let mut driver = started(&device, DataFormatFlags::empty());
    let raw = driver.accel_raw_unsigned();
    assert!(matches!(raw, Err(Error::Mode)));
    assert!(device.borrow().accesses.is_empty());
}

#[test]
fn a_reading_stops_at_the_first_axis_that_fails() {
    for failing in 0..3usize {
        let device = Device::with_id(0xE5);
        let mut driver = started(&device, DataFormatFlags::empty());
        device.borrow_mut().fail_at = Some(failing);
        let raw = driver.accel_raw();
        assert!(matches!(raw, Err(Error::Bus(TransportError::BusError(_)))));
        assert_eq!(device.borrow().accesses.len(), failing + 1);
    }
}

#[test]
fn data_format_writes_the_register_and_takes_effect_at_once() {
    let device = Device::with_id(0xE5);
    let mut driver = started(&device, DataFormatFlags::empty());
    let justified = DataFormatFlags::from_bits(DataFormatFlags::JUSTIFY)
        .with_range(DataFormatRange::PLUSMINUS_8G);
    assert!(driver.data_format(justified).is_ok());
    assert_eq!(device.borrow().accesses, vec![Access::Write(0x31, 0b0000_0110)]);
    assert!(matches!(driver.accel_raw(), Err(Error::Mode)));
    assert!(driver.accel_raw_unsigned().is_ok());
    assert!(driver.data_format(DataFormatRange::PLUSMINUS_4G.bits()).is_ok());
    assert!(driver.accel_raw().is_ok());
    assert!(matches!(driver.accel_raw_unsigned(), Err(Error::Mode)));
}

#[test]
fn a_failed_data_format_leaves_the_driver_as_it_was() {
    let device = Device::with_id(0xE5);
    let mut driver = started(&device, DataFormatFlags::empty());
    device.borrow_mut().fail_at = Some(0);
    let result = driver.data_format(DataFormatFlags::from_bits(DataFormatFlags::JUSTIFY));
    assert!(matches!(result, Err(Error::Bus(TransportError::BusError(BusFault(0))))));
    assert!(driver.accel_raw().is_ok());
    assert!(matches!(driver.accel_raw_unsigned(), Err(Error::Mode)));
}

#[test]
fn reading_over_spi() {
    let device = Device::with_id(0xE5);
    let mut driver = Adxl343::new(over_spi(&device)).ok().unwrap();
    device.borrow_mut().set_axes([0x9C, 0xFF], [0x00, 0x00], [0xFF, 0x7F]);
    assert_eq!(driver.accel_raw().ok().unwrap(), I16x3 { x: -100, y: 0, z: 32767 });
}

#[test]
fn the_driver_holds_the_format_last_written() {
    let device = Device::with_id(0xE5);
    let first = DataFormatFlags::from_bits(DataFormatFlags::FULL_RES);
    let mut driver = started(&device, first);
    assert_eq!(driver.get_data_format(), first);
    assert_eq!(device.borrow().registers[0x31], first.bits());

    let second = first.with_range(DataFormatRange::PLUSMINUS_16G);
    assert!(driver.data_format(second).is_ok());
    assert_eq!(driver.get_data_format(), second);
    assert_eq!(device.borrow().registers[0x31], second.bits());

    device.borrow_mut().fail_at = Some(1);
    assert!(driver.data_format(DataFormatFlags::empty()).is_err());
    assert_eq!(driver.get_data_format(), second);
    assert_eq!(device.borrow().registers[0x31], second.bits());
}

#[test]
fn a_range_change_takes_effect_on_the_next_reading() {
    let device = Device::with_id(0xE5);
    let mut driver = started(&device, DataFormatFlags::empty());
    device.borrow_mut().set_axes([0xFF, 0x7F], [0x00, 0x00], [0x01, 0x80]);
    for (range, full_scale) in [
        (DataFormatRange::PLUSMINUS_2G, 2.0f32),
        (DataFormatRange::PLUSMINUS_4G, 4.0),
        (DataFormatRange::PLUSMINUS_8G, 8.0),
        (DataFormatRange::PLUSMINUS_16G, 16.0),
    ] {
        assert!(driver.data_format(range.bits()).is_ok());
        let raw = driver.accel_raw().ok().unwrap();
        let g = f32::from(driver.get_data_format().range().full_scale_g());
        assert_eq!(g, full_scale);
        assert_eq!((raw.x as f32 / i16::MAX as f32) * g, full_scale);
        assert_eq!((raw.y as f32 / i16::MAX as f32) * g, 0.0);
        assert_eq!((raw.z as f32 / i16::MAX as f32) * g, -full_scale);
    }
}

#[test]
fn errors_show_their_cause() {
    let bus: Error<TransportError<BusFault, PinFault>> =
        Error::Bus(TransportError::BusError(BusFault(7)));
    assert!(format!("{:?}", bus).contains("BusFault(7)"));
    let pin: Error<TransportError<BusFault, PinFault>> =
        Error::Bus(TransportError::PinError(PinFault));
    assert!(format!("{:?}", pin).contains("PinFault"));
}

/// A transport that keeps the registers itself.
struct Registers {
    bytes: [u8; 64],
    written: Vec<(Register, u8)>,
}

impl Transport for Registers {
    type BusError = BusFault;
    type PinError = PinFault;

    fn write_register(
        &mut self,
        register: Register,
        value: u8,
    ) -> Result<(), TransportError<BusFault, PinFault>> {
        if register == Register::POWER_CTL && value == 0xFF {
            return Err(TransportError::PinError(PinFault));
        }
        self.bytes[register.addr() as usize] = value;
        self.written.push((register, value));
        Ok(())
    }

    fn read_register<const N: usize>(
        &mut self,
        register: Register,
    ) -> Result<[u8; N], TransportError<BusFault, PinFault>> {
        let mut bytes = [0u8; N];
        let start = register.addr() as usize;
        bytes.copy_from_slice(&self.bytes[start..start + N]);
        Ok(bytes)
    }
}

#[test]
fn the_driver_runs_on_any_transport() {
    let mut bytes = [0u8; 64];
    bytes[0] = 0xE5;
    bytes[0x32..0x38].copy_from_slice(&[0x9C, 0xFF, 0x00, 0x00, 0xFF, 0x7F]);
    let mut driver = Adxl343::new(Registers { bytes, written: Vec::new() }).ok().unwrap();
    assert_eq!(driver.accel_raw().ok().unwrap(), I16x3 { x: -100, y: 0, z: 32767 });
    let id: [u8; 1] = driver.read_register(Register::DEVID).ok().unwrap();
    assert_eq!(id, [0xE5]);
    let refused = driver.write_register(Register::POWER_CTL, 0xFF);
    assert!(matches!(refused, Err(Error::Bus(TransportError::PinError(PinFault)))));
}

#[test]
fn a_link_hands_accesses_on_as_they_are() {
    let mut bytes = [0u8; 64];
    bytes[0x2C] = 0x0A;
    let mut link = RegisterLink::new(Registers { bytes, written: Vec::new() });
    assert!(link.write_register(Register::DUR, 50).is_ok());
    let rate: [u8; 1] = link.read_register(Register::BW_RATE).ok().unwrap();
    assert_eq!(rate, [0x0A]);
    let duration: [u8; 1] = link.read_register(Register::DUR).ok().unwrap();
    assert_eq!(duration, [50]);
    let failed = link.write_register(Register::POWER_CTL, 0xFF);
    assert!(matches!(failed, Err(TransportError::PinError(PinFault))));
}
