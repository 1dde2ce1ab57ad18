//! The backend on operating-system devices, driven with devices that only
//! record what is asked of them.

use wasm_embedded_rt::api::{device_outcome, Error, Gpio, I2c, Spi, Uart};
use wasm_embedded_rt::linux::gpio::{direct_once, drive_once, export_once, pin_line, sample_once, sampled};
use wasm_embedded_rt::linux::i2c;
use wasm_embedded_rt::linux::i2c::bus_address;
use wasm_embedded_rt::linux::path::{i2c_path, spi_path, uart_path};
use wasm_embedded_rt::linux::spi;
use wasm_embedded_rt::linux::spi::{bus_mode, CHIP_SELECT, SPI_MODE_2, SPI_NO_CS};
use wasm_embedded_rt::linux::uart::{ask, offer, receive_all, send_all};
use wasm_embedded_rt::linux::{GpioPin, I2cBus, LinuxCtx, Registry, SerialPort, SpiBus};
use wasm_embedded_rt::mock::PinState;

#[derive(Debug, PartialEq)]
struct FakePin {
    number: u64,
    exported: bool,
    output: Option<bool>,
    high: bool,
    broken: bool,
}

impl GpioPin for FakePin {
    fn new(number: u64) -> Self {
        FakePin { number, exported: false, output: None, high: false, broken: false }
    }

    fn export(&mut self) -> bool {
        self.exported = self.number != 13;
        self.exported
    }

    fn set_direction(&mut self, output: bool) -> bool {
        if self.number == 14 {
            return false;
        }
        self.output = Some(output);
        true
    }

    fn set_state(&mut self, state: PinState) -> bool {
        if self.broken {
            return false;
        }
        self.high = state == PinState::High;
        true
    }

    fn is_high(&mut self) -> Option<bool> {
        if self.broken {
            None
        } else {
            Some(self.high)
        }
    }
}

#[derive(Debug, PartialEq)]
struct FakeI2c {
    path: String,
    written: Vec<(u8, Vec<u8>)>,
    broken: bool,
}

impl I2cBus for FakeI2c {
    fn open(path: &str) -> Option<Self> {
        if path.ends_with("-9") {
            None
        } else {
            Some(FakeI2c { path: path.to_string(), written: Vec::new(), broken: false })
        }
    }

    fn write(&mut self, addr: u8, data: &[u8]) -> bool {
        if self.broken {
            return false;
        }
        self.written.push((addr, data.to_vec()));
        true
    }

    fn read(&mut self, addr: u8, buff: &mut [u8]) -> bool {
        if self.broken {
            return false;
        }
        buff.fill(addr);
        true
    }

    fn write_read(&mut self, addr: u8, data: &[u8], buff: &mut [u8]) -> bool {
        self.write(addr, data) && self.read(addr, buff)
    }
}

#[derive(Debug, PartialEq)]
struct FakeSpi {
    path: String,
    speed: u32,
    mode: u32,
    written: Vec<u8>,
    broken: bool,
}

impl SpiBus for FakeSpi {
    fn open(path: &str) -> Option<Self> {
        if path.contains("spidev9.") {
            None
        } else {
            Some(FakeSpi { path: path.to_string(), speed: 0, mode: 0, written: Vec::new(), broken: false })
        }
    }

    fn configure(&mut self, max_speed_hz: u32, mode: u32) -> bool {
        if max_speed_hz == 0 {
            return false;
        }
        self.speed = max_speed_hz;
        self.mode = mode;
        true
    }

    fn write(&mut self, data: &[u8]) -> bool {
        if self.broken {
            return false;
        }
        self.written.extend_from_slice(data);
        true
    }

    fn read(&mut self, data: &mut [u8]) -> bool {
        if self.broken {
            return false;
        }
        data.fill(0x5A);
        true
    }

    fn transfer_in_place(&mut self, data: &mut [u8]) -> bool {
        if self.broken {
            return false;
        }
        self.written.extend_from_slice(data);
        for byte in data.iter_mut() {
            *byte = !*byte;
        }
        true
    }

    fn transfer(&mut self, read: &mut [u8], write: &[u8]) -> bool {
        if self.broken {
            return false;
        }
        self.written.extend_from_slice(write);
        read.fill(write.len() as u8);
        true
    }
}

#[derive(Debug, PartialEq)]
struct FakeUart {
    path: String,
    baud: u32,
    sent: Vec<u8>,
    incoming: Vec<u8>,
}

impl SerialPort for FakeUart {
    fn open(path: &str, baud: u32) -> Option<Self> {
        if path.ends_with("tty9") {
            None
        } else {
            Some(FakeUart { path: path.to_string(), baud, sent: Vec::new(), incoming: Vec::new() })
        }
    }

    fn write_byte(&mut self, byte: u8) -> bool {
        if byte == 0xFF {
            return false;
        }
        self.sent.push(byte);
        true
    }

    fn read_byte(&mut self) -> Option<u8> {
        if self.incoming.is_empty() {
            None
        } else {
            Some(self.incoming.remove(0))
        }
    }
}

type Ctx = LinuxCtx<FakePin, FakeI2c, FakeSpi, FakeUart>;

#[test]
fn new_context_has_no_open_device() {
    let ctx = Ctx::new();
    assert_eq!(ctx.gpio.len(), 0);
    assert_eq!(ctx.i2c.len(), 0);
    assert_eq!(ctx.spi.len(), 0);
    assert_eq!(ctx.uart.len(), 0);
    assert!(!ctx.gpio.contains(0));
}

#[test]
fn gpio_handles_start_at_zero_and_increase() {
    let mut ctx = Ctx::new();
    assert_eq!(Gpio::init(&mut ctx, 0, 4, true), Ok(0));
    assert_eq!(Gpio::init(&mut ctx, 0, 5, false), Ok(1));
    assert_eq!(Gpio::init(&mut ctx, 7, 6, true), Ok(2));
    assert_eq!(ctx.gpio.len(), 3);
}

#[test]
fn gpio_handles_are_not_reused_after_deinit() {
    let mut ctx = Ctx::new();
    assert_eq!(Gpio::init(&mut ctx, 0, 4, true), Ok(0));
    assert_eq!(Gpio::deinit(&mut ctx, 0), Ok(()));
    assert_eq!(Gpio::init(&mut ctx, 0, 4, true), Ok(1));
    assert_eq!(Gpio::deinit(&mut ctx, 1), Ok(()));
    assert_eq!(Gpio::init(&mut ctx, 0, 4, true), Ok(2));
    assert!(!ctx.gpio.contains(0));
    assert!(!ctx.gpio.contains(1));
    assert!(ctx.gpio.contains(2));
}

#[test]
fn gpio_failed_open_reports_failed_and_spends_the_handle() {
    let mut ctx = Ctx::new();
    // line 13 cannot be exported, line 14 takes no direction
    assert_eq!(Gpio::init(&mut ctx, 0, 13, true), Err(Error::Failed));
    assert_eq!(Gpio::init(&mut ctx, 0, 14, true), Err(Error::Failed));
    assert_eq!(ctx.gpio.len(), 0);
    assert_eq!(Gpio::init(&mut ctx, 0, 4, true), Ok(2));
}

#[test]
fn gpio_init_exports_and_sets_the_direction() {
    let mut ctx = Ctx::new();
    assert_eq!(Gpio::init(&mut ctx, 3, 21, true), Ok(0));
    assert_eq!(Gpio::init(&mut ctx, 3, 22, false), Ok(1));
    assert_eq!(
        ctx.gpio.lookup(0),
        Some(&FakePin { number: 21, exported: true, output: Some(true), high: false, broken: false })
    );
    assert_eq!(
        ctx.gpio.lookup(1),
        Some(&FakePin { number: 22, exported: true, output: Some(false), high: false, broken: false })
    );
}

#[test]
fn gpio_set_then_get() {
    let mut ctx = Ctx::new();
    assert_eq!(Gpio::init(&mut ctx, 0, 4, true), Ok(0));
    assert_eq!(Gpio::get(&mut ctx, 0), Ok(PinState::Low));
    assert_eq!(Gpio::set(&mut ctx, 0, PinState::High), Ok(()));
    assert_eq!(Gpio::get(&mut ctx, 0), Ok(PinState::High));
    assert_eq!(Gpio::set(&mut ctx, 0, PinState::Low), Ok(()));
    assert_eq!(Gpio::get(&mut ctx, 0), Ok(PinState::Low));
}

#[test]
fn gpio_unknown_handle_is_no_device() {
    let mut ctx = Ctx::new();
    assert_eq!(Gpio::set(&mut ctx, 0, PinState::High), Err(Error::NoDevice));
    assert_eq!(Gpio::get(&mut ctx, 0), Err(Error::NoDevice));
    assert_eq!(Gpio::deinit(&mut ctx, 0), Err(Error::NoDevice));
    assert_eq!(Gpio::init(&mut ctx, 0, 4, true), Ok(0));
    assert_eq!(Gpio::set(&mut ctx, 1, PinState::High), Err(Error::NoDevice));
    assert_eq!(Gpio::get(&mut ctx, -1), Err(Error::NoDevice));
    assert_eq!(Gpio::deinit(&mut ctx, 1), Err(Error::NoDevice));
    assert_eq!(ctx.gpio.len(), 1);
}

#[test]
fn gpio_second_deinit_is_no_device() {
    let mut ctx = Ctx::new();
    assert_eq!(Gpio::init(&mut ctx, 0, 4, true), Ok(0));
    assert_eq!(Gpio::deinit(&mut ctx, 0), Ok(()));
    assert_eq!(Gpio::deinit(&mut ctx, 0), Err(Error::NoDevice));
    assert_eq!(Gpio::set(&mut ctx, 0, PinState::High), Err(Error::NoDevice));
}

#[test]
fn gpio_device_failure_is_failed() {
    let mut ctx = Ctx::new();
    assert_eq!(Gpio::init(&mut ctx, 0, 4, true), Ok(0));
    ctx.gpio.lookup_mut(0).unwrap().broken = true;
    assert_eq!(Gpio::set(&mut ctx, 0, PinState::High), Err(Error::Failed));
    assert_eq!(Gpio::get(&mut ctx, 0), Err(Error::Failed));
    // the device stays open
    assert!(ctx.gpio.contains(0));
}

#[test]
fn each_kind_of_peripheral_counts_its_own_handles() {
    let mut ctx = Ctx::new();
    assert_eq!(Gpio::init(&mut ctx, 0, 4, true), Ok(0));
    assert_eq!(Gpio::init(&mut ctx, 0, 5, true), Ok(1));
    assert_eq!(I2c::init(&mut ctx, 1, 100_000, 2, 3), Ok(0));
    assert_eq!(Spi::init(&mut ctx, 0, 1_000_000, 0, 0, 0, 0), Ok(0));
    assert_eq!(Uart::init(&mut ctx, 2, 9600, 0, 0), Ok(0));
    assert_eq!(I2c::deinit(&mut ctx, 1), Err(Error::NoDevice));
    assert_eq!(Gpio::deinit(&mut ctx, 1), Ok(()));
    assert!(ctx.i2c.contains(0));
}

#[test]
fn negative_pin_is_read_as_unsigned() {
    assert_eq!(pin_line(0), 0);
    assert_eq!(pin_line(17), 17);
    assert_eq!(pin_line(i32::MAX), 0x7FFF_FFFF);
    assert_eq!(pin_line(-1), u64::MAX);
    assert_eq!(pin_line(-2), u64::MAX - 1);
    assert_eq!(pin_line(i32::MIN), 0xFFFF_FFFF_8000_0000);
    let mut ctx = Ctx::new();
    assert_eq!(Gpio::init(&mut ctx, 0, -1, true), Ok(0));
    assert_eq!(ctx.gpio.lookup(0).unwrap().number, u64::MAX);
}

#[test]
fn sampled_level_becomes_a_state() {
    assert_eq!(sampled(Some(true)), Ok(PinState::High));
    assert_eq!(sampled(Some(false)), Ok(PinState::Low));
    assert_eq!(sampled(None), Err(Error::Failed));
}

#[test]
fn device_outcome_maps_failure_to_failed() {
    assert_eq!(device_outcome(true), Ok(()));
    assert_eq!(device_outcome(false), Err(Error::Failed));
}

#[test]
fn device_paths() {
    assert_eq!(i2c_path(0), "/dev/i2c-0");
    assert_eq!(i2c_path(3), "/dev/i2c-3");
    assert_eq!(i2c_path(10), "/dev/i2c-10");
    assert_eq!(i2c_path(u32::MAX), "/dev/i2c-4294967295");
    assert_eq!(spi_path(1, 0), "/dev/spidev1.0");
    assert_eq!(spi_path(12, 34), "/dev/spidev12.34");
    assert_eq!(uart_path(2), "/dev/tty2");
    assert_eq!(uart_path(100), "/dev/tty100");
}

#[test]
fn i2c_init_opens_the_bus_by_its_number() {
    let mut ctx = Ctx::new();
    assert_eq!(I2c::init(&mut ctx, 3, 400_000, 1, 2), Ok(0));
    assert_eq!(ctx.i2c.lookup(0).unwrap().path, "/dev/i2c-3");
    // bus 9 cannot be opened
    assert_eq!(I2c::init(&mut ctx, 9, 400_000, 1, 2), Err(Error::Failed));
    assert_eq!(I2c::init(&mut ctx, 12, 400_000, 1, 2), Ok(2));
    assert_eq!(ctx.i2c.lookup(2).unwrap().path, "/dev/i2c-12");
    assert_eq!(ctx.i2c.len(), 2);
}

#[test]
fn i2c_transfers_use_the_low_byte_of_the_address() {
    assert_eq!(bus_address(0x50), 0x50);
    assert_eq!(bus_address(0x150), 0x50);
    assert_eq!(bus_address(0xFFFF), 0xFF);
    let mut ctx = Ctx::new();
    assert_eq!(I2c::init(&mut ctx, 1, 0, 0, 0), Ok(0));
    assert_eq!(I2c::write(&mut ctx, 0, 0x150, &[1, 2]), Ok(()));
    let mut buff = [0u8; 3];
    assert_eq!(I2c::read(&mut ctx, 0, 0x23, &mut buff), Ok(()));
    assert_eq!(buff, [0x23; 3]);
    let mut buff = [0u8; 2];
    assert_eq!(I2c::write_read(&mut ctx, 0, 0x24, &[9], &mut buff), Ok(()));
    assert_eq!(buff, [0x24; 2]);
    assert_eq!(ctx.i2c.lookup(0).unwrap().written, vec![(0x50, vec![1, 2]), (0x24, vec![9])]);
}

#[test]
fn i2c_unknown_handle_is_no_device_and_leaves_the_buffer() {
    let mut ctx = Ctx::new();
    let mut buff = [7u8; 2];
    assert_eq!(I2c::write(&mut ctx, 0, 0x50, &[1]), Err(Error::NoDevice));
    assert_eq!(I2c::read(&mut ctx, 0, 0x50, &mut buff), Err(Error::NoDevice));
    assert_eq!(I2c::write_read(&mut ctx, 0, 0x50, &[1], &mut buff), Err(Error::NoDevice));
    assert_eq!(I2c::deinit(&mut ctx, 0), Err(Error::NoDevice));
    assert_eq!(buff, [7, 7]);
}

#[test]
fn i2c_second_deinit_is_no_device() {
    let mut ctx = Ctx::new();
    assert_eq!(I2c::init(&mut ctx, 1, 0, 0, 0), Ok(0));
    assert_eq!(I2c::deinit(&mut ctx, 0), Ok(()));
    assert_eq!(I2c::deinit(&mut ctx, 0), Err(Error::NoDevice));
}

#[test]
fn i2c_device_failure_is_failed() {
    let mut ctx = Ctx::new();
    assert_eq!(I2c::init(&mut ctx, 1, 0, 0, 0), Ok(0));
    ctx.i2c.lookup_mut(0).unwrap().broken = true;
    let mut buff = [0u8; 1];
    assert_eq!(I2c::write(&mut ctx, 0, 0x50, &[1]), Err(Error::Failed));
    assert_eq!(I2c::read(&mut ctx, 0, 0x50, &mut buff), Err(Error::Failed));
    assert_eq!(I2c::write_read(&mut ctx, 0, 0x50, &[1], &mut buff), Err(Error::Failed));
}

#[test]
fn spi_mode_flags() {
    assert_eq!(SPI_MODE_2, 0x02);
    assert_eq!(SPI_NO_CS, 0x40);
    assert_eq!(CHIP_SELECT, 0);
    assert_eq!(bus_mode(), 0x42);
}

#[test]
fn spi_init_opens_and_configures_the_bus() {
    let mut ctx = Ctx::new();
    assert_eq!(Spi::init(&mut ctx, 1, 2_000_000, 0, 0, 0, 5), Ok(0));
    let bus = ctx.spi.lookup(0).unwrap();
    assert_eq!(bus.path, "/dev/spidev1.0");
    assert_eq!(bus.speed, 2_000_000);
    assert_eq!(bus.mode, 0x42);
    // bus 9 cannot be opened; a rate of zero cannot be configured
    assert_eq!(Spi::init(&mut ctx, 9, 2_000_000, 0, 0, 0, 0), Err(Error::Failed));
    assert_eq!(Spi::init(&mut ctx, 1, 0, 0, 0, 0, 0), Err(Error::Failed));
    assert_eq!(Spi::init(&mut ctx, 2, 1, 0, 0, 0, 0), Ok(3));
    assert_eq!(ctx.spi.len(), 2);
}

#[test]
fn spi_transfers_reach_the_bus() {
    let mut ctx = Ctx::new();
    assert_eq!(Spi::init(&mut ctx, 0, 1, 0, 0, 0, 0), Ok(0));
    assert_eq!(Spi::write(&mut ctx, 0, &[1, 2]), Ok(()));
    let mut data = [0u8; 2];
    assert_eq!(Spi::read(&mut ctx, 0, &mut data), Ok(()));
    assert_eq!(data, [0x5A, 0x5A]);
    let mut both = [0x0F, 0xF0];
    assert_eq!(Spi::transfer_inplace(&mut ctx, 0, &mut both), Ok(()));
    assert_eq!(both, [0xF0, 0x0F]);
    let mut read = [0u8; 3];
    assert_eq!(Spi::transfer(&mut ctx, 0, &mut read, &[7, 8, 9, 10]), Ok(()));
    assert_eq!(read, [4, 4, 4]);
    assert_eq!(ctx.spi.lookup(0).unwrap().written, vec![1, 2, 0x0F, 0xF0, 7, 8, 9, 10]);
}

#[test]
fn spi_unknown_handle_is_no_device_and_leaves_the_buffer() {
    let mut ctx = Ctx::new();
    let mut data = [3u8; 2];
    assert_eq!(Spi::write(&mut ctx, 4, &[1]), Err(Error::NoDevice));
    assert_eq!(Spi::read(&mut ctx, 4, &mut data), Err(Error::NoDevice));
    assert_eq!(Spi::transfer_inplace(&mut ctx, 4, &mut data), Err(Error::NoDevice));
    assert_eq!(Spi::transfer(&mut ctx, 4, &mut data, &[1]), Err(Error::NoDevice));
    assert_eq!(Spi::deinit(&mut ctx, 4), Err(Error::NoDevice));
    assert_eq!(data, [3, 3]);
}

#[test]
fn spi_second_deinit_is_no_device() {
    let mut ctx = Ctx::new();
    assert_eq!(Spi::init(&mut ctx, 0, 1, 0, 0, 0, 0), Ok(0));
    assert_eq!(Spi::deinit(&mut ctx, 0), Ok(()));
    assert_eq!(Spi::deinit(&mut ctx, 0), Err(Error::NoDevice));
}

#[test]
fn spi_device_failure_is_failed() {
    let mut ctx = Ctx::new();
    assert_eq!(Spi::init(&mut ctx, 0, 1, 0, 0, 0, 0), Ok(0));
    ctx.spi.lookup_mut(0).unwrap().broken = true;
    let mut data = [0u8; 1];
    assert_eq!(Spi::write(&mut ctx, 0, &[1]), Err(Error::Failed));
    assert_eq!(Spi::read(&mut ctx, 0, &mut data), Err(Error::Failed));
    assert_eq!(Spi::transfer_inplace(&mut ctx, 0, &mut data), Err(Error::Failed));
    assert_eq!(Spi::transfer(&mut ctx, 0, &mut data, &[1]), Err(Error::Failed));
}

#[test]
fn uart_init_opens_the_port_by_its_number() {
    let mut ctx = Ctx::new();
    assert_eq!(Uart::init(&mut ctx, 2, 115_200, 0, 0), Ok(0));
    let port = ctx.uart.lookup(0).unwrap();
    assert_eq!(port.path, "/dev/tty2");
    assert_eq!(port.baud, 115_200);
    assert_eq!(Uart::init(&mut ctx, 9, 115_200, 0, 0), Err(Error::Failed));
    assert_eq!(Uart::init(&mut ctx, 0, 9600, 0, 0), Ok(2));
}

#[test]
fn uart_writes_byte_by_byte_in_order() {
    let mut ctx = Ctx::new();
    assert_eq!(Uart::init(&mut ctx, 2, 9600, 0, 0), Ok(0));
    assert_eq!(Uart::write(&mut ctx, 0, 0, b"hello"), Ok(()));
    assert_eq!(Uart::write(&mut ctx, 0, 0, &[]), Ok(()));
    assert_eq!(ctx.uart.lookup(0).unwrap().sent, b"hello".to_vec());
}

#[test]
fn uart_write_stops_at_the_first_refused_byte() {
    let mut ctx = Ctx::new();
    assert_eq!(Uart::init(&mut ctx, 2, 9600, 0, 0), Ok(0));
    assert_eq!(Uart::write(&mut ctx, 0, 0, &[1, 2, 0xFF, 4]), Err(Error::Failed));
    assert_eq!(ctx.uart.lookup(0).unwrap().sent, vec![1, 2]);
}

#[test]
fn uart_reads_byte_by_byte() {
    let mut ctx = Ctx::new();
    assert_eq!(Uart::init(&mut ctx, 2, 9600, 0, 0), Ok(0));
    ctx.uart.lookup_mut(0).unwrap().incoming = vec![10, 20, 30, 40];
    let mut buff = [0u8; 3];
    assert_eq!(Uart::read(&mut ctx, 0, 0, &mut buff), Ok(()));
    assert_eq!(buff, [10, 20, 30]);
    // one byte is left: a buffer of two cannot be filled
    let mut buff = [0u8; 2];
    assert_eq!(Uart::read(&mut ctx, 0, 0, &mut buff), Err(Error::Failed));
    assert_eq!(buff, [40, 0]);
    let mut none = [0u8; 0];
    assert_eq!(Uart::read(&mut ctx, 0, 0, &mut none), Ok(()));
}

#[test]
fn uart_unknown_handle_is_no_device_and_leaves_the_buffer() {
    let mut ctx = Ctx::new();
    let mut buff = [5u8; 2];
    assert_eq!(Uart::write(&mut ctx, 0, 0, &[1]), Err(Error::NoDevice));
    assert_eq!(Uart::write(&mut ctx, 0, 0, &[]), Err(Error::NoDevice));
    assert_eq!(Uart::read(&mut ctx, 0, 0, &mut buff), Err(Error::NoDevice));
    assert_eq!(Uart::deinit(&mut ctx, 0), Err(Error::NoDevice));
    assert_eq!(buff, [5, 5]);
}

#[test]
fn uart_second_deinit_is_no_device() {
    let mut ctx = Ctx::new();
    assert_eq!(Uart::init(&mut ctx, 2, 9600, 0, 0), Ok(0));
    assert_eq!(Uart::deinit(&mut ctx, 0), Ok(()));
    assert_eq!(Uart::deinit(&mut ctx, 0), Err(Error::NoDevice));
}

#[test]
fn send_all_and_receive_all() {
    let mut port = FakeUart::open("/dev/tty0", 9600).unwrap();
    assert!(send_all(&mut port, &[]));
    assert!(send_all(&mut port, &[1, 2, 3]));
    assert!(!send_all(&mut port, &[4, 0xFF, 5]));
    assert_eq!(port.sent, vec![1, 2, 3, 4]);
    port.incoming = vec![9, 8];
    let mut buff = [0u8; 2];
    assert!(receive_all(&mut port, &mut buff));
    assert_eq!(buff, [9, 8]);
    assert!(!receive_all(&mut port, &mut buff));
    assert_eq!(buff, [9, 8]);
}

#[test]
fn registry_allocates_from_zero_without_reuse() {
    let mut table: Registry<&str> = Registry::new();
    assert_eq!(table.len(), 0);
    assert_eq!(table.allocate(), Some(0));
    assert_eq!(table.allocate(), Some(1));
    assert_eq!(table.insert(1, "one"), None);
    assert_eq!(table.insert(0, "zero"), None);
    assert_eq!(table.remove(0), Some("zero"));
    assert_eq!(table.remove(1), Some("one"));
    assert_eq!(table.allocate(), Some(2));
    assert_eq!(table.len(), 0);
}

#[test]
fn registry_takes_only_issued_handles_that_are_not_open() {
    let mut table: Registry<u8> = Registry::new();
    // nothing was issued yet
    assert_eq!(table.insert(0, 1), Some(1));
    assert_eq!(table.insert(-1, 1), Some(1));
    assert_eq!(table.allocate(), Some(0));
    assert_eq!(table.insert(1, 2), Some(2));
    assert_eq!(table.insert(0, 3), None);
    // already open
    assert_eq!(table.insert(0, 4), Some(4));
    assert_eq!(table.lookup(0), Some(&3));
    assert_eq!(table.len(), 1);
}

#[test]
fn registry_lookup_and_remove() {
    let mut table: Registry<u8> = Registry::new();
    let a = table.allocate().unwrap();
    let b = table.allocate().unwrap();
    let c = table.allocate().unwrap();
    assert_eq!(table.insert(a, 10), None);
    assert_eq!(table.insert(b, 20), None);
    assert_eq!(table.insert(c, 30), None);
    assert!(table.contains(b));
    assert_eq!(table.lookup(b), Some(&20));
    *table.lookup_mut(b).unwrap() = 21;
    assert_eq!(table.lookup(b), Some(&21));
    assert_eq!(table.remove(b), Some(21));
    assert_eq!(table.remove(b), None);
    assert!(!table.contains(b));
    assert_eq!(table.lookup(b), None);
    assert!(table.lookup_mut(b).is_none());
    assert_eq!(table.lookup(a), Some(&10));
    assert_eq!(table.lookup(c), Some(&30));
    assert_eq!(table.len(), 2);
}

#[test]
fn a_line_is_asked_once_for_each_step() {
    let mut line = FakePin::new(4);
    assert!(export_once(&mut line).0);
    assert!(direct_once(&mut line, true).0);
    assert_eq!(line, FakePin { number: 4, exported: true, output: Some(true), high: false, broken: false });
    assert!(drive_once(&mut line, PinState::High).0);
    assert_eq!(sample_once(&mut line).0, Some(true));
    line.broken = true;
    assert!(!drive_once(&mut line, PinState::Low).0);
    assert_eq!(sample_once(&mut line).0, None);
    let mut refusing = FakePin::new(13);
    assert!(!export_once(&mut refusing).0);
}

#[test]
fn a_port_is_asked_once_for_each_byte() {
    let mut port = FakeUart::open("/dev/tty0", 9600).unwrap();
    assert!(offer(&mut port, 1).0);
    assert!(!offer(&mut port, 0xFF).0);
    assert!(offer(&mut port, 2).0);
    assert_eq!(port.sent, vec![1, 2]);
    port.incoming = vec![5, 6];
    assert_eq!(ask(&mut port).0, Some(5));
    assert_eq!(ask(&mut port).0, Some(6));
    assert_eq!(ask(&mut port).0, None);
}

#[test]
fn an_i2c_bus_is_asked_once_for_each_transfer() {
    let mut bus = FakeI2c::open("/dev/i2c-1").unwrap();
    assert!(i2c::write_once(&mut bus, 0x20, &[1, 2]).0);
    let mut buff = [0u8; 2];
    assert!(i2c::read_once(&mut bus, 0x21, &mut buff).0);
    assert_eq!(buff, [0x21, 0x21]);
    assert!(i2c::write_read_once(&mut bus, 0x22, &[3], &mut buff).0);
    assert_eq!(buff, [0x22, 0x22]);
    assert_eq!(bus.written, vec![(0x20, vec![1, 2]), (0x22, vec![3])]);
    bus.broken = true;
    assert!(!i2c::write_once(&mut bus, 0x20, &[1]).0);
}

#[test]
fn an_spi_bus_is_asked_once_for_each_transfer() {
    let mut bus = FakeSpi::open("/dev/spidev0.0").unwrap();
    assert!(!spi::configure_once(&mut bus, 0, 0x42).0);
    assert!(spi::configure_once(&mut bus, 100, 0x42).0);
    assert_eq!((bus.speed, bus.mode), (100, 0x42));
    assert!(spi::write_once(&mut bus, &[1]).0);
    let mut data = [0u8; 1];
    assert!(spi::read_once(&mut bus, &mut data).0);
    assert_eq!(data, [0x5A]);
    let mut both = [0x0Fu8];
    assert!(spi::transfer_in_place_once(&mut bus, &mut both).0);
    assert_eq!(both, [0xF0]);
    let mut read = [0u8; 2];
    assert!(spi::transfer_once(&mut bus, &mut read, &[7, 8, 9]).0);
    assert_eq!(read, [3, 3]);
    assert_eq!(bus.written, vec![1, 0x0F, 7, 8, 9]);
}
