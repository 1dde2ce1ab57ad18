//! Names of the device files that bus and port numbers stand for.

use vstd::prelude::*;

verus! {

/// The character for a decimal digit; meaningful for `d < 10`.
pub open spec fn digit(d: nat) -> char {
    if d == 0 {
        '0'
    } else if d == 1 {
        '1'
    } else if d == 2 {
        '2'
    } else if d == 3 {
        '3'
    } else if d == 4 {
        '4'
    } else if d == 5 {
        '5'
    } else if d == 6 {
        '6'
    } else if d == 7 {
        '7'
    } else if d == 8 {
        '8'
    } else {
        '9'
    }
}

/// The decimal numeral of `n`, without leading zeros.
pub open spec fn decimal(n: nat) -> Seq<char>
    decreases n,
{
    if n < 10 {
        seq![digit(n)]
    } else {
        decimal(n / 10).push(digit(n % 10))
    }
}

/// `format!` with `{}` on a `u32`: `Display` for the integer types writes
/// the number in decimal, with no sign for an unsigned one and no leading
/// zeros.
#[verifier::external_body]
pub(crate) fn decimal_string(n: u32) -> (s: String)
    ensures
        s@ == decimal(n as nat),
{
    format!("{}", n)
}

/// The first string followed by the second.
pub(crate) fn joined(head: &str, tail: &str) -> (s: String)
    ensures
        s@ == head@ + tail@,
{
    String::from_str(head).concat(tail)
}

/// The device file of I2C bus `bus`.
pub open spec fn spec_i2c_path(bus: u32) -> Seq<char> {
    "/dev/i2c-"@ + decimal(bus as nat)
}

/// The device file of chip select `chip_select` on SPI bus `bus`.
pub open spec fn spec_spi_path(bus: u32, chip_select: u32) -> Seq<char> {
    "/dev/spidev"@ + decimal(bus as nat) + "."@ + decimal(chip_select as nat)
}

/// The device file of serial port `port`.
pub open spec fn spec_uart_path(port: u32) -> Seq<char> {
    "/dev/tty"@ + decimal(port as nat)
}

/// The device file of I2C bus `bus`: `/dev/i2c-` and the bus in decimal.
pub fn i2c_path(bus: u32) -> (p: String)
    ensures
        p@ == spec_i2c_path(bus),
{
    let number = decimal_string(bus);
    joined("/dev/i2c-", number.as_str())
}

/// The device file of a chip select on an SPI bus: `/dev/spidev`, the bus
/// in decimal, a dot, and the chip select in decimal.
pub fn spi_path(bus: u32, chip_select: u32) -> (p: String)
    ensures
        p@ == spec_spi_path(bus, chip_select),
{
    let bus_number = decimal_string(bus);
    let select_number = decimal_string(chip_select);
    let stem = joined("/dev/spidev", bus_number.as_str());
    let dotted = joined(stem.as_str(), ".");
    joined(dotted.as_str(), select_number.as_str())
}

/// The device file of serial port `port`: `/dev/tty` and the port in
/// decimal.
pub fn uart_path(port: u32) -> (p: String)
    ensures
        p@ == spec_uart_path(port),
{
    let number = decimal_string(port);
    joined("/dev/tty", number.as_str())
}

} // verus!
