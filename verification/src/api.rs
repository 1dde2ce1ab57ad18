//! Capability contracts: the operations every backend offers for each kind
//! of peripheral, and the failures a guest can be told of.

pub use crate::mock::ops::PinState;
use vstd::prelude::*;

verus! {

/// The closed set of failures a capability operation can report to a guest.
#[derive(Clone, Copy, PartialEq, Eq, Debug, Structural)]
pub enum Error {
    /// A caller-supplied argument fails a precondition.
    InvalidArg,
    /// A backend invariant was violated.
    Unexpected,
    /// The underlying device or library operation failed.
    Failed,
    /// The handle names no open device.
    NoDevice,
}

/// What becomes of the outcome of a device operation: success stays success,
/// and any failure of the device is reported as `Failed`.
pub fn device_outcome(succeeded: bool) -> (r: Result<(), Error>)
    ensures
        r == (if succeeded {
            Ok::<(), Error>(())
        } else {
            Err::<(), Error>(Error::Failed)
        }),
{
    if succeeded {
        Ok(())
    } else {
        Err(Error::Failed)
    }
}

/// Digital input and output lines.
///
/// Each `takes_*` predicate is the condition under which the backend takes
/// the call of that name; a backend says what it is.
pub trait Gpio {
    spec fn takes_init(&self, port: i32, pin: i32, output: bool) -> bool;

    spec fn takes_deinit(&self, handle: i32) -> bool;

    spec fn takes_set(&self, handle: i32, state: PinState) -> bool;

    spec fn takes_get(&self, handle: i32) -> bool;

    /// Opens a line as an input or an output and returns its handle.
    fn init(&mut self, port: i32, pin: i32, output: bool) -> (r: Result<i32, Error>)
        requires
            old(self).takes_init(port, pin, output),
    ;

    /// Releases the line behind `handle`.
    fn deinit(&mut self, handle: i32) -> (r: Result<(), Error>)
        requires
            old(self).takes_deinit(handle),
    ;

    /// Drives the line behind `handle` to `state`.
    fn set(&mut self, handle: i32, state: PinState) -> (r: Result<(), Error>)
        requires
            old(self).takes_set(handle, state),
    ;

    /// Samples the line behind `handle`.
    fn get(&mut self, handle: i32) -> (r: Result<PinState, Error>)
        requires
            old(self).takes_get(handle),
    ;
}

/// I2C buses.
///
/// Each `takes_*` predicate is the condition under which the backend takes
/// the call of that name; a backend says what it is.
pub trait I2c {
    spec fn takes_init(&self, port: u32, baud: u32, sda: i32, scl: i32) -> bool;

    spec fn takes_deinit(&self, handle: i32) -> bool;

    spec fn takes_write(&self, handle: i32, addr: u16, data: Seq<u8>) -> bool;

    spec fn takes_read(&self, handle: i32, addr: u16, len: nat) -> bool;

    spec fn takes_write_read(&self, handle: i32, addr: u16, data: Seq<u8>, len: nat) -> bool;

    /// Opens a bus and returns its handle.
    fn init(&mut self, port: u32, baud: u32, sda: i32, scl: i32) -> (r: Result<i32, Error>)
        requires
            old(self).takes_init(port, baud, sda, scl),
    ;

    /// Releases the bus behind `handle`.
    fn deinit(&mut self, handle: i32) -> (r: Result<(), Error>)
        requires
            old(self).takes_deinit(handle),
    ;

    /// Writes `data` to the device at `addr`.
    fn write(&mut self, handle: i32, addr: u16, data: &[u8]) -> (r: Result<(), Error>)
        requires
            old(self).takes_write(handle, addr, data@),
    ;

    /// Fills `buff` from the device at `addr`.
    fn read(&mut self, handle: i32, addr: u16, buff: &mut [u8]) -> (r: Result<(), Error>)
        requires
            old(self).takes_read(handle, addr, old(buff)@.len()),
    ;

    /// Writes `data` to the device at `addr`, then fills `buff` from it.
    fn write_read(&mut self, handle: i32, addr: u16, data: &[u8], buff: &mut [u8]) -> (r: Result<
        (),
        Error,
    >)
        requires
            old(self).takes_write_read(handle, addr, data@, old(buff)@.len()),
    ;
}

/// SPI buses.
///
/// Each `takes_*` predicate is the condition under which the backend takes
/// the call of that name; a backend says what it is.
pub trait Spi {
    spec fn takes_init(&self, port: u32, baud: u32, mosi: i32, miso: i32, sck: i32, cs: i32) -> bool;

    spec fn takes_deinit(&self, handle: i32) -> bool;

    spec fn takes_read(&self, handle: i32, len: nat) -> bool;

    spec fn takes_write(&self, handle: i32, data: Seq<u8>) -> bool;

    spec fn takes_transfer_inplace(&self, handle: i32, data: Seq<u8>) -> bool;

    spec fn takes_transfer(&self, handle: i32, len: nat, write: Seq<u8>) -> bool;

    /// Opens a bus and returns its handle.
    fn init(&mut self, port: u32, baud: u32, mosi: i32, miso: i32, sck: i32, cs: i32) -> (r: Result<
        i32,
        Error,
    >)
        requires
            old(self).takes_init(port, baud, mosi, miso, sck, cs),
    ;

    /// Releases the bus behind `handle`.
    fn deinit(&mut self, handle: i32) -> (r: Result<(), Error>)
        requires
            old(self).takes_deinit(handle),
    ;

    /// Fills `data` from the bus.
    fn read(&mut self, handle: i32, data: &mut [u8]) -> (r: Result<(), Error>)
        requires
            old(self).takes_read(handle, old(data)@.len()),
    ;

    /// Writes `data` to the bus.
    fn write(&mut self, handle: i32, data: &[u8]) -> (r: Result<(), Error>)
        requires
            old(self).takes_write(handle, data@),
    ;

    /// Writes `data` to the bus and replaces it with what came back.
    fn transfer_inplace(&mut self, handle: i32, data: &mut [u8]) -> (r: Result<(), Error>)
        requires
            old(self).takes_transfer_inplace(handle, old(data)@),
    ;

    /// Writes `write` to the bus and fills `read` with what came back.
    fn transfer(&mut self, handle: i32, read: &mut [u8], write: &[u8]) -> (r: Result<(), Error>)
        requires
            old(self).takes_transfer(handle, old(read)@.len(), write@),
    ;
}

/// Serial ports.
///
/// Each `takes_*` predicate is the condition under which the backend takes
/// the call of that name; a backend says what it is.
pub trait Uart {
    spec fn takes_init(&self, port: u32, baud: u32, tx: i32, rx: i32) -> bool;

    spec fn takes_deinit(&self, handle: i32) -> bool;

    spec fn takes_write(&self, handle: i32, flags: u32, data: Seq<u8>) -> bool;

    spec fn takes_read(&self, handle: i32, flags: u32, len: nat) -> bool;

    /// Opens a port and returns its handle.
    fn init(&mut self, port: u32, baud: u32, tx: i32, rx: i32) -> (r: Result<i32, Error>)
        requires
            old(self).takes_init(port, baud, tx, rx),
    ;

    /// Releases the port behind `handle`.
    fn deinit(&mut self, handle: i32) -> (r: Result<(), Error>)
        requires
            old(self).takes_deinit(handle),
    ;

    /// Sends `data`.
    fn write(&mut self, handle: i32, flags: u32, data: &[u8]) -> (r: Result<(), Error>)
        requires
            old(self).takes_write(handle, flags, data@),
    ;

    /// Fills `buff` with received bytes.
    fn read(&mut self, handle: i32, flags: u32, buff: &mut [u8]) -> (r: Result<(), Error>)
        requires
            old(self).takes_read(handle, flags, old(buff)@.len()),
    ;
}

/// A backend that offers all four capabilities.
pub trait Engine: I2c + Spi + Uart + Gpio {

}

impl<T: I2c + Spi + Uart + Gpio> Engine for T {

}

} // verus!
