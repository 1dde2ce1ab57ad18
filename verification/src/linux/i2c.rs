//! I2C through bus character devices.

use super::path::{i2c_path, spec_i2c_path};
use super::{handle_spent, only_device_touched, opened, release_outcome, untouched, LinuxCtx};
use crate::api::{device_outcome, Error, I2c};
use vstd::prelude::*;

verus! {

/// What the backend needs of an I2C bus of the operating system. Each
/// transfer reports whether the system carried it out.
pub trait I2cBus: Sized {
    /// Opens the bus behind the device file `path`.
    fn open(path: &str) -> Option<Self>;

    /// Writes `data` to the device at `addr`.
    fn write(&mut self, addr: u8, data: &[u8]) -> bool;

    /// Fills `buff` from the device at `addr`.
    fn read(&mut self, addr: u8, buff: &mut [u8]) -> bool;

    /// Writes `data` to the device at `addr`, then fills `buff` from it.
    fn write_read(&mut self, addr: u8, data: &[u8], buff: &mut [u8]) -> bool;
}

/// The address a bus is given for `addr`: its low eight bits.
pub open spec fn spec_bus_address(addr: u16) -> u8 {
    (addr % 256) as u8
}

/// Whether `open` may return `bus` for the device file `path`.
pub open spec fn bus_opened<I: I2cBus>(path: &str, bus: Option<I>) -> bool {
    call_ensures(I::open, (path,), bus)
}

/// Whether opening the device file named `name` may give `bus`: whether
/// `open` may return it for that name.
pub open spec fn bus_opens<I: I2cBus>(name: Seq<char>, bus: Option<I>) -> bool {
    exists|path: &str| path@ == name && #[trigger] bus_opened(path, bus)
}

/// Asks the bus once to write `data` to the device at `addr`, and reports
/// its answer together with how the bus stands afterwards.
pub fn write_once<I: I2cBus>(bus: &mut I, addr: u8, data: &[u8]) -> (out: (bool, Ghost<I>))
    ensures
        out.1@ == *final(bus),
        exists|r: &mut I|
            *r == *old(bus) && *final(r) == *final(bus) && #[trigger] call_ensures(
                I::write,
                (r, addr, data),
                out.0,
            ),
{
    let done = bus.write(addr, data);
    let out = (done, Ghost(*bus));
    assert(out.0 == done);
    out
}

/// Asks the bus once to fill `buff` from the device at `addr`, and reports
/// its answer together with how the bus stands and what the buffer holds
/// afterwards.
pub fn read_once<I: I2cBus>(bus: &mut I, addr: u8, buff: &mut [u8]) -> (out: (
    bool,
    Ghost<I>,
    Ghost<Seq<u8>>,
))
    ensures
        out.1@ == *final(bus),
        out.2@ == final(buff)@,
        exists|r: &mut I, b: &mut [u8]|
            *r == *old(bus) && *final(r) == *final(bus) && b@ == old(buff)@ && final(b)@ == final(buff)@ && #[trigger] call_ensures(I::read, (r, addr, b), out.0),
{
    let done = bus.read(addr, buff);
    let out = (done, Ghost(*bus), Ghost(buff@));
    assert(out.0 == done);
    out
}

/// Asks the bus once to write `data` to the device at `addr` and then fill
/// `buff` from it, and reports its answer together with how the bus stands
/// and what the buffer holds afterwards.
pub fn write_read_once<I: I2cBus>(bus: &mut I, addr: u8, data: &[u8], buff: &mut [u8]) -> (out: (
    bool,
    Ghost<I>,
    Ghost<Seq<u8>>,
))
    ensures
        out.1@ == *final(bus),
        out.2@ == final(buff)@,
        exists|r: &mut I, b: &mut [u8]|
            *r == *old(bus) && *final(r) == *final(bus) && b@ == old(buff)@ && final(b)@ == final(buff)@ && #[trigger] call_ensures(I::write_read, (r, addr, data, b), out.0),
{
    let done = bus.write_read(addr, data, buff);
    let out = (done, Ghost(*bus), Ghost(buff@));
    assert(out.0 == done);
    out
}

/// Whether a bus that stands as `before`, asked once to write `data` to the
/// device at `addr`, may answer `done` and stand as `after` afterwards:
/// that is, whether `write_once` may report this.
pub open spec fn write_answer<I: I2cBus>(before: I, addr: u8, data: &[u8], after: I, done: bool) -> bool {
    exists|r: &mut I|
        *r == before && #[trigger] call_ensures(
            write_once::<I>,
            (r, addr, data),
            (done, Ghost(after)),
        )
}

/// Whether a bus that stands as `before`, asked once to fill a buffer that
/// holds `held` from the device at `addr`, may answer `done`, stand as
/// `after` afterwards and leave `got` in the buffer: that is, whether
/// `read_once` may report this.
pub open spec fn read_answer<I: I2cBus>(
    before: I,
    addr: u8,
    held: Seq<u8>,
    after: I,
    got: Seq<u8>,
    done: bool,
) -> bool {
    exists|r: &mut I, b: &mut [u8]|
        *r == before && b@ == held && #[trigger] call_ensures(
            read_once::<I>,
            (r, addr, b),
            (done, Ghost(after), Ghost(got)),
        )
}

/// Whether a bus that stands as `before`, asked once to write `data` to the
/// device at `addr` and then fill a buffer that holds `held` from it, may
/// answer `done`, stand as `after` afterwards and leave `got` in the
/// buffer: that is, whether `write_read_once` may report this.
pub open spec fn write_read_answer<I: I2cBus>(
    before: I,
    addr: u8,
    data: &[u8],
    held: Seq<u8>,
    after: I,
    got: Seq<u8>,
    done: bool,
) -> bool {
    exists|r: &mut I, b: &mut [u8]|
        *r == before && b@ == held && #[trigger] call_ensures(
            write_read_once::<I>,
            (r, addr, data, b),
            (done, Ghost(after), Ghost(got)),
        )
}

/// The address a bus is given for `addr`: its low eight bits.
#[verifier::when_used_as_spec(spec_bus_address)]
pub fn bus_address(addr: u16) -> (r: u8)
    ensures
        r == addr % 256,
        r == spec_bus_address(addr),
{
    (addr % 256) as u8
}

impl<P, I: I2cBus, S, U> I2c for LinuxCtx<P, I, S, U> {
    open spec fn takes_init(&self, port: u32, baud: u32, sda: i32, scl: i32) -> bool {
        self.wf()
    }

    open spec fn takes_deinit(&self, handle: i32) -> bool {
        self.wf()
    }

    open spec fn takes_write(&self, handle: i32, addr: u16, data: Seq<u8>) -> bool {
        self.wf()
    }

    open spec fn takes_read(&self, handle: i32, addr: u16, len: nat) -> bool {
        self.wf()
    }

    open spec fn takes_write_read(&self, handle: i32, addr: u16, data: Seq<u8>, len: nat) -> bool {
        self.wf()
    }

    /// Opens the device file of bus `port`, under a handle that was never
    /// issued before. Rate and pins are not looked at. The handle is used up
    /// even where the bus cannot be opened, which is reported as `Failed`
    /// and is so exactly where opening that file gives no bus; the bus it
    /// gives is the one kept under the handle. `Unexpected` is reported once
    /// no handle is left.
    fn init(&mut self, port: u32, baud: u32, sda: i32, scl: i32) -> (r: Result<i32, Error>)
        ensures
            final(self).wf(),
            final(self).spi == old(self).spi,
            final(self).uart == old(self).uart,
            final(self).gpio == old(self).gpio,
            old(self).i2c.next_handle() >= i32::MAX ==> r == Err::<i32, Error>(Error::Unexpected)
                && untouched(old(self).i2c, final(self).i2c),
            old(self).i2c.next_handle() < i32::MAX ==> match r {
                Ok(handle) => opened(old(self).i2c, final(self).i2c, handle),
                Err(e) => e == Error::Failed && handle_spent(old(self).i2c, final(self).i2c),
            },
            old(self).i2c.next_handle() < i32::MAX ==> match r {
                Ok(handle) => bus_opens(spec_i2c_path(port), Some(final(self).i2c@[handle])),
                Err(_) => bus_opens::<I>(spec_i2c_path(port), None),
            },
    {
        let handle = match self.i2c.allocate() {
            Some(handle) => handle,
            None => {
                return Err(Error::Unexpected);
            },
        };
        let path = i2c_path(port);
        let name = path.as_str();
        let found = I::open(name);
        proof {
            assert(bus_opened(name, found));
            assert(bus_opens(spec_i2c_path(port), found));
        }
        let bus = match found {
            Some(bus) => bus,
            None => {
                return Err(Error::Failed);
            },
        };
        proof {
            old(self).i2c.lemma_next_nonnegative();
            if old(self).i2c@.contains_key(handle) {
                old(self).i2c.lemma_open_below_next(handle);
            }
        }
        match self.i2c.insert(handle, bus) {
            None => {
                assert(self.i2c@.dom() =~= old(self).i2c@.dom().insert(handle));
                Ok(handle)
            },
            Some(_) => Err(Error::Unexpected),
        }
    }

    /// Releases the bus behind `handle`, or reports `NoDevice` where the
    /// handle is not open.
    fn deinit(&mut self, handle: i32) -> (r: Result<(), Error>)
        ensures
            final(self).wf(),
            final(self).spi == old(self).spi,
            final(self).uart == old(self).uart,
            final(self).gpio == old(self).gpio,
            final(self).i2c.next_handle() == old(self).i2c.next_handle(),
            final(self).i2c@ == old(self).i2c@.remove(handle),
            r == release_outcome(old(self).i2c@, handle),
    {
        match self.i2c.remove(handle) {
            Some(_) => Ok(()),
            None => Err(Error::NoDevice),
        }
    }

    /// Writes `data` to the device at the low eight bits of `addr`. Reports
    /// `NoDevice` exactly where the handle is not open, and `Failed` exactly
    /// where the bus behind it, asked once, reports that the transfer failed;
    /// the bus stays under the handle as that one request leaves it.
    fn write(&mut self, handle: i32, addr: u16, data: &[u8]) -> (r: Result<(), Error>)
        ensures
            final(self).wf(),
            final(self).spi == old(self).spi,
            final(self).uart == old(self).uart,
            final(self).gpio == old(self).gpio,
            only_device_touched(old(self).i2c, final(self).i2c, handle),
            !old(self).i2c@.contains_key(handle) ==> r == Err::<(), Error>(Error::NoDevice)
                && final(self).i2c@ == old(self).i2c@,
            old(self).i2c@.contains_key(handle) ==> r is Ok || r == Err::<(), Error>(Error::Failed),
            old(self).i2c@.contains_key(handle) ==> write_answer(
                old(self).i2c@[handle],
                spec_bus_address(addr),
                data,
                final(self).i2c@[handle],
                r is Ok,
            ),
    {
        let r = match self.i2c.lookup_mut(handle) {
            Some(bus) => device_outcome(write_once(bus, bus_address(addr), data).0),
            None => Err(Error::NoDevice),
        };
        assert(self.i2c@.dom() =~= old(self).i2c@.dom());
        r
    }

    /// Fills `buff` from the device at the low eight bits of `addr`. Reports
    /// `NoDevice` exactly where the handle is not open, and then leaves the
    /// buffer as it was; reports `Failed` exactly where the bus behind it,
    /// asked once, reports that the transfer failed. The buffer holds what
    /// the bus left in it, and the bus stays under the handle as that one
    /// request leaves it.
    fn read(&mut self, handle: i32, addr: u16, buff: &mut [u8]) -> (r: Result<(), Error>)
        ensures
            final(self).wf(),
            final(self).spi == old(self).spi,
            final(self).uart == old(self).uart,
            final(self).gpio == old(self).gpio,
            only_device_touched(old(self).i2c, final(self).i2c, handle),
            !old(self).i2c@.contains_key(handle) ==> r == Err::<(), Error>(Error::NoDevice)
                && final(self).i2c@ == old(self).i2c@ && final(buff)@ == old(buff)@,
            old(self).i2c@.contains_key(handle) ==> r is Ok || r == Err::<(), Error>(Error::Failed),
            old(self).i2c@.contains_key(handle) ==> read_answer(
                old(self).i2c@[handle],
                spec_bus_address(addr),
                old(buff)@,
                final(self).i2c@[handle],
                final(buff)@,
                r is Ok,
            ),
    {
        let r = match self.i2c.lookup_mut(handle) {
            Some(bus) => device_outcome(read_once(bus, bus_address(addr), buff).0),
            None => Err(Error::NoDevice),
        };
        assert(self.i2c@.dom() =~= old(self).i2c@.dom());
        r
    }

    /// Writes `data` to the device at the low eight bits of `addr`, then
    /// fills `buff` from it. Reports `NoDevice` exactly where the handle is
    /// not open, and then leaves the buffer as it was; reports `Failed`
    /// exactly where the bus behind it, asked once, reports that the transfer
    /// failed. The buffer holds what the bus left in it, and the bus stays
    /// under the handle as that one request leaves it.
    fn write_read(&mut self, handle: i32, addr: u16, data: &[u8], buff: &mut [u8]) -> (r: Result<
        (),
        Error,
    >)
        ensures
            final(self).wf(),
            final(self).spi == old(self).spi,
            final(self).uart == old(self).uart,
            final(self).gpio == old(self).gpio,
            only_device_touched(old(self).i2c, final(self).i2c, handle),
            !old(self).i2c@.contains_key(handle) ==> r == Err::<(), Error>(Error::NoDevice)
                && final(self).i2c@ == old(self).i2c@ && final(buff)@ == old(buff)@,
            old(self).i2c@.contains_key(handle) ==> r is Ok || r == Err::<(), Error>(Error::Failed),
            old(self).i2c@.contains_key(handle) ==> write_read_answer(
                old(self).i2c@[handle],
                spec_bus_address(addr),
                data,
                old(buff)@,
                final(self).i2c@[handle],
                final(buff)@,
                r is Ok,
            ),
    {
        let r = match self.i2c.lookup_mut(handle) {
            Some(bus) => device_outcome(write_read_once(bus, bus_address(addr), data, buff).0),
            None => Err(Error::NoDevice),
        };
        assert(self.i2c@.dom() =~= old(self).i2c@.dom());
        r
    }
}

} // verus!
