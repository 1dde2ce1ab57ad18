//! SPI through bus character devices.

use super::path::{spec_spi_path, spi_path};
use super::{handle_spent, only_device_touched, opened, release_outcome, untouched, LinuxCtx};
use crate::api::{device_outcome, Error, Spi};
use vstd::prelude::*;

verus! {

/// Clock idles high, data is sampled on the leading edge.
pub const SPI_MODE_2: u32 = 0x02;

/// The device drives no chip-select line of its own.
pub const SPI_NO_CS: u32 = 0x40;

/// The chip select that every bus is opened on.
pub const CHIP_SELECT: u32 = 0;

/// The mode flags every bus is configured with: mode 2, without a
/// chip-select line.
pub fn bus_mode() -> (r: u32)
    ensures
        r == 0x42,
{
    let r: u32 = SPI_MODE_2 | SPI_NO_CS;
    assert(0x02u32 | 0x40u32 == 0x42u32) by (bit_vector);
    r
}

/// What the backend needs of an SPI bus of the operating system. Each
/// operation reports whether the system carried it out.
pub trait SpiBus: Sized {
    /// Opens the bus behind the device file `path`.
    fn open(path: &str) -> Option<Self>;

    /// Sets the highest clock rate and the mode flags.
    fn configure(&mut self, max_speed_hz: u32, mode: u32) -> bool;

    /// Writes `data` to the bus.
    fn write(&mut self, data: &[u8]) -> bool;

    /// Fills `data` from the bus.
    fn read(&mut self, data: &mut [u8]) -> bool;

    /// Writes `data` to the bus and replaces it with what came back.
    fn transfer_in_place(&mut self, data: &mut [u8]) -> bool;

    /// Writes `write` to the bus and fills `read` with what came back.
    fn transfer(&mut self, read: &mut [u8], write: &[u8]) -> bool;
}

/// Whether `open` may return `bus` for the device file `path`.
pub open spec fn bus_opened<S: SpiBus>(path: &str, bus: Option<S>) -> bool {
    call_ensures(S::open, (path,), bus)
}

/// Asks the bus once to take the rate `max_speed_hz` and the mode flags
/// `mode`, and reports its answer together with how the bus stands
/// afterwards.
pub fn configure_once<S: SpiBus>(bus: &mut S, max_speed_hz: u32, mode: u32) -> (out: (bool, Ghost<S>))
    ensures
        out.1@ == *final(bus),
        exists|r: &mut S|
            *r == *old(bus) && *final(r) == *final(bus) && #[trigger] call_ensures(
                S::configure,
                (r, max_speed_hz, mode),
                out.0,
            ),
{
    let done = bus.configure(max_speed_hz, mode);
    let out = (done, Ghost(*bus));
    assert(out.0 == done);
    out
}

/// Asks the bus once to write `data`, and reports its answer together with
/// how the bus stands afterwards.
pub fn write_once<S: SpiBus>(bus: &mut S, data: &[u8]) -> (out: (bool, Ghost<S>))
    ensures
        out.1@ == *final(bus),
        exists|r: &mut S|
            *r == *old(bus) && *final(r) == *final(bus) && #[trigger] call_ensures(
                S::write,
                (r, data),
                out.0,
            ),
{
    let done = bus.write(data);
    let out = (done, Ghost(*bus));
    assert(out.0 == done);
    out
}

/// Asks the bus once to fill `data`, and reports its answer together with
/// how the bus stands and what the buffer holds afterwards.
pub fn read_once<S: SpiBus>(bus: &mut S, data: &mut [u8]) -> (out: (bool, Ghost<S>, Ghost<Seq<u8>>))
    ensures
        out.1@ == *final(bus),
        out.2@ == final(data)@,
        exists|r: &mut S, b: &mut [u8]|
            *r == *old(bus) && *final(r) == *final(bus) && b@ == old(data)@ && final(b)@
                == final(data)@ && #[trigger] call_ensures(S::read, (r, b), out.0),
{
    let done = bus.read(data);
    let out = (done, Ghost(*bus), Ghost(data@));
    assert(out.0 == done);
    out
}

/// Asks the bus once to write `data` and replace it with what comes back,
/// and reports its answer together with how the bus stands and what the
/// buffer holds afterwards.
pub fn transfer_in_place_once<S: SpiBus>(bus: &mut S, data: &mut [u8]) -> (out: (bool, Ghost<S>, Ghost<Seq<u8>>))
    ensures
        out.1@ == *final(bus),
        out.2@ == final(data)@,
        exists|r: &mut S, b: &mut [u8]|
            *r == *old(bus) && *final(r) == *final(bus) && b@ == old(data)@ && final(b)@
                == final(data)@ && #[trigger] call_ensures(S::transfer_in_place, (r, b), out.0),
{
    let done = bus.transfer_in_place(data);
    let out = (done, Ghost(*bus), Ghost(data@));
    assert(out.0 == done);
    out
}

/// Asks the bus once to write `write` and fill `read` with what comes back,
/// and reports its answer together with how the bus stands and what the
/// buffer holds afterwards.
pub fn transfer_once<S: SpiBus>(bus: &mut S, read: &mut [u8], write: &[u8]) -> (out: (bool, Ghost<S>, Ghost<Seq<u8>>))
    ensures
        out.1@ == *final(bus),
        out.2@ == final(read)@,
        exists|r: &mut S, b: &mut [u8]|
            *r == *old(bus) && *final(r) == *final(bus) && b@ == old(read)@ && final(b)@
                == final(read)@ && #[trigger] call_ensures(S::transfer, (r, b, write), out.0),
{
    let done = bus.transfer(read, write);
    let out = (done, Ghost(*bus), Ghost(read@));
    assert(out.0 == done);
    out
}

/// Whether a bus that stands as `before`, asked once to take the rate
/// `max_speed_hz` and the mode flags `mode`, may answer `done` and stand as
/// `after` afterwards: that is, whether `configure_once` may report this.
pub open spec fn configure_answer<S: SpiBus>(
    before: S,
    max_speed_hz: u32,
    mode: u32,
    after: S,
    done: bool,
) -> bool {
    exists|r: &mut S|
        *r == before && #[trigger] call_ensures(
            configure_once::<S>,
            (r, max_speed_hz, mode),
            (done, Ghost(after)),
        )
}

/// Whether opening the device file `path` and setting what it gives to
/// `max_speed_hz` and `mode` went as `found` and `kept` say.
///
/// `open` gives `found` for the file. Where it gives a bus, that bus is
/// asked once to take the rate and the mode; where it does, `kept` is the
/// bus as that request leaves it. Where `open` gives none, or the bus
/// refuses, `kept` is none.
pub open spec fn bus_opening<S: SpiBus>(
    path: &str,
    found: Option<S>,
    max_speed_hz: u32,
    mode: u32,
    kept: Option<S>,
) -> bool {
    &&& bus_opened(path, found)
    &&& match found {
        Some(opened) => match kept {
            Some(bus) => configure_answer(opened, max_speed_hz, mode, bus, true),
            None => exists|after: S|
                #[trigger] configure_answer(opened, max_speed_hz, mode, after, false),
        },
        None => kept is None,
    }
}

/// Whether opening the device file named `name` and setting it to
/// `max_speed_hz` and `mode` may end with `kept`: whether there is a file
/// of that name for which it goes as `bus_opening` describes.
pub open spec fn bus_opens<S: SpiBus>(
    name: Seq<char>,
    max_speed_hz: u32,
    mode: u32,
    kept: Option<S>,
) -> bool {
    exists|path: &str, found: Option<S>|
        path@ == name && #[trigger] bus_opening(path, found, max_speed_hz, mode, kept)
}

/// Whether a bus that stands as `before`, asked once to write `data`, may
/// answer `done` and stand as `after` afterwards: that is, whether
/// `write_once` may report this.
pub open spec fn write_answer<S: SpiBus>(before: S, data: &[u8], after: S, done: bool) -> bool {
    exists|r: &mut S|
        *r == before && #[trigger] call_ensures(write_once::<S>, (r, data), (done, Ghost(after)))
}

/// Whether a bus that stands as `before`, asked once to fill a buffer that
/// holds `held`, may answer `done`, stand as `after` afterwards and leave
/// `got` in the buffer: that is, whether `read_once` may report this.
pub open spec fn read_answer<S: SpiBus>(
    before: S,
    held: Seq<u8>,
    after: S,
    got: Seq<u8>,
    done: bool,
) -> bool {
    exists|r: &mut S, b: &mut [u8]|
        *r == before && b@ == held && #[trigger] call_ensures(
            read_once::<S>,
            (r, b),
            (done, Ghost(after), Ghost(got)),
        )
}

/// Whether a bus that stands as `before`, asked once to write a buffer
/// that holds `held` and replace it with what comes back, may answer
/// `done`, stand as `after` afterwards and leave `got` in the buffer: that
/// is, whether `transfer_in_place_once` may report this.
pub open spec fn transfer_in_place_answer<S: SpiBus>(
    before: S,
    held: Seq<u8>,
    after: S,
    got: Seq<u8>,
    done: bool,
) -> bool {
    exists|r: &mut S, b: &mut [u8]|
        *r == before && b@ == held && #[trigger] call_ensures(
            transfer_in_place_once::<S>,
            (r, b),
            (done, Ghost(after), Ghost(got)),
        )
}

/// Whether a bus that stands as `before`, asked once to write `write` and
/// fill a buffer that holds `held` with what comes back, may answer `done`,
/// stand as `after` afterwards and leave `got` in the buffer: that is,
/// whether `transfer_once` may report this.
pub open spec fn transfer_answer<S: SpiBus>(
    before: S,
    held: Seq<u8>,
    write: &[u8],
    after: S,
    got: Seq<u8>,
    done: bool,
) -> bool {
    exists|r: &mut S, b: &mut [u8]|
        *r == before && b@ == held && #[trigger] call_ensures(
            transfer_once::<S>,
            (r, b, write),
            (done, Ghost(after), Ghost(got)),
        )
}

impl<P, I, S: SpiBus, U> Spi for LinuxCtx<P, I, S, U> {
    open spec fn takes_init(&self, port: u32, baud: u32, mosi: i32, miso: i32, sck: i32, cs: i32) -> bool {
        self.wf()
    }

    open spec fn takes_deinit(&self, handle: i32) -> bool {
        self.wf()
    }

    open spec fn takes_read(&self, handle: i32, len: nat) -> bool {
        self.wf()
    }

    open spec fn takes_write(&self, handle: i32, data: Seq<u8>) -> bool {
        self.wf()
    }

    open spec fn takes_transfer_inplace(&self, handle: i32, data: Seq<u8>) -> bool {
        self.wf()
    }

    open spec fn takes_transfer(&self, handle: i32, len: nat, write: Seq<u8>) -> bool {
        self.wf()
    }

    /// Opens the device file of chip select zero on bus `port` and sets it
    /// to `baud` and to mode 2 without chip select, under a handle that was
    /// never issued before. The pins are not looked at. The handle is used up
    /// even where the bus cannot be opened or configured, which is reported
    /// as `Failed` and is so exactly where opening that file gives no bus or
    /// the bus refuses the rate and mode; the bus as that request leaves it
    /// is the one kept under the handle. `Unexpected` is reported once no
    /// handle is left.
    fn init(&mut self, port: u32, baud: u32, mosi: i32, miso: i32, sck: i32, cs: i32) -> (r: Result<
        i32,
        Error,
    >)
        ensures
            final(self).wf(),
            final(self).i2c == old(self).i2c,
            final(self).uart == old(self).uart,
            final(self).gpio == old(self).gpio,
            old(self).spi.next_handle() >= i32::MAX ==> r == Err::<i32, Error>(Error::Unexpected)
                && untouched(old(self).spi, final(self).spi),
            old(self).spi.next_handle() < i32::MAX ==> match r {
                Ok(handle) => opened(old(self).spi, final(self).spi, handle),
                Err(e) => e == Error::Failed && handle_spent(old(self).spi, final(self).spi),
            },
            old(self).spi.next_handle() < i32::MAX ==> match r {
                Ok(handle) => bus_opens(
                    spec_spi_path(port, CHIP_SELECT),
                    baud,
                    0x42,
                    Some(final(self).spi@[handle]),
                ),
                Err(_) => bus_opens::<S>(spec_spi_path(port, CHIP_SELECT), baud, 0x42, None),
            },
    {
        let handle = match self.spi.allocate() {
            Some(handle) => handle,
            None => {
                return Err(Error::Unexpected);
            },
        };
        let path = spi_path(port, CHIP_SELECT);
        let name = path.as_str();
        let found = S::open(name);
        proof {
            assert(bus_opened(name, found));
        }
        let mut bus = match found {
            Some(bus) => bus,
            None => {
                proof {
                    assert(bus_opening(name, found, baud, 0x42, None::<S>));
                    assert(bus_opens::<S>(spec_spi_path(port, CHIP_SELECT), baud, 0x42, None));
                }
                return Err(Error::Failed);
            },
        };
        let ghost asked = bus;
        let configured = configure_once(&mut bus, baud, bus_mode()).0;
        proof {
            assert(configure_answer(asked, baud, 0x42, bus, configured));
        }
        if !configured {
            proof {
                assert(bus_opening(name, found, baud, 0x42, None::<S>));
                assert(bus_opens::<S>(spec_spi_path(port, CHIP_SELECT), baud, 0x42, None));
            }
            return Err(Error::Failed);
        }
        proof {
            assert(bus_opening(name, found, baud, 0x42, Some(bus)));
            assert(bus_opens(spec_spi_path(port, CHIP_SELECT), baud, 0x42, Some(bus)));
        }
        proof {
            old(self).spi.lemma_next_nonnegative();
            if old(self).spi@.contains_key(handle) {
                old(self).spi.lemma_open_below_next(handle);
            }
        }
        match self.spi.insert(handle, bus) {
            None => {
                assert(self.spi@.dom() =~= old(self).spi@.dom().insert(handle));
                Ok(handle)
            },
            Some(_) => Err(Error::Unexpected),
        }
    }

    /// Releases the bus behind `handle`, or reports `NoDevice` where the
    /// handle is not open.
    fn deinit(&mut self, handle: i32) -> (r: Result<(), Error>)
        ensures
            final(self).wf(),
            final(self).i2c == old(self).i2c,
            final(self).uart == old(self).uart,
            final(self).gpio == old(self).gpio,
            final(self).spi.next_handle() == old(self).spi.next_handle(),
            final(self).spi@ == old(self).spi@.remove(handle),
            r == release_outcome(old(self).spi@, handle),
    {
        match self.spi.remove(handle) {
            Some(_) => Ok(()),
            None => Err(Error::NoDevice),
        }
    }

    /// Fills `data` from the bus. Reports `NoDevice` exactly where the
    /// handle is not open, and then leaves the buffer as it was; reports
    /// `Failed` exactly where the bus behind it, asked once, reports that the
    /// transfer failed. The buffer holds what the bus left in it, and the bus
    /// stays under the handle as that one request leaves it.
    fn read(&mut self, handle: i32, data: &mut [u8]) -> (r: Result<(), Error>)
        ensures
            final(self).wf(),
            final(self).i2c == old(self).i2c,
            final(self).uart == old(self).uart,
            final(self).gpio == old(self).gpio,
            only_device_touched(old(self).spi, final(self).spi, handle),
            !old(self).spi@.contains_key(handle) ==> r == Err::<(), Error>(Error::NoDevice)
                && final(self).spi@ == old(self).spi@ && final(data)@ == old(data)@,
            old(self).spi@.contains_key(handle) ==> r is Ok || r == Err::<(), Error>(Error::Failed),
            old(self).spi@.contains_key(handle) ==> read_answer(
                old(self).spi@[handle],
                old(data)@,
                final(self).spi@[handle],
                final(data)@,
                r is Ok,
            ),
    {
        let r = match self.spi.lookup_mut(handle) {
            Some(bus) => device_outcome(read_once(bus, data).0),
            None => Err(Error::NoDevice),
        };
        assert(self.spi@.dom() =~= old(self).spi@.dom());
        r
    }

    /// Writes `data` to the bus. Reports `NoDevice` exactly where the handle
    /// is not open, and `Failed` exactly where the bus behind it, asked once,
    /// reports that the transfer failed; the bus stays under the handle as
    /// that one request leaves it.
    fn write(&mut self, handle: i32, data: &[u8]) -> (r: Result<(), Error>)
        ensures
            final(self).wf(),
            final(self).i2c == old(self).i2c,
            final(self).uart == old(self).uart,
            final(self).gpio == old(self).gpio,
            only_device_touched(old(self).spi, final(self).spi, handle),
            !old(self).spi@.contains_key(handle) ==> r == Err::<(), Error>(Error::NoDevice)
                && final(self).spi@ == old(self).spi@,
            old(self).spi@.contains_key(handle) ==> r is Ok || r == Err::<(), Error>(Error::Failed),
            old(self).spi@.contains_key(handle) ==> write_answer(
                old(self).spi@[handle],
                data,
                final(self).spi@[handle],
                r is Ok,
            ),
    {
        let r = match self.spi.lookup_mut(handle) {
            Some(bus) => device_outcome(write_once(bus, data).0),
            None => Err(Error::NoDevice),
        };
        assert(self.spi@.dom() =~= old(self).spi@.dom());
        r
    }

    /// Writes `data` to the bus and replaces it with what came back. Reports
    /// `NoDevice` exactly where the handle is not open, and then leaves the
    /// buffer as it was; reports `Failed` exactly where the bus behind it,
    /// asked once, reports that the transfer failed. The buffer holds what
    /// the bus left in it, and the bus stays under the handle as that one
    /// request leaves it.
    fn transfer_inplace(&mut self, handle: i32, data: &mut [u8]) -> (r: Result<(), Error>)
        ensures
            final(self).wf(),
            final(self).i2c == old(self).i2c,
            final(self).uart == old(self).uart,
            final(self).gpio == old(self).gpio,
            only_device_touched(old(self).spi, final(self).spi, handle),
            !old(self).spi@.contains_key(handle) ==> r == Err::<(), Error>(Error::NoDevice)
                && final(self).spi@ == old(self).spi@ && final(data)@ == old(data)@,
            old(self).spi@.contains_key(handle) ==> r is Ok || r == Err::<(), Error>(Error::Failed),
            old(self).spi@.contains_key(handle) ==> transfer_in_place_answer(
                old(self).spi@[handle],
                old(data)@,
                final(self).spi@[handle],
                final(data)@,
                r is Ok,
            ),
    {
        let r = match self.spi.lookup_mut(handle) {
            Some(bus) => device_outcome(transfer_in_place_once(bus, data).0),
            None => Err(Error::NoDevice),
        };
        assert(self.spi@.dom() =~= old(self).spi@.dom());
        r
    }

    /// Writes `write` to the bus and fills `read` with what came back.
    /// Reports `NoDevice` exactly where the handle is not open, and then
    /// leaves the buffer as it was; reports `Failed` exactly where the bus
    /// behind it, asked once, reports that the transfer failed. The buffer
    /// holds what the bus left in it, and the bus stays under the handle as
    /// that one request leaves it.
    fn transfer(&mut self, handle: i32, read: &mut [u8], write: &[u8]) -> (r: Result<(), Error>)
        ensures
            final(self).wf(),
            final(self).i2c == old(self).i2c,
            final(self).uart == old(self).uart,
            final(self).gpio == old(self).gpio,
            only_device_touched(old(self).spi, final(self).spi, handle),
            !old(self).spi@.contains_key(handle) ==> r == Err::<(), Error>(Error::NoDevice)
                && final(self).spi@ == old(self).spi@ && final(read)@ == old(read)@,
            old(self).spi@.contains_key(handle) ==> r is Ok || r == Err::<(), Error>(Error::Failed),
            old(self).spi@.contains_key(handle) ==> transfer_answer(
                old(self).spi@[handle],
                old(read)@,
                write,
                final(self).spi@[handle],
                final(read)@,
                r is Ok,
            ),
    {
        let r = match self.spi.lookup_mut(handle) {
            Some(bus) => device_outcome(transfer_once(bus, read, write).0),
            None => Err(Error::NoDevice),
        };
        assert(self.spi@.dom() =~= old(self).spi@.dom());
        r
    }
}

} // verus!
