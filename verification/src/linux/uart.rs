//! UART through serial character devices, one byte at a time.

use super::path::{spec_uart_path, uart_path};
use super::{handle_spent, only_device_touched, opened, release_outcome, untouched, LinuxCtx};
use crate::api::{device_outcome, Error, Uart};
use vstd::prelude::*;

verus! {

/// What the backend needs of a serial port of the operating system.
pub trait SerialPort: Sized {
    /// Opens the port behind the device file `path` at `baud`.
    fn open(path: &str, baud: u32) -> Option<Self>;

    /// Sends one byte; `false` where the system refuses it.
    fn write_byte(&mut self, byte: u8) -> bool;

    /// Receives one byte, or `None` where the system gives none.
    fn read_byte(&mut self) -> Option<u8>;
}

/// Whether `open` may return `port` for the device file `path` at `baud`.
pub open spec fn port_opened<U: SerialPort>(path: &str, baud: u32, port: Option<U>) -> bool {
    call_ensures(U::open, (path, baud), port)
}

/// Whether opening the device file named `name` at `baud` may give `port`:
/// whether `open` may return it for that name and rate.
pub open spec fn port_opens<U: SerialPort>(name: Seq<char>, baud: u32, port: Option<U>) -> bool {
    exists|path: &str| path@ == name && #[trigger] port_opened(path, baud, port)
}

/// Asks the port once to send `byte`, and reports its answer together with
/// how the port stands afterwards.
pub fn offer<U: SerialPort>(port: &mut U, byte: u8) -> (out: (bool, Ghost<U>))
    ensures
        out.1@ == *final(port),
        exists|r: &mut U|
            *r == *old(port) && *final(r) == *final(port) && #[trigger] call_ensures(
                U::write_byte,
                (r, byte),
                out.0,
            ),
{
    let accepted = port.write_byte(byte);
    let out = (accepted, Ghost(*port));
    assert(out.0 == accepted);
    out
}

/// Asks the port once for a byte, and reports its answer together with how
/// the port stands afterwards.
pub fn ask<U: SerialPort>(port: &mut U) -> (out: (Option<u8>, Ghost<U>))
    ensures
        out.1@ == *final(port),
        exists|r: &mut U|
            *r == *old(port) && *final(r) == *final(port) && #[trigger] call_ensures(
                U::read_byte,
                (r,),
                out.0,
            ),
{
    let answer = port.read_byte();
    let out = (answer, Ghost(*port));
    assert(out.0 == answer);
    out
}

/// Whether a port that stands as `before`, asked once to send `byte`, may
/// answer `accepted` and stand as `after` afterwards: that is, whether
/// `offer` may report this.
pub open spec fn write_answer<U: SerialPort>(before: U, byte: u8, after: U, accepted: bool) -> bool {
    exists|r: &mut U|
        *r == before && #[trigger] call_ensures(offer::<U>, (r, byte), (accepted, Ghost(after)))
}

/// Whether a port that stands as `before`, asked once for a byte, may
/// answer `answer` and stand as `after` afterwards: that is, whether `ask`
/// may report this.
pub open spec fn read_answer<U: SerialPort>(before: U, after: U, answer: Option<u8>) -> bool {
    exists|r: &mut U| *r == before && #[trigger] call_ensures(ask::<U>, (r,), (answer, Ghost(after)))
}

/// Whether sending `data` through a port went as `states` and `sent` say.
///
/// The port is asked to send the bytes of `data` from the first on, each
/// once, one after the other. `states[0]` is how the port stood at the
/// start, and `states[k + 1]` how it stood after it was asked to send byte
/// `k`, which is how it stood when it was asked for the next. It accepted
/// every byte it was asked to send but, where `sent` is false, the last of
/// them, which it refused; after that it was asked for nothing more. Where
/// `sent` is true it was asked to send every byte of `data`.
pub open spec fn sending<U: SerialPort>(states: Seq<U>, data: Seq<u8>, sent: bool) -> bool {
    &&& 1 <= states.len() <= data.len() + 1
    &&& forall|k: int|
        0 <= k < states.len() - 1 ==> write_answer(
            #[trigger] states[k],
            data[k],
            states[k + 1],
            k < states.len() - 2 || sent,
        )
    &&& sent ==> states.len() == data.len() + 1
    &&& !sent ==> states.len() > 1
}

/// Whether sending `data` through a port that stands as `start` may end as
/// `sent` says and leave the port as `end`: whether there are states from
/// `start` to `end` through which it goes as `sending` describes.
pub open spec fn sends<U: SerialPort>(start: U, data: Seq<u8>, end: U, sent: bool) -> bool {
    exists|states: Seq<U>|
        #[trigger] sending(states, data, sent) && states[0] == start && states.last() == end
}

/// Whether filling a buffer that held `before` from a port went as
/// `states`, `after` and `filled` say.
///
/// The port is asked for one byte after the other, each position once.
/// `states[0]` is how the port stood at the start, and `states[k + 1]` how
/// it stood after it was asked for the byte at position `k`, which is how
/// it stood when it was asked for the next. It gave every byte it was asked
/// for but, where `filled` is false, the last of them; after that it was
/// asked for nothing more. Each byte it gave stands in `after` at its
/// position, and every position behind those is as in `before`. Where
/// `filled` is true it was asked for a byte for every position.
pub open spec fn receiving<U: SerialPort>(
    states: Seq<U>,
    before: Seq<u8>,
    after: Seq<u8>,
    filled: bool,
) -> bool {
    &&& after.len() == before.len()
    &&& 1 <= states.len() <= before.len() + 1
    &&& forall|k: int|
        0 <= k < states.len() - 1 ==> read_answer(
            #[trigger] states[k],
            states[k + 1],
            if k < states.len() - 2 || filled {
                Some(after[k])
            } else {
                None
            },
        )
    &&& filled ==> states.len() == before.len() + 1
    &&& !filled ==> states.len() > 1
    &&& forall|k: int|
        given(states.len(), filled) <= k < before.len() ==> #[trigger] after[k] == before[k]
}

/// How many bytes a port gave of which `states` are the states it went
/// through while it was asked, one more than it was asked for bytes: it
/// gave one each time but, where `filled` is false, the last.
pub open spec fn given(states: nat, filled: bool) -> int {
    if filled {
        states - 1
    } else {
        states - 2
    }
}

/// Whether filling a buffer that holds `before` from a port that stands as
/// `start` may end as `filled` says, with `after` in the buffer and the
/// port left as `end`: whether there are states from `start` to `end`
/// through which it goes as `receiving` describes.
pub open spec fn receives<U: SerialPort>(
    start: U,
    before: Seq<u8>,
    end: U,
    after: Seq<u8>,
    filled: bool,
) -> bool {
    exists|states: Seq<U>|
        #[trigger] receiving(states, before, after, filled) && states[0] == start
            && states.last() == end
}

/// Whether the first `upto` bytes of `data` were each sent once and
/// accepted, the port going through `states`.
pub open spec fn sent_so_far<U: SerialPort>(states: Seq<U>, data: Seq<u8>, upto: int) -> bool {
    &&& states.len() == upto + 1
    &&& forall|k: int|
        0 <= k < upto ==> write_answer(#[trigger] states[k], data[k], states[k + 1], true)
}

/// Whether the first `upto` positions of `held` were each asked for once
/// and given, the port going through `states`.
pub open spec fn received_so_far<U: SerialPort>(states: Seq<U>, held: Seq<u8>, upto: int) -> bool {
    &&& states.len() == upto + 1
    &&& forall|k: int|
        0 <= k < upto ==> read_answer(#[trigger] states[k], states[k + 1], Some(held[k]))
}

/// Sends `data` byte by byte, in order, each once, and stops at the first
/// byte that the port refuses. Reports whether every byte was taken, which
/// is so where there is none to send; then the port is not touched.
pub fn send_all<U: SerialPort>(port: &mut U, data: &[u8]) -> (sent: bool)
    ensures
        sends(*old(port), data@, *final(port), sent),
        data@.len() == 0 ==> sent && *final(port) == *old(port),
{
    let n: usize = data.len();
    let mut i: usize = 0;
    let ghost mut states: Seq<U> = seq![*port];
    while i < n
        invariant
            n == data@.len(),
            i <= n,
            states[0] == *old(port),
            states.last() == *port,
            sent_so_far(states, data@, i as int),
        decreases n - i,
    {
        let ghost earlier = states;
        let out = offer(port, data[i]);
        let accepted = out.0;
        proof {
            assert(write_answer(earlier.last(), data@[i as int], *port, accepted));
            states = earlier.push(*port);
            assert forall|k: int| 0 <= k < states.len() - 1 implies write_answer(
                #[trigger] states[k],
                data@[k],
                states[k + 1],
                k < states.len() - 2 || accepted,
            ) by {
                if k < earlier.len() - 1 {
                    assert(states[k] == earlier[k]);
                    assert(states[k + 1] == earlier[k + 1]);
                } else {
                    assert(states[k] == earlier.last());
                }
            }
        }
        if !accepted {
            proof {
                assert(sending(states, data@, false));
                assert(sends(*old(port), data@, *port, false));
            }
            return false;
        }
        i = i + 1;
    }
    proof {
        assert(sending(states, data@, true));
        assert(sends(*old(port), data@, *port, true));
    }
    true
}

/// Fills `buff` byte by byte, from its start, asking once for each
/// position, and stops at the first byte that the port does not give.
/// Reports whether the buffer was filled, which is so where it is empty;
/// then the port is not touched. What lies behind the bytes received so far
/// stays as it was.
pub fn receive_all<U: SerialPort>(port: &mut U, buff: &mut [u8]) -> (filled: bool)
    ensures
        receives(*old(port), old(buff)@, *final(port), final(buff)@, filled),
        final(buff)@.len() == old(buff)@.len(),
        old(buff)@.len() == 0 ==> filled && final(buff)@ == old(buff)@ && *final(port) == *old(port),
{
    let n: usize = buff.len();
    let mut i: usize = 0;
    let ghost mut states: Seq<U> = seq![*port];
    while i < n
        invariant
            n == buff@.len(),
            n == old(buff)@.len(),
            i <= n,
            states[0] == *old(port),
            states.last() == *port,
            received_so_far(states, buff@, i as int),
            forall|k: int| i <= k < n ==> #[trigger] buff@[k] == old(buff)@[k],
        decreases n - i,
    {
        let ghost earlier = states;
        let ghost held = buff@;
        let out = ask(port);
        let answer = out.0;
        proof {
            assert(read_answer(earlier.last(), *port, answer));
            states = earlier.push(*port);
            assert(forall|k: int| 0 <= k < earlier.len() ==> states[k] == earlier[k]);
        }
        match answer {
            Some(byte) => {
                buff[i] = byte;
                proof {
                    assert forall|k: int| 0 <= k < i + 1 implies read_answer(
                        #[trigger] states[k],
                        states[k + 1],
                        Some(buff@[k]),
                    ) by {
                        if k < i {
                            assert(states[k] == earlier[k]);
                            assert(states[k + 1] == earlier[k + 1]);
                            assert(buff@[k] == held[k]);
                        } else {
                            assert(states[k] == earlier.last());
                        }
                    }
                }
            },
            None => {
                proof {
                    assert forall|k: int| 0 <= k < states.len() - 1 implies read_answer(
                        #[trigger] states[k],
                        states[k + 1],
                        if k < states.len() - 2 || false {
                            Some(buff@[k])
                        } else {
                            None
                        },
                    ) by {
                        if k < i {
                            assert(states[k] == earlier[k]);
                            assert(states[k + 1] == earlier[k + 1]);
                        } else {
                            assert(states[k] == earlier.last());
                        }
                    }
                    assert(receiving(states, old(buff)@, buff@, false));
                    assert(receives(*old(port), old(buff)@, *port, buff@, false));
                }
                return false;
            },
        }
        i = i + 1;
    }
    proof {
        assert(receiving(states, old(buff)@, buff@, true));
        assert(receives(*old(port), old(buff)@, *port, buff@, true));
        if n == 0 {
            assert(buff@ =~= old(buff)@);
        }
    }
    true
}

impl<P, I, S, U: SerialPort> Uart for LinuxCtx<P, I, S, U> {
    open spec fn takes_init(&self, port: u32, baud: u32, tx: i32, rx: i32) -> bool {
        self.wf()
    }

    open spec fn takes_deinit(&self, handle: i32) -> bool {
        self.wf()
    }

    open spec fn takes_write(&self, handle: i32, flags: u32, data: Seq<u8>) -> bool {
        self.wf()
    }

    open spec fn takes_read(&self, handle: i32, flags: u32, len: nat) -> bool {
        self.wf()
    }

    /// Opens the device file of port `port` at `baud`, under a handle that
    /// was never issued before. The pins are not looked at. The handle is
    /// used up even where the port cannot be opened, which is reported as
    /// `Failed` and is so exactly where opening that file gives no port;
    /// the port it gives is the one kept under the handle. `Unexpected` is
    /// reported once no handle is left.
    fn init(&mut self, port: u32, baud: u32, tx: i32, rx: i32) -> (r: Result<i32, Error>)
        ensures
            final(self).wf(),
            final(self).spi == old(self).spi,
            final(self).i2c == old(self).i2c,
            final(self).gpio == old(self).gpio,
            old(self).uart.next_handle() >= i32::MAX ==> r == Err::<i32, Error>(Error::Unexpected)
                && untouched(old(self).uart, final(self).uart),
            old(self).uart.next_handle() < i32::MAX ==> match r {
                Ok(handle) => opened(old(self).uart, final(self).uart, handle),
                Err(e) => e == Error::Failed && handle_spent(old(self).uart, final(self).uart),
            },
            old(self).uart.next_handle() < i32::MAX ==> match r {
                Ok(handle) => port_opens(spec_uart_path(port), baud, Some(final(self).uart@[handle])),
                Err(_) => port_opens::<U>(spec_uart_path(port), baud, None),
            },
    {
        let handle = match self.uart.allocate() {
            Some(handle) => handle,
            None => {
                return Err(Error::Unexpected);
            },
        };
        let path = uart_path(port);
        let name = path.as_str();
        let found = U::open(name, baud);
        proof {
            assert(port_opened(name, baud, found));
            assert(port_opens(spec_uart_path(port), baud, found));
        }
        let device = match found {
            Some(device) => device,
            None => {
                return Err(Error::Failed);
            },
        };
        proof {
            old(self).uart.lemma_next_nonnegative();
            if old(self).uart@.contains_key(handle) {
                old(self).uart.lemma_open_below_next(handle);
            }
        }
        match self.uart.insert(handle, device) {
            None => {
                assert(self.uart@.dom() =~= old(self).uart@.dom().insert(handle));
                Ok(handle)
            },
            Some(_) => Err(Error::Unexpected),
        }
    }

    /// Releases the port behind `handle`, or reports `NoDevice` where the
    /// handle is not open.
    fn deinit(&mut self, handle: i32) -> (r: Result<(), Error>)
        ensures
            final(self).wf(),
            final(self).spi == old(self).spi,
            final(self).i2c == old(self).i2c,
            final(self).gpio == old(self).gpio,
            final(self).uart.next_handle() == old(self).uart.next_handle(),
            final(self).uart@ == old(self).uart@.remove(handle),
            r == release_outcome(old(self).uart@, handle),
    {
        match self.uart.remove(handle) {
            Some(_) => Ok(()),
            None => Err(Error::NoDevice),
        }
    }

    /// Sends `data` byte by byte. Reports `NoDevice` exactly where the handle
    /// is not open, and `Failed` exactly where the port behind it refuses a
    /// byte; sending nothing through an open port succeeds. The flags are
    /// not looked at.
    fn write(&mut self, handle: i32, flags: u32, data: &[u8]) -> (r: Result<(), Error>)
        ensures
            final(self).wf(),
            final(self).spi == old(self).spi,
            final(self).i2c == old(self).i2c,
            final(self).gpio == old(self).gpio,
            only_device_touched(old(self).uart, final(self).uart, handle),
            !old(self).uart@.contains_key(handle) ==> r == Err::<(), Error>(Error::NoDevice)
                && final(self).uart@ == old(self).uart@,
            old(self).uart@.contains_key(handle) ==> r is Ok || r == Err::<(), Error>(
                Error::Failed,
            ),
            old(self).uart@.contains_key(handle) && data@.len() == 0 ==> r is Ok,
            old(self).uart@.contains_key(handle) ==> sends(
                old(self).uart@[handle],
                data@,
                final(self).uart@[handle],
                r is Ok,
            ),
    {
        let r = match self.uart.lookup_mut(handle) {
            Some(port) => device_outcome(send_all(port, data)),
            None => Err(Error::NoDevice),
        };
        assert(self.uart@.dom() =~= old(self).uart@.dom());
        r
    }

    /// Fills `buff` byte by byte. Reports `NoDevice` exactly where the handle
    /// is not open, and then leaves the buffer as it was; reports `Failed`
    /// exactly where the port behind it gives no byte; filling an empty
    /// buffer from an open port succeeds. The flags are not looked at.
    fn read(&mut self, handle: i32, flags: u32, buff: &mut [u8]) -> (r: Result<(), Error>)
        ensures
            final(self).wf(),
            final(self).spi == old(self).spi,
            final(self).i2c == old(self).i2c,
            final(self).gpio == old(self).gpio,
            only_device_touched(old(self).uart, final(self).uart, handle),
            final(buff)@.len() == old(buff)@.len(),
            !old(self).uart@.contains_key(handle) ==> r == Err::<(), Error>(Error::NoDevice)
                && final(self).uart@ == old(self).uart@ && final(buff)@ == old(buff)@,
            old(self).uart@.contains_key(handle) ==> r is Ok || r == Err::<(), Error>(
                Error::Failed,
            ),
            old(self).uart@.contains_key(handle) && old(buff)@.len() == 0 ==> r is Ok,
            old(self).uart@.contains_key(handle) ==> receives(
                old(self).uart@[handle],
                old(buff)@,
                final(self).uart@[handle],
                final(buff)@,
                r is Ok,
            ),
    {
        let r = match self.uart.lookup_mut(handle) {
            Some(port) => device_outcome(receive_all(port, buff)),
            None => Err(Error::NoDevice),
        };
        assert(self.uart@.dom() =~= old(self).uart@.dom());
        r
    }
}

} // verus!
