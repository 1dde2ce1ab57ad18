//! GPIO through pins that are exported, given a direction, then driven or
//! sampled.

use super::{handle_spent, only_device_touched, opened, release_outcome, untouched, LinuxCtx};
use crate::api::{device_outcome, Error, Gpio};
use crate::mock::ops::PinState;
use vstd::prelude::*;

verus! {

/// What the backend needs of a pin of the operating system. Each operation
/// reports whether the system carried it out.
pub trait GpioPin: Sized {
    /// A pin object for line `number`; touches no hardware.
    fn new(number: u64) -> Self;

    /// Makes the line available to this process.
    fn export(&mut self) -> bool;

    /// Makes the line an output (`true`) or an input (`false`).
    fn set_direction(&mut self, output: bool) -> bool;

    /// Drives the line.
    fn set_state(&mut self, state: PinState) -> bool;

    /// Samples the line: `Some(true)` where it is high.
    fn is_high(&mut self) -> Option<bool>;
}

/// The line number that a pin argument stands for: the argument itself,
/// read as an unsigned 64-bit number in two's complement.
pub open spec fn line_number(pin: i32) -> int {
    if pin >= 0 {
        pin as int
    } else {
        0x1_0000_0000_0000_0000 + pin
    }
}

/// Computes `line_number`.
pub fn pin_line(pin: i32) -> (r: u64)
    ensures
        r == line_number(pin),
{
    if pin >= 0 {
        pin as u64
    } else {
        let below: i32 = -(pin + 1);
        u64::MAX - (below as u64)
    }
}

/// What a sampled level becomes: the level itself, or `Failed` where the
/// device could not be sampled.
pub open spec fn spec_sampled(level: Option<bool>) -> Result<PinState, Error> {
    match level {
        Some(high) => Ok(
            if high {
                PinState::High
            } else {
                PinState::Low
            },
        ),
        None => Err(Error::Failed),
    }
}

/// Whether `new` may return `line` for the line number `number`.
pub open spec fn line_made<P: GpioPin>(number: u64, line: P) -> bool {
    call_ensures(P::new, (number,), line)
}

/// Asks the line once to be exported, and reports its answer together with
/// how the line stands afterwards.
pub fn export_once<P: GpioPin>(line: &mut P) -> (out: (bool, Ghost<P>))
    ensures
        out.1@ == *final(line),
        exists|r: &mut P|
            *r == *old(line) && *final(r) == *final(line) && #[trigger] call_ensures(
                P::export,
                (r,),
                out.0,
            ),
{
    let done = line.export();
    let out = (done, Ghost(*line));
    assert(out.0 == done);
    out
}

/// Asks the line once to become an output (`output`) or an input, and
/// reports its answer together with how the line stands afterwards.
pub fn direct_once<P: GpioPin>(line: &mut P, output: bool) -> (out: (bool, Ghost<P>))
    ensures
        out.1@ == *final(line),
        exists|r: &mut P|
            *r == *old(line) && *final(r) == *final(line) && #[trigger] call_ensures(
                P::set_direction,
                (r, output),
                out.0,
            ),
{
    let done = line.set_direction(output);
    let out = (done, Ghost(*line));
    assert(out.0 == done);
    out
}

/// Asks the line once to go to `state`, and reports its answer together
/// with how the line stands afterwards.
pub fn drive_once<P: GpioPin>(line: &mut P, state: PinState) -> (out: (bool, Ghost<P>))
    ensures
        out.1@ == *final(line),
        exists|r: &mut P|
            *r == *old(line) && *final(r) == *final(line) && #[trigger] call_ensures(
                P::set_state,
                (r, state),
                out.0,
            ),
{
    let done = line.set_state(state);
    let out = (done, Ghost(*line));
    assert(out.0 == done);
    out
}

/// Samples the line once, and reports its answer together with how the
/// line stands afterwards.
pub fn sample_once<P: GpioPin>(line: &mut P) -> (out: (Option<bool>, Ghost<P>))
    ensures
        out.1@ == *final(line),
        exists|r: &mut P|
            *r == *old(line) && *final(r) == *final(line) && #[trigger] call_ensures(
                P::is_high,
                (r,),
                out.0,
            ),
{
    let level = line.is_high();
    let out = (level, Ghost(*line));
    assert(out.0 == level);
    out
}

/// Whether a line that stands as `before`, asked once to be exported, may
/// answer `done` and stand as `after` afterwards: that is, whether
/// `export_once` may report this.
pub open spec fn export_answer<P: GpioPin>(before: P, after: P, done: bool) -> bool {
    exists|r: &mut P|
        *r == before && #[trigger] call_ensures(export_once::<P>, (r,), (done, Ghost(after)))
}

/// Whether a line that stands as `before`, asked once to become an output
/// (`output`) or an input, may answer `done` and stand as `after`
/// afterwards: that is, whether `direct_once` may report this.
pub open spec fn direction_answer<P: GpioPin>(before: P, output: bool, after: P, done: bool) -> bool {
    exists|r: &mut P|
        *r == before && #[trigger] call_ensures(
            direct_once::<P>,
            (r, output),
            (done, Ghost(after)),
        )
}

/// Whether opening line `number` went as `states` and `opened` say.
///
/// A line object is made for `number`; `states[0]` is that object, which is
/// asked once to be exported, and `states[1]` is how that leaves it. Where
/// it is exported, it is asked once for its direction, and `states[2]` is
/// how that leaves it. The line is opened exactly where both were done.
pub open spec fn line_opening<P: GpioPin>(
    number: u64,
    output: bool,
    states: Seq<P>,
    opened: bool,
) -> bool {
    &&& 2 <= states.len() <= 3
    &&& line_made(number, states[0])
    &&& export_answer(states[0], states[1], states.len() == 3)
    &&& states.len() == 3 ==> direction_answer(states[1], output, states[2], opened)
    &&& states.len() == 2 ==> !opened
}

/// Whether opening line `number` may end with `kept`: with no line where
/// it cannot be opened, and else with the line as the sequence that
/// `line_opening` describes leaves it.
pub open spec fn line_opens<P: GpioPin>(number: u64, output: bool, kept: Option<P>) -> bool {
    exists|states: Seq<P>| #[trigger] line_kept(number, output, states, kept)
}

/// Whether opening line `number` went as `states` say and ended with
/// `kept`: with no line where it could not be opened, and else with the
/// last of `states`.
pub open spec fn line_kept<P: GpioPin>(
    number: u64,
    output: bool,
    states: Seq<P>,
    kept: Option<P>,
) -> bool {
    &&& line_opening(number, output, states, kept is Some)
    &&& kept matches Some(line) ==> line == states.last()
}

/// Whether a line that stands as `before`, asked once to go to `state`, may
/// answer `done` and stand as `after` afterwards: that is, whether
/// `drive_once` may report this.
pub open spec fn set_answer<P: GpioPin>(before: P, state: PinState, after: P, done: bool) -> bool {
    exists|r: &mut P|
        *r == before && #[trigger] call_ensures(drive_once::<P>, (r, state), (done, Ghost(after)))
}

/// Whether a line that stands as `before`, sampled once, may answer
/// `level` and stand as `after` afterwards: that is, whether `sample_once`
/// may report this.
pub open spec fn sample_answer<P: GpioPin>(before: P, after: P, level: Option<bool>) -> bool {
    exists|r: &mut P|
        *r == before && #[trigger] call_ensures(sample_once::<P>, (r,), (level, Ghost(after)))
}

/// Whether sampling a line that stands as `before` may end with `r` and
/// leave the line as `after`: the line is sampled once, and `r` is what the
/// level it answers becomes.
pub open spec fn samples<P: GpioPin>(before: P, after: P, r: Result<PinState, Error>) -> bool {
    exists|level: Option<bool>|
        #[trigger] sample_answer(before, after, level) && r == spec_sampled(level)
}

/// What a sampled level becomes: the level itself, or `Failed` where the
/// device could not be sampled.
#[verifier::when_used_as_spec(spec_sampled)]
pub fn sampled(level: Option<bool>) -> (r: Result<PinState, Error>)
    ensures
        r == spec_sampled(level),
{
    match level {
        Some(true) => Ok(PinState::High),
        Some(false) => Ok(PinState::Low),
        None => Err(Error::Failed),
    }
}

impl<P: GpioPin, I, S, U> Gpio for LinuxCtx<P, I, S, U> {
    open spec fn takes_init(&self, port: i32, pin: i32, output: bool) -> bool {
        self.wf()
    }

    open spec fn takes_deinit(&self, handle: i32) -> bool {
        self.wf()
    }

    open spec fn takes_set(&self, handle: i32, state: PinState) -> bool {
        self.wf()
    }

    open spec fn takes_get(&self, handle: i32) -> bool {
        self.wf()
    }

    /// Exports line `pin` and gives it its direction, under a handle that was
    /// never issued before. The port is not looked at. The handle is used up
    /// even where the line cannot be opened, which is reported as `Failed`
    /// and is so exactly where the line refuses to be exported or to take
    /// its direction; the line as these two requests leave it is the one
    /// kept under the handle. `Unexpected` is reported once no handle is
    /// left.
    fn init(&mut self, port: i32, pin: i32, output: bool) -> (r: Result<i32, Error>)
        ensures
            final(self).wf(),
            final(self).spi == old(self).spi,
            final(self).i2c == old(self).i2c,
            final(self).uart == old(self).uart,
            old(self).gpio.next_handle() >= i32::MAX ==> r == Err::<i32, Error>(Error::Unexpected)
                && untouched(old(self).gpio, final(self).gpio),
            old(self).gpio.next_handle() < i32::MAX ==> match r {
                Ok(handle) => opened(old(self).gpio, final(self).gpio, handle),
                Err(e) => e == Error::Failed && handle_spent(old(self).gpio, final(self).gpio),
            },
            old(self).gpio.next_handle() < i32::MAX ==> match r {
                Ok(handle) => line_opens(
                    line_number(pin) as u64,
                    output,
                    Some(final(self).gpio@[handle]),
                ),
                Err(_) => line_opens::<P>(line_number(pin) as u64, output, None),
            },
    {
        let handle = match self.gpio.allocate() {
            Some(handle) => handle,
            None => {
                return Err(Error::Unexpected);
            },
        };
        let mut line = P::new(pin_line(pin));
        let ghost made = line;
        let exported = export_once(&mut line).0;
        let ghost asked = line;
        proof {
            assert(export_answer(made, asked, exported));
        }
        if !exported {
            proof {
                assert(line_opening(line_number(pin) as u64, output, seq![made, asked], false));
                assert(line_kept(line_number(pin) as u64, output, seq![made, asked], None::<P>));
                assert(line_opens::<P>(line_number(pin) as u64, output, None));
            }
            return Err(Error::Failed);
        }
        let directed = direct_once(&mut line, output).0;
        proof {
            assert(direction_answer(asked, output, line, directed));
            assert(line_opening(
                line_number(pin) as u64,
                output,
                seq![made, asked, line],
                directed,
            ));
        }
        if !directed {
            proof {
                assert(line_kept(
                    line_number(pin) as u64,
                    output,
                    seq![made, asked, line],
                    None::<P>,
                ));
                assert(line_opens::<P>(line_number(pin) as u64, output, None));
            }
            return Err(Error::Failed);
        }
        proof {
            assert(seq![made, asked, line].last() == line);
            assert(line_kept(line_number(pin) as u64, output, seq![made, asked, line], Some(line)));
            assert(line_opens(line_number(pin) as u64, output, Some(line)));
            old(self).gpio.lemma_next_nonnegative();
            if old(self).gpio@.contains_key(handle) {
                old(self).gpio.lemma_open_below_next(handle);
            }
        }
        match self.gpio.insert(handle, line) {
            None => {
                assert(self.gpio@.dom() =~= old(self).gpio@.dom().insert(handle));
                Ok(handle)
            },
            Some(_) => Err(Error::Unexpected),
        }
    }

    /// Releases the line behind `handle`, or reports `NoDevice` where the
    /// handle is not open.
    fn deinit(&mut self, handle: i32) -> (r: Result<(), Error>)
        ensures
            final(self).wf(),
            final(self).spi == old(self).spi,
            final(self).i2c == old(self).i2c,
            final(self).uart == old(self).uart,
            final(self).gpio.next_handle() == old(self).gpio.next_handle(),
            final(self).gpio@ == old(self).gpio@.remove(handle),
            r == release_outcome(old(self).gpio@, handle),
    {
        match self.gpio.remove(handle) {
            Some(_) => Ok(()),
            None => Err(Error::NoDevice),
        }
    }

    /// Drives the line behind `handle` to `state`, asking it once. Reports
    /// `NoDevice` exactly where the handle is not open, and `Failed` exactly
    /// where the line behind it refuses; the line stays under the handle as
    /// that one request leaves it.
    fn set(&mut self, handle: i32, state: PinState) -> (r: Result<(), Error>)
        ensures
            final(self).wf(),
            final(self).spi == old(self).spi,
            final(self).i2c == old(self).i2c,
            final(self).uart == old(self).uart,
            only_device_touched(old(self).gpio, final(self).gpio, handle),
            !old(self).gpio@.contains_key(handle) ==> r == Err::<(), Error>(Error::NoDevice)
                && final(self).gpio@ == old(self).gpio@,
            old(self).gpio@.contains_key(handle) ==> r is Ok || r == Err::<(), Error>(
                Error::Failed,
            ),
            old(self).gpio@.contains_key(handle) ==> set_answer(
                old(self).gpio@[handle],
                state,
                final(self).gpio@[handle],
                r is Ok,
            ),
    {
        let ghost before = self.gpio;
        let r = match self.gpio.lookup_mut(handle) {
            Some(line) => device_outcome(drive_once(line, state).0),
            None => Err(Error::NoDevice),
        };
        assert(self.gpio@.dom() =~= before@.dom());
        r
    }

    /// Samples the line behind `handle` once and reports the level it
    /// shows. Reports `NoDevice` exactly where the handle is not open, and
    /// `Failed` exactly where the line behind it cannot be sampled; the line
    /// stays under the handle as that one request leaves it.
    fn get(&mut self, handle: i32) -> (r: Result<PinState, Error>)
        ensures
            final(self).wf(),
            final(self).spi == old(self).spi,
            final(self).i2c == old(self).i2c,
            final(self).uart == old(self).uart,
            only_device_touched(old(self).gpio, final(self).gpio, handle),
            !old(self).gpio@.contains_key(handle) ==> r == Err::<PinState, Error>(Error::NoDevice)
                && final(self).gpio@ == old(self).gpio@,
            old(self).gpio@.contains_key(handle) ==> r is Ok || r == Err::<PinState, Error>(
                Error::Failed,
            ),
            old(self).gpio@.contains_key(handle) ==> samples(
                old(self).gpio@[handle],
                final(self).gpio@[handle],
                r,
            ),
    {
        let ghost before = self.gpio;
        let r = match self.gpio.lookup_mut(handle) {
            Some(line) => {
                let ghost asked = *line;
                let level = sample_once(line).0;
                let r = sampled(level);
                proof {
                    assert(sample_answer(asked, *line, level));
                    assert(samples(asked, *line, r));
                }
                r
            },
            None => Err(Error::NoDevice),
        };
        assert(self.gpio@.dom() =~= before@.dom());
        r
    }
}

} // verus!
