//! Backend that forwards capability operations to operating-system devices.
//!
//! The backend owns one handle table per kind of peripheral. What it does
//! with a device goes through a small trait per kind, so that the handle
//! lifecycle and the error mapping do not depend on how a device is
//! reached.

use crate::api::Error;
use vstd::prelude::*;

pub mod gpio;
pub mod i2c;
pub mod path;
pub mod registry;
pub mod spi;
pub mod uart;

pub use gpio::GpioPin;
pub use i2c::I2cBus;
pub use spi::SpiBus;
pub use uart::SerialPort;
pub use registry::Registry;

verus! {

/// Driver context: the open devices of each kind of peripheral.
pub struct LinuxCtx<P, I, S, U> {
    pub spi: Registry<S>,
    pub i2c: Registry<I>,
    pub uart: Registry<U>,
    pub gpio: Registry<P>,
}

impl<P, I, S, U> LinuxCtx<P, I, S, U> {
    /// Well-formedness: each of the four handle tables is well formed.
    pub open spec fn wf(&self) -> bool {
        &&& self.spi.wf()
        &&& self.i2c.wf()
        &&& self.uart.wf()
        &&& self.gpio.wf()
    }

    /// A context with no open device, in which the first handle of each kind
    /// of peripheral will be zero.
    pub fn new() -> (r: Self)
        ensures
            r.wf(),
            r.spi@ == Map::<i32, S>::empty(),
            r.i2c@ == Map::<i32, I>::empty(),
            r.uart@ == Map::<i32, U>::empty(),
            r.gpio@ == Map::<i32, P>::empty(),
            r.spi.next_handle() == 0,
            r.i2c.next_handle() == 0,
            r.uart.next_handle() == 0,
            r.gpio.next_handle() == 0,
    {
        LinuxCtx {
            spi: Registry::new(),
            i2c: Registry::new(),
            uart: Registry::new(),
            gpio: Registry::new(),
        }
    }
}

/// Whether going from `before` to `after` left the open handles and the
/// counter as they were, and every device but the one behind `handle`.
pub open spec fn only_device_touched<D>(before: Registry<D>, after: Registry<D>, handle: i32) -> bool {
    &&& after.next_handle() == before.next_handle()
    &&& after@.dom() == before@.dom()
    &&& forall|h: i32| h != handle && before@.contains_key(h) ==> after@[h] == before@[h]
}

/// Whether going from `before` to `after` issued the handle `handle` and
/// opened a device under it, leaving every other device as it was.
pub open spec fn opened<D>(before: Registry<D>, after: Registry<D>, handle: i32) -> bool {
    &&& handle == before.next_handle()
    &&& after.next_handle() == before.next_handle() + 1
    &&& !before@.contains_key(handle)
    &&& after@.dom() == before@.dom().insert(handle)
    &&& forall|h: i32| before@.contains_key(h) ==> after@[h] == before@[h]
}

/// Whether going from `before` to `after` used up one handle without
/// opening a device.
pub open spec fn handle_spent<D>(before: Registry<D>, after: Registry<D>) -> bool {
    &&& after.next_handle() == before.next_handle() + 1
    &&& after@ == before@
}

/// Whether `before` and `after` hold the same devices and the same counter.
pub open spec fn untouched<D>(before: Registry<D>, after: Registry<D>) -> bool {
    &&& after.next_handle() == before.next_handle()
    &&& after@ == before@
}

/// What releasing `handle` reports where `open` are the open devices:
/// success where the handle is open, `NoDevice` where it is not.
pub open spec fn release_outcome<D>(open: Map<i32, D>, handle: i32) -> Result<(), Error> {
    if open.contains_key(handle) {
        Ok(())
    } else {
        Err(Error::NoDevice)
    }
}

/// Releasing a handle a second time reports `NoDevice`, whatever the first
/// release reported.
pub proof fn lemma_second_release_fails<D>(open: Map<i32, D>, handle: i32)
    ensures
        release_outcome(open.remove(handle), handle) == Err::<(), Error>(Error::NoDevice),
{
}

/// Whether going from `before` to `after` is one operation on a handle
/// table: one that issued `handle` and opened a device under it, or, with
/// `None`, any other, which never lowers the counter.
pub open spec fn lifecycle_step<D>(before: Registry<D>, after: Registry<D>, issued: Option<i32>) -> bool {
    match issued {
        Some(handle) => opened(before, after, handle),
        None => after.next_handle() >= before.next_handle(),
    }
}

/// Whether `states` is a history of a handle table in which the operation
/// between each state and the next issued what `issued` says at that place.
pub open spec fn lifecycle<D>(states: Seq<Registry<D>>, issued: Seq<Option<i32>>) -> bool {
    &&& states.len() == issued.len() + 1
    &&& forall|k: int|
        0 <= k < issued.len() ==> lifecycle_step(#[trigger] states[k], states[k + 1], issued[k])
}

/// Whatever an operation of the backend does to a handle table is a step of
/// a history: opening a device issues its handle, and a failed opening, a
/// release or a transfer leave the counter at or above where it was.
pub proof fn lemma_outcomes_are_steps<D>(before: Registry<D>, after: Registry<D>, handle: i32)
    ensures
        opened(before, after, handle) ==> lifecycle_step(before, after, Some(handle)),
        handle_spent(before, after) ==> lifecycle_step(before, after, None),
        untouched(before, after) ==> lifecycle_step(before, after, None),
        only_device_touched(before, after, handle) ==> lifecycle_step(before, after, None),
        after.next_handle() == before.next_handle() && after@ == before@.remove(handle)
            ==> lifecycle_step(before, after, None),
{
}

/// Along a history the counter never goes down.
pub proof fn lemma_counter_monotone<D>(
    states: Seq<Registry<D>>,
    issued: Seq<Option<i32>>,
    i: int,
    j: int,
)
    requires
        lifecycle(states, issued),
        0 <= i <= j < states.len(),
    ensures
        states[i].next_handle() <= states[j].next_handle(),
    decreases j - i,
{
    if i < j {
        lemma_counter_monotone(states, issued, i, j - 1);
        assert(lifecycle_step(states[j - 1], states[j - 1 + 1], issued[j - 1]));
    }
}

/// Handles come out in strictly increasing order: of two handles issued in
/// one history, the later is the greater, whatever was opened, released or
/// used in between. So no handle is issued twice.
pub proof fn lemma_handles_strictly_increase<D>(
    states: Seq<Registry<D>>,
    issued: Seq<Option<i32>>,
    i: int,
    j: int,
)
    requires
        lifecycle(states, issued),
        0 <= i < j < issued.len(),
        issued[i] is Some,
        issued[j] is Some,
    ensures
        issued[i]->Some_0 < issued[j]->Some_0,
{
    assert(lifecycle_step(states[i], states[i + 1], issued[i]));
    assert(lifecycle_step(states[j], states[j + 1], issued[j]));
    lemma_counter_monotone(states, issued, i + 1, j);
}

} // verus!
