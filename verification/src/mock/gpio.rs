//! Mock GPIO driver.

use super::ops::{Kind, KindView, PinState};
use super::{Inner, MockCtx};
use crate::api::{Error, Gpio};
use vstd::prelude::*;

verus! {

/// GPIO capability of a mock session. It borrows the session for as long
/// as it lives, so that no other capability can answer a call meanwhile.
pub struct MockGpio<'a> {
    pub inner: &'a mut Inner,
}

impl<'a> MockGpio<'a> {
    /// The GPIO capability of the session `inner`.
    pub fn new(inner: &'a mut Inner) -> (r: Self)
        ensures
            *r.inner == *old(inner),
            *final(r.inner) == *final(inner),
    {
        MockGpio { inner }
    }
}

/// A call is taken exactly where it is the call that the script asks for
/// next; `Inner::check` tells beforehand whether it is.
impl<'a> Gpio for MockGpio<'a> {
    open spec fn takes_init(&self, port: i32, pin: i32, output: bool) -> bool {
        self.inner@.expects(KindView::GpioInit { port, pin, output })
    }

    open spec fn takes_deinit(&self, handle: i32) -> bool {
        self.inner@.expects(KindView::GpioDeinit { handle })
    }

    open spec fn takes_set(&self, handle: i32, state: PinState) -> bool {
        self.inner@.expects(KindView::GpioSet { handle, state })
    }

    open spec fn takes_get(&self, handle: i32) -> bool {
        self.inner@.expects(KindView::GpioGet { handle, state: PinState::Low })
    }

    /// Answers the expected opening of a line with the handle the script
    /// gives.
    fn init(&mut self, port: i32, pin: i32, output: bool) -> (r: Result<i32, Error>)
        ensures
            r == Ok::<i32, Error>(old(self).inner@.pending().res),
            final(self).inner@ == old(self).inner@.advanced(),
            old(self).inner@.wf() ==> final(self).inner@.wf(),
            *final(final(self).inner) == *final(old(self).inner),
    {
        let res = self.inner.advance();
        Ok(res)
    }

    /// Answers the expected release of a line.
    fn deinit(&mut self, handle: i32) -> (r: Result<(), Error>)
        ensures
            r == Ok::<(), Error>(()),
            final(self).inner@ == old(self).inner@.advanced(),
            old(self).inner@.wf() ==> final(self).inner@.wf(),
            *final(final(self).inner) == *final(old(self).inner),
    {
        let _ = self.inner.advance();
        Ok(())
    }

    /// Answers the expected driving of a line.
    fn set(&mut self, handle: i32, state: PinState) -> (r: Result<(), Error>)
        ensures
            r == Ok::<(), Error>(()),
            final(self).inner@ == old(self).inner@.advanced(),
            old(self).inner@.wf() ==> final(self).inner@.wf(),
            *final(final(self).inner) == *final(old(self).inner),
    {
        let _ = self.inner.advance();
        Ok(())
    }

    /// Answers the expected sampling of a line with the state the script
    /// gives.
    fn get(&mut self, handle: i32) -> (r: Result<PinState, Error>)
        ensures
            r == Ok::<PinState, Error>(old(self).inner@.pending().kind->GpioGet_state),
            final(self).inner@ == old(self).inner@.advanced(),
            old(self).inner@.wf() ==> final(self).inner@.wf(),
            *final(final(self).inner) == *final(old(self).inner),
    {
        let state = match self.inner.pending() {
            Some(op) => match &op.kind {
                Kind::GpioGet { state, .. } => *state,
                _ => PinState::Low,
            },
            None => PinState::Low,
        };
        let _ = self.inner.advance();
        Ok(state)
    }
}

/// A call is taken exactly where it is the call that the script asks for
/// next; `MockCtx::check` tells beforehand whether it is.
impl Gpio for MockCtx {
    open spec fn takes_init(&self, port: i32, pin: i32, output: bool) -> bool {
        self.inner@.expects(KindView::GpioInit { port, pin, output })
    }

    open spec fn takes_deinit(&self, handle: i32) -> bool {
        self.inner@.expects(KindView::GpioDeinit { handle })
    }

    open spec fn takes_set(&self, handle: i32, state: PinState) -> bool {
        self.inner@.expects(KindView::GpioSet { handle, state })
    }

    open spec fn takes_get(&self, handle: i32) -> bool {
        self.inner@.expects(KindView::GpioGet { handle, state: PinState::Low })
    }

    /// Answers the expected opening of a line with the handle the script gives.
    fn init(&mut self, port: i32, pin: i32, output: bool) -> (r: Result<i32, Error>)
        ensures
            r == Ok::<i32, Error>(old(self).inner@.pending().res),
            final(self).inner@ == old(self).inner@.advanced(),
            old(self).inner@.wf() ==> final(self).inner@.wf(),
    {
        MockGpio::new(&mut self.inner).init(port, pin, output)
    }

    /// Answers the expected release of a line.
    fn deinit(&mut self, handle: i32) -> (r: Result<(), Error>)
        ensures
            r == Ok::<(), Error>(()),
            final(self).inner@ == old(self).inner@.advanced(),
            old(self).inner@.wf() ==> final(self).inner@.wf(),
    {
        MockGpio::new(&mut self.inner).deinit(handle)
    }

    /// Answers the expected driving of a line.
    fn set(&mut self, handle: i32, state: PinState) -> (r: Result<(), Error>)
        ensures
            r == Ok::<(), Error>(()),
            final(self).inner@ == old(self).inner@.advanced(),
            old(self).inner@.wf() ==> final(self).inner@.wf(),
    {
        MockGpio::new(&mut self.inner).set(handle, state)
    }

    /// Answers the expected sampling of a line with the state the script gives.
    fn get(&mut self, handle: i32) -> (r: Result<PinState, Error>)
        ensures
            r == Ok::<PinState, Error>(old(self).inner@.pending().kind->GpioGet_state),
            final(self).inner@ == old(self).inner@.advanced(),
            old(self).inner@.wf() ==> final(self).inner@.wf(),
    {
        MockGpio::new(&mut self.inner).get(handle)
    }
}

} // verus!
