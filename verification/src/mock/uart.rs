//! Mock UART driver.

use super::ops::{data_in, fill, Kind, KindView};
use super::{Inner, MockCtx};
use crate::api::{Error, Uart};
use vstd::prelude::*;

verus! {

/// UART capability of a mock session. It borrows the session for as long
/// as it lives, so that no other capability can answer a call meanwhile.
pub struct MockUart<'a> {
    pub inner: &'a mut Inner,
}

impl<'a> MockUart<'a> {
    /// The UART capability of the session `inner`.
    pub fn new(inner: &'a mut Inner) -> (r: Self)
        ensures
            *r.inner == *old(inner),
            *final(r.inner) == *final(inner),
    {
        MockUart { inner }
    }
}

/// A call is taken exactly where it is the call that the script asks for
/// next; `Inner::check` tells beforehand whether it is.
impl<'a> Uart for MockUart<'a> {
    open spec fn takes_init(&self, port: u32, baud: u32, tx: i32, rx: i32) -> bool {
        self.inner@.expects(KindView::UartInit { port, baud, tx, rx })
    }

    open spec fn takes_deinit(&self, handle: i32) -> bool {
        self.inner@.expects(KindView::UartDeinit { handle })
    }

    open spec fn takes_write(&self, handle: i32, flags: u32, data: Seq<u8>) -> bool {
        self.inner@.expects(KindView::UartWrite { handle, flags, data_out: data })
    }

    open spec fn takes_read(&self, handle: i32, flags: u32, len: nat) -> bool {
        self.inner@.expects(KindView::UartRead { handle, flags, data_in: Seq::new(len, |i: int| 0u8) })
    }

    /// Answers the expected opening of a port with the handle the script gives.
    fn init(&mut self, port: u32, baud: u32, tx: i32, rx: i32) -> (r: Result<i32, Error>)
        ensures
            r == Ok::<i32, Error>(old(self).inner@.pending().res),
            final(self).inner@ == old(self).inner@.advanced(),
            old(self).inner@.wf() ==> final(self).inner@.wf(),
            *final(final(self).inner) == *final(old(self).inner),
    {
        let res = self.inner.advance();
        Ok(res)
    }

    /// Answers the expected release of a port.
    fn deinit(&mut self, handle: i32) -> (r: Result<(), Error>)
        ensures
            r == Ok::<(), Error>(()),
            final(self).inner@ == old(self).inner@.advanced(),
            old(self).inner@.wf() ==> final(self).inner@.wf(),
            *final(final(self).inner) == *final(old(self).inner),
    {
        let _ = self.inner.advance();
        Ok(())
    }

    /// Answers the expected write.
    fn write(&mut self, handle: i32, flags: u32, data: &[u8]) -> (r: Result<(), Error>)
        ensures
            r == Ok::<(), Error>(()),
            final(self).inner@ == old(self).inner@.advanced(),
            old(self).inner@.wf() ==> final(self).inner@.wf(),
            *final(final(self).inner) == *final(old(self).inner),
    {
        let _ = self.inner.advance();
        Ok(())
    }

    /// Answers the expected read: fills `buff` with the data the script gives.
    fn read(&mut self, handle: i32, flags: u32, buff: &mut [u8]) -> (r: Result<(), Error>)
        ensures
            r == Ok::<(), Error>(()),
            final(buff)@ == data_in(old(self).inner@.pending().kind),
            final(self).inner@ == old(self).inner@.advanced(),
            old(self).inner@.wf() ==> final(self).inner@.wf(),
            *final(final(self).inner) == *final(old(self).inner),
    {
        match self.inner.pending() {
            Some(op) => match &op.kind {
                Kind::UartRead { data_in, .. } => {
                    fill(buff, data_in.as_slice());
                },
                _ => {},
            },
            None => {},
        }
        let _ = self.inner.advance();
        Ok(())
    }
}

/// A call is taken exactly where it is the call that the script asks for
/// next; `MockCtx::check` tells beforehand whether it is.
impl Uart for MockCtx {
    open spec fn takes_init(&self, port: u32, baud: u32, tx: i32, rx: i32) -> bool {
        self.inner@.expects(KindView::UartInit { port, baud, tx, rx })
    }

    open spec fn takes_deinit(&self, handle: i32) -> bool {
        self.inner@.expects(KindView::UartDeinit { handle })
    }

    open spec fn takes_write(&self, handle: i32, flags: u32, data: Seq<u8>) -> bool {
        self.inner@.expects(KindView::UartWrite { handle, flags, data_out: data })
    }

    open spec fn takes_read(&self, handle: i32, flags: u32, len: nat) -> bool {
        self.inner@.expects(KindView::UartRead { handle, flags, data_in: Seq::new(len, |i: int| 0u8) })
    }

    /// Answers the expected opening of a port with the handle the script gives.
    fn init(&mut self, port: u32, baud: u32, tx: i32, rx: i32) -> (r: Result<i32, Error>)
        ensures
            r == Ok::<i32, Error>(old(self).inner@.pending().res),
            final(self).inner@ == old(self).inner@.advanced(),
            old(self).inner@.wf() ==> final(self).inner@.wf(),
    {
        MockUart::new(&mut self.inner).init(port, baud, tx, rx)
    }

    /// Answers the expected release of a port.
    fn deinit(&mut self, handle: i32) -> (r: Result<(), Error>)
        ensures
            r == Ok::<(), Error>(()),
            final(self).inner@ == old(self).inner@.advanced(),
            old(self).inner@.wf() ==> final(self).inner@.wf(),
    {
        MockUart::new(&mut self.inner).deinit(handle)
    }

    /// Answers the expected write.
    fn write(&mut self, handle: i32, flags: u32, data: &[u8]) -> (r: Result<(), Error>)
        ensures
            r == Ok::<(), Error>(()),
            final(self).inner@ == old(self).inner@.advanced(),
            old(self).inner@.wf() ==> final(self).inner@.wf(),
    {
        MockUart::new(&mut self.inner).write(handle, flags, data)
    }

    /// Answers the expected read: fills `buff` with the data the script gives.
    fn read(&mut self, handle: i32, flags: u32, buff: &mut [u8]) -> (r: Result<(), Error>)
        ensures
            r == Ok::<(), Error>(()),
            final(buff)@ == data_in(old(self).inner@.pending().kind),
            final(self).inner@ == old(self).inner@.advanced(),
            old(self).inner@.wf() ==> final(self).inner@.wf(),
    {
        MockUart::new(&mut self.inner).read(handle, flags, buff)
    }
}

} // verus!
