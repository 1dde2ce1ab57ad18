//! Mock I2C driver.

use super::ops::{data_in, fill, Kind, KindView};
use super::{Inner, MockCtx};
use crate::api::{Error, I2c};
use vstd::prelude::*;

verus! {

/// I2C capability of a mock session. It borrows the session for as long
/// as it lives, so that no other capability can answer a call meanwhile.
pub struct MockI2c<'a> {
    pub inner: &'a mut Inner,
}

impl<'a> MockI2c<'a> {
    /// The I2C capability of the session `inner`.
    pub fn new(inner: &'a mut Inner) -> (r: Self)
        ensures
            *r.inner == *old(inner),
            *final(r.inner) == *final(inner),
    {
        MockI2c { inner }
    }
}

/// A call is taken exactly where it is the call that the script asks for
/// next; `Inner::check` tells beforehand whether it is.
impl<'a> I2c for MockI2c<'a> {
    open spec fn takes_init(&self, port: u32, baud: u32, sda: i32, scl: i32) -> bool {
        self.inner@.expects(KindView::I2cInit { port, baud, sda, scl })
    }

    open spec fn takes_deinit(&self, handle: i32) -> bool {
        self.inner@.expects(KindView::I2cDeinit { handle })
    }

    open spec fn takes_write(&self, handle: i32, addr: u16, data: Seq<u8>) -> bool {
        self.inner@.expects(KindView::I2cWrite { handle, addr, data_out: data })
    }

    open spec fn takes_read(&self, handle: i32, addr: u16, len: nat) -> bool {
        self.inner@.expects(KindView::I2cRead { handle, addr, data_in: Seq::new(len, |i: int| 0u8) })
    }

    open spec fn takes_write_read(&self, handle: i32, addr: u16, data: Seq<u8>, len: nat) -> bool {
        self.inner@.expects(
            KindView::I2cWriteRead { handle, addr, data_out: data, data_in: Seq::new(len, |i: int| 0u8) },
        )
    }

    /// Answers the expected opening of a bus with the handle the script gives.
    fn init(&mut self, port: u32, baud: u32, sda: i32, scl: i32) -> (r: Result<i32, Error>)
        ensures
            r == Ok::<i32, Error>(old(self).inner@.pending().res),
            final(self).inner@ == old(self).inner@.advanced(),
            old(self).inner@.wf() ==> final(self).inner@.wf(),
            *final(final(self).inner) == *final(old(self).inner),
    {
        let res = self.inner.advance();
        Ok(res)
    }

    /// Answers the expected release of a bus.
    fn deinit(&mut self, handle: i32) -> (r: Result<(), Error>)
        ensures
            r == Ok::<(), Error>(()),
            final(self).inner@ == old(self).inner@.advanced(),
            old(self).inner@.wf() ==> final(self).inner@.wf(),
            *final(final(self).inner) == *final(old(self).inner),
    {
        let _ = self.inner.advance();
        Ok(())
    }

    /// Answers the expected write.
    fn write(&mut self, handle: i32, addr: u16, data: &[u8]) -> (r: Result<(), Error>)
        ensures
            r == Ok::<(), Error>(()),
            final(self).inner@ == old(self).inner@.advanced(),
            old(self).inner@.wf() ==> final(self).inner@.wf(),
            *final(final(self).inner) == *final(old(self).inner),
    {
        let _ = self.inner.advance();
        Ok(())
    }

    /// Answers the expected read: fills `buff` with the data the script gives.
    fn read(&mut self, handle: i32, addr: u16, buff: &mut [u8]) -> (r: Result<(), Error>)
        ensures
            r == Ok::<(), Error>(()),
            final(buff)@ == data_in(old(self).inner@.pending().kind),
            final(self).inner@ == old(self).inner@.advanced(),
            old(self).inner@.wf() ==> final(self).inner@.wf(),
            *final(final(self).inner) == *final(old(self).inner),
    {
        match self.inner.pending() {
            Some(op) => match &op.kind {
                Kind::I2cRead { data_in, .. } => {
                    fill(buff, data_in.as_slice());
                },
                _ => {},
            },
            None => {},
        }
        let _ = self.inner.advance();
        Ok(())
    }

    /// Answers the expected write and read: fills `buff` with the data the script gives.
    fn write_read(&mut self, handle: i32, addr: u16, data: &[u8], buff: &mut [u8]) -> (r: Result<(), Error>)
        ensures
            r == Ok::<(), Error>(()),
            final(buff)@ == data_in(old(self).inner@.pending().kind),
            final(self).inner@ == old(self).inner@.advanced(),
            old(self).inner@.wf() ==> final(self).inner@.wf(),
            *final(final(self).inner) == *final(old(self).inner),
    {
        match self.inner.pending() {
            Some(op) => match &op.kind {
                Kind::I2cWriteRead { data_in, .. } => {
                    fill(buff, data_in.as_slice());
                },
                _ => {},
            },
            None => {},
        }
        let _ = self.inner.advance();
        Ok(())
    }
}

/// A call is taken exactly where it is the call that the script asks for
/// next; `MockCtx::check` tells beforehand whether it is.
impl I2c for MockCtx {
    open spec fn takes_init(&self, port: u32, baud: u32, sda: i32, scl: i32) -> bool {
        self.inner@.expects(KindView::I2cInit { port, baud, sda, scl })
    }

    open spec fn takes_deinit(&self, handle: i32) -> bool {
        self.inner@.expects(KindView::I2cDeinit { handle })
    }

    open spec fn takes_write(&self, handle: i32, addr: u16, data: Seq<u8>) -> bool {
        self.inner@.expects(KindView::I2cWrite { handle, addr, data_out: data })
    }

    open spec fn takes_read(&self, handle: i32, addr: u16, len: nat) -> bool {
        self.inner@.expects(KindView::I2cRead { handle, addr, data_in: Seq::new(len, |i: int| 0u8) })
    }

    open spec fn takes_write_read(&self, handle: i32, addr: u16, data: Seq<u8>, len: nat) -> bool {
        self.inner@.expects(
            KindView::I2cWriteRead { handle, addr, data_out: data, data_in: Seq::new(len, |i: int| 0u8) },
        )
    }

    /// Answers the expected opening of a bus with the handle the script gives.
    fn init(&mut self, port: u32, baud: u32, sda: i32, scl: i32) -> (r: Result<i32, Error>)
        ensures
            r == Ok::<i32, Error>(old(self).inner@.pending().res),
            final(self).inner@ == old(self).inner@.advanced(),
            old(self).inner@.wf() ==> final(self).inner@.wf(),
    {
        MockI2c::new(&mut self.inner).init(port, baud, sda, scl)
    }

    /// Answers the expected release of a bus.
    fn deinit(&mut self, handle: i32) -> (r: Result<(), Error>)
        ensures
            r == Ok::<(), Error>(()),
            final(self).inner@ == old(self).inner@.advanced(),
            old(self).inner@.wf() ==> final(self).inner@.wf(),
    {
        MockI2c::new(&mut self.inner).deinit(handle)
    }

    /// Answers the expected write.
    fn write(&mut self, handle: i32, addr: u16, data: &[u8]) -> (r: Result<(), Error>)
        ensures
            r == Ok::<(), Error>(()),
            final(self).inner@ == old(self).inner@.advanced(),
            old(self).inner@.wf() ==> final(self).inner@.wf(),
    {
        MockI2c::new(&mut self.inner).write(handle, addr, data)
    }

    /// Answers the expected read: fills `buff` with the data the script gives.
    fn read(&mut self, handle: i32, addr: u16, buff: &mut [u8]) -> (r: Result<(), Error>)
        ensures
            r == Ok::<(), Error>(()),
            final(buff)@ == data_in(old(self).inner@.pending().kind),
            final(self).inner@ == old(self).inner@.advanced(),
            old(self).inner@.wf() ==> final(self).inner@.wf(),
    {
        MockI2c::new(&mut self.inner).read(handle, addr, buff)
    }

    /// Answers the expected write and read: fills `buff` with the data the script gives.
    fn write_read(&mut self, handle: i32, addr: u16, data: &[u8], buff: &mut [u8]) -> (r: Result<(), Error>)
        ensures
            r == Ok::<(), Error>(()),
            final(buff)@ == data_in(old(self).inner@.pending().kind),
            final(self).inner@ == old(self).inner@.advanced(),
            old(self).inner@.wf() ==> final(self).inner@.wf(),
    {
        MockI2c::new(&mut self.inner).write_read(handle, addr, data, buff)
    }
}

} // verus!
