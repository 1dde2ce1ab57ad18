//! Mock SPI driver.

use super::ops::{data_in, fill, Kind, KindView};
use super::{Inner, MockCtx};
use crate::api::{Error, Spi};
use vstd::prelude::*;

verus! {

/// SPI capability of a mock session. It borrows the session for as long
/// as it lives, so that no other capability can answer a call meanwhile.
pub struct MockSpi<'a> {
    pub inner: &'a mut Inner,
}

impl<'a> MockSpi<'a> {
    /// The SPI capability of the session `inner`.
    pub fn new(inner: &'a mut Inner) -> (r: Self)
        ensures
            *r.inner == *old(inner),
            *final(r.inner) == *final(inner),
    {
        MockSpi { inner }
    }
}

/// A call is taken exactly where it is the call that the script asks for
/// next; `Inner::check` tells beforehand whether it is.
impl<'a> Spi for MockSpi<'a> {
    open spec fn takes_init(&self, port: u32, baud: u32, mosi: i32, miso: i32, sck: i32, cs: i32) -> bool {
        self.inner@.expects(KindView::SpiInit { port, baud, mosi, miso, sck, cs })
    }

    open spec fn takes_deinit(&self, handle: i32) -> bool {
        self.inner@.expects(KindView::SpiDeinit { handle })
    }

    open spec fn takes_read(&self, handle: i32, len: nat) -> bool {
        self.inner@.expects(KindView::SpiRead { handle, data_in: Seq::new(len, |i: int| 0u8) })
    }

    open spec fn takes_write(&self, handle: i32, data: Seq<u8>) -> bool {
        self.inner@.expects(KindView::SpiWrite { handle, data_out: data })
    }

    open spec fn takes_transfer_inplace(&self, handle: i32, data: Seq<u8>) -> bool {
        self.inner@.expects(KindView::SpiTransfer { handle, data_out: data, data_in: data })
    }

    open spec fn takes_transfer(&self, handle: i32, len: nat, write: Seq<u8>) -> bool {
        self.inner@.expects(
            KindView::SpiTransfer { handle, data_out: write, data_in: Seq::new(len, |i: int| 0u8) },
        )
    }

    /// Answers the expected opening of a bus with the handle the script gives.
    fn init(&mut self, port: u32, baud: u32, mosi: i32, miso: i32, sck: i32, cs: i32) -> (r: Result<i32, Error>)
        ensures
            r == Ok::<i32, Error>(old(self).inner@.pending().res),
            final(self).inner@ == old(self).inner@.advanced(),
            old(self).inner@.wf() ==> final(self).inner@.wf(),
            *final(final(self).inner) == *final(old(self).inner),
    {
        let res = self.inner.advance();
        Ok(res)
    }

    /// Answers the expected release of a bus.
    fn deinit(&mut self, handle: i32) -> (r: Result<(), Error>)
        ensures
            r == Ok::<(), Error>(()),
            final(self).inner@ == old(self).inner@.advanced(),
            old(self).inner@.wf() ==> final(self).inner@.wf(),
            *final(final(self).inner) == *final(old(self).inner),
    {
        let _ = self.inner.advance();
        Ok(())
    }

    /// Answers the expected read: fills `data` with the data the script gives.
    fn read(&mut self, handle: i32, data: &mut [u8]) -> (r: Result<(), Error>)
        ensures
            r == Ok::<(), Error>(()),
            final(data)@ == data_in(old(self).inner@.pending().kind),
            final(self).inner@ == old(self).inner@.advanced(),
            old(self).inner@.wf() ==> final(self).inner@.wf(),
            *final(final(self).inner) == *final(old(self).inner),
    {
        match self.inner.pending() {
            Some(op) => match &op.kind {
                Kind::SpiRead { data_in, .. } => {
                    fill(data, data_in.as_slice());
                },
                _ => {},
            },
            None => {},
        }
        let _ = self.inner.advance();
        Ok(())
    }

    /// Answers the expected write.
    fn write(&mut self, handle: i32, data: &[u8]) -> (r: Result<(), Error>)
        ensures
            r == Ok::<(), Error>(()),
            final(self).inner@ == old(self).inner@.advanced(),
            old(self).inner@.wf() ==> final(self).inner@.wf(),
            *final(final(self).inner) == *final(old(self).inner),
    {
        let _ = self.inner.advance();
        Ok(())
    }

    /// Answers the expected exchange: replaces `data` with the data the script gives.
    fn transfer_inplace(&mut self, handle: i32, data: &mut [u8]) -> (r: Result<(), Error>)
        ensures
            r == Ok::<(), Error>(()),
            final(data)@ == data_in(old(self).inner@.pending().kind),
            final(self).inner@ == old(self).inner@.advanced(),
            old(self).inner@.wf() ==> final(self).inner@.wf(),
            *final(final(self).inner) == *final(old(self).inner),
    {
        match self.inner.pending() {
            Some(op) => match &op.kind {
                Kind::SpiTransfer { data_in, .. } => {
                    fill(data, data_in.as_slice());
                },
                _ => {},
            },
            None => {},
        }
        let _ = self.inner.advance();
        Ok(())
    }

    /// Answers the expected exchange: fills `read` with the data the script gives.
    fn transfer(&mut self, handle: i32, read: &mut [u8], write: &[u8]) -> (r: Result<(), Error>)
        ensures
            r == Ok::<(), Error>(()),
            final(read)@ == data_in(old(self).inner@.pending().kind),
            final(self).inner@ == old(self).inner@.advanced(),
            old(self).inner@.wf() ==> final(self).inner@.wf(),
            *final(final(self).inner) == *final(old(self).inner),
    {
        match self.inner.pending() {
            Some(op) => match &op.kind {
                Kind::SpiTransfer { data_in, .. } => {
                    fill(read, data_in.as_slice());
                },
                _ => {},
            },
            None => {},
        }
        let _ = self.inner.advance();
        Ok(())
    }
}

/// A call is taken exactly where it is the call that the script asks for
/// next; `MockCtx::check` tells beforehand whether it is.
impl Spi for MockCtx {
    open spec fn takes_init(&self, port: u32, baud: u32, mosi: i32, miso: i32, sck: i32, cs: i32) -> bool {
        self.inner@.expects(KindView::SpiInit { port, baud, mosi, miso, sck, cs })
    }

    open spec fn takes_deinit(&self, handle: i32) -> bool {
        self.inner@.expects(KindView::SpiDeinit { handle })
    }

    open spec fn takes_read(&self, handle: i32, len: nat) -> bool {
        self.inner@.expects(KindView::SpiRead { handle, data_in: Seq::new(len, |i: int| 0u8) })
    }

    open spec fn takes_write(&self, handle: i32, data: Seq<u8>) -> bool {
        self.inner@.expects(KindView::SpiWrite { handle, data_out: data })
    }

    open spec fn takes_transfer_inplace(&self, handle: i32, data: Seq<u8>) -> bool {
        self.inner@.expects(KindView::SpiTransfer { handle, data_out: data, data_in: data })
    }

    open spec fn takes_transfer(&self, handle: i32, len: nat, write: Seq<u8>) -> bool {
        self.inner@.expects(
            KindView::SpiTransfer { handle, data_out: write, data_in: Seq::new(len, |i: int| 0u8) },
        )
    }

    /// Answers the expected opening of a bus with the handle the script gives.
    fn init(&mut self, port: u32, baud: u32, mosi: i32, miso: i32, sck: i32, cs: i32) -> (r: Result<i32, Error>)
        ensures
            r == Ok::<i32, Error>(old(self).inner@.pending().res),
            final(self).inner@ == old(self).inner@.advanced(),
            old(self).inner@.wf() ==> final(self).inner@.wf(),
    {
        MockSpi::new(&mut self.inner).init(port, baud, mosi, miso, sck, cs)
    }

    /// Answers the expected release of a bus.
    fn deinit(&mut self, handle: i32) -> (r: Result<(), Error>)
        ensures
            r == Ok::<(), Error>(()),
            final(self).inner@ == old(self).inner@.advanced(),
            old(self).inner@.wf() ==> final(self).inner@.wf(),
    {
        MockSpi::new(&mut self.inner).deinit(handle)
    }

    /// Answers the expected read: fills `data` with the data the script gives.
    fn read(&mut self, handle: i32, data: &mut [u8]) -> (r: Result<(), Error>)
        ensures
            r == Ok::<(), Error>(()),
            final(data)@ == data_in(old(self).inner@.pending().kind),
            final(self).inner@ == old(self).inner@.advanced(),
            old(self).inner@.wf() ==> final(self).inner@.wf(),
    {
        MockSpi::new(&mut self.inner).read(handle, data)
    }

    /// Answers the expected write.
    fn write(&mut self, handle: i32, data: &[u8]) -> (r: Result<(), Error>)
        ensures
            r == Ok::<(), Error>(()),
            final(self).inner@ == old(self).inner@.advanced(),
            old(self).inner@.wf() ==> final(self).inner@.wf(),
    {
        MockSpi::new(&mut self.inner).write(handle, data)
    }

    /// Answers the expected exchange: replaces `data` with the data the script gives.
    fn transfer_inplace(&mut self, handle: i32, data: &mut [u8]) -> (r: Result<(), Error>)
        ensures
            r == Ok::<(), Error>(()),
            final(data)@ == data_in(old(self).inner@.pending().kind),
            final(self).inner@ == old(self).inner@.advanced(),
            old(self).inner@.wf() ==> final(self).inner@.wf(),
    {
        MockSpi::new(&mut self.inner).transfer_inplace(handle, data)
    }

    /// Answers the expected exchange: fills `read` with the data the script gives.
    fn transfer(&mut self, handle: i32, read: &mut [u8], write: &[u8]) -> (r: Result<(), Error>)
        ensures
            r == Ok::<(), Error>(()),
            final(read)@ == data_in(old(self).inner@.pending().kind),
            final(self).inner@ == old(self).inner@.advanced(),
            old(self).inner@.wf() ==> final(self).inner@.wf(),
    {
        MockSpi::new(&mut self.inner).transfer(handle, read, write)
    }
}

} // verus!
