//! Operation records: what a script expects and what a session observes.

use embedded_hal::digital::PinState as HalPinState;
use vstd::prelude::*;

verus! {

/// Level of a digital line.
#[derive(Clone, Copy, PartialEq, Eq, Debug, Structural)]
pub enum PinState {
    High,
    Low,
}

/// `embedded_hal::digital::PinState`: carried through as it is, with nothing
/// known of what is inside.
#[verifier::external_type_specification]
#[verifier::external_body]
pub struct ExHalPinState(HalPinState);

/// Whether a pin state of `embedded-hal` is its `High` variant: the value
/// that `bool::from` gives for it.
pub uninterp spec fn hal_is_high(state: HalPinState) -> bool;

/// `bool::from` on `embedded_hal::digital::PinState`, which gives `true` for
/// `High` and `false` for `Low`. The contract names that value.
#[verifier::external_body]
fn hal_to_bool(state: HalPinState) -> (high: bool)
    ensures
        high == hal_is_high(state),
{
    bool::from(state)
}

/// `embedded_hal::digital::PinState::from` on a `bool`, which gives `High`
/// for `true` and `Low` for `false`: the state for which `bool::from` gives
/// the argument back.
#[verifier::external_body]
fn hal_from_bool(high: bool) -> (state: HalPinState)
    ensures
        hal_is_high(state) == high,
{
    HalPinState::from(high)
}

impl PinState {
    /// Whether the line is high.
    pub open spec fn spec_is_high(self) -> bool {
        self == PinState::High
    }

    /// Whether the line is high.
    #[verifier::when_used_as_spec(spec_is_high)]
    pub fn is_high(self) -> (r: bool)
        ensures
            r == (self == PinState::High),
    {
        match self {
            PinState::High => true,
            PinState::Low => false,
        }
    }

    /// `High` for `true`, `Low` for `false`.
    pub fn from_level(high: bool) -> (r: PinState)
        ensures
            r.is_high() == high,
    {
        if high {
            PinState::High
        } else {
            PinState::Low
        }
    }

    /// The same level as a pin state of `embedded-hal`.
    pub fn to_hal(self) -> (r: HalPinState)
        ensures
            hal_is_high(r) == self.is_high(),
    {
        hal_from_bool(self.is_high())
    }
}

impl From<HalPinState> for PinState {
    /// The same level as a pin state of this library.
    fn from(state: HalPinState) -> (r: PinState) {
        PinState::from_level(hal_to_bool(state))
    }
}

impl vstd::std_specs::convert::FromSpecImpl<HalPinState> for PinState {
    open spec fn obeys_from_spec() -> bool {
        true
    }

    open spec fn from_spec(state: HalPinState) -> PinState {
        if hal_is_high(state) {
            PinState::High
        } else {
            PinState::Low
        }
    }
}

/// Whether two byte strings are equal.
pub fn bytes_equal(a: &[u8], b: &[u8]) -> (r: bool)
    ensures
        r == (a@ == b@),
{
    if a.len() != b.len() {
        return false;
    }
    let n: usize = a.len();
    let mut i: usize = 0;
    while i < n
        invariant
            n == a@.len(),
            n == b@.len(),
            i <= n,
            forall|j: int| 0 <= j < i ==> a@[j] == b@[j],
        decreases n - i,
    {
        if a[i] != b[i] {
            return false;
        }
        i = i + 1;
    }
    assert(a@ =~= b@);
    true
}

/// One capability call with its arguments and, for a call that reads, the
/// data that the backend hands to the caller.
#[derive(PartialEq, Debug)]
#[allow(inconsistent_fields)]
pub enum Kind {
    /// An I2C bus is opened.
    I2cInit { port: u32, baud: u32, sda: i32, scl: i32 },
    /// An I2C bus is released.
    I2cDeinit { handle: i32 },
    /// Bytes are written to an I2C device.
    I2cWrite { handle: i32, addr: u16, data_out: Vec<u8> },
    /// Bytes are read from an I2C device; `data_in` is what the device gives.
    I2cRead { handle: i32, addr: u16, data_in: Vec<u8> },
    /// Bytes are written to an I2C device, and bytes are read back; `data_in` is what the device gives.
    I2cWriteRead { handle: i32, addr: u16, data_out: Vec<u8>, data_in: Vec<u8> },
    /// An SPI bus is opened.
    SpiInit { port: u32, baud: u32, mosi: i32, miso: i32, sck: i32, cs: i32 },
    /// An SPI bus is released.
    SpiDeinit { handle: i32 },
    /// Bytes are read from an SPI bus; `data_in` is what the bus gives.
    SpiRead { handle: i32, data_in: Vec<u8> },
    /// Bytes are written to an SPI bus.
    SpiWrite { handle: i32, data_out: Vec<u8> },
    /// Bytes are exchanged over an SPI bus; `data_in` is what the bus gives.
    SpiTransfer { handle: i32, data_out: Vec<u8>, data_in: Vec<u8> },
    /// A serial port is opened.
    UartInit { port: u32, baud: u32, tx: i32, rx: i32 },
    /// A serial port is released.
    UartDeinit { handle: i32 },
    /// Bytes are sent through a serial port.
    UartWrite { handle: i32, flags: u32, data_out: Vec<u8> },
    /// Bytes are received from a serial port; `data_in` is what the port gives.
    UartRead { handle: i32, flags: u32, data_in: Vec<u8> },
    /// A line is opened.
    GpioInit { port: i32, pin: i32, output: bool },
    /// A line is released.
    GpioDeinit { handle: i32 },
    /// A line is driven.
    GpioSet { handle: i32, state: PinState },
    /// A line is sampled; `state` is what the line shows.
    GpioGet { handle: i32, state: PinState },
}

/// What a `Kind` stands for, with each byte buffer as a sequence.
#[allow(inconsistent_fields)]
pub enum KindView {
    I2cInit { port: u32, baud: u32, sda: i32, scl: i32 },
    I2cDeinit { handle: i32 },
    I2cWrite { handle: i32, addr: u16, data_out: Seq<u8> },
    I2cRead { handle: i32, addr: u16, data_in: Seq<u8> },
    I2cWriteRead { handle: i32, addr: u16, data_out: Seq<u8>, data_in: Seq<u8> },
    SpiInit { port: u32, baud: u32, mosi: i32, miso: i32, sck: i32, cs: i32 },
    SpiDeinit { handle: i32 },
    SpiRead { handle: i32, data_in: Seq<u8> },
    SpiWrite { handle: i32, data_out: Seq<u8> },
    SpiTransfer { handle: i32, data_out: Seq<u8>, data_in: Seq<u8> },
    UartInit { port: u32, baud: u32, tx: i32, rx: i32 },
    UartDeinit { handle: i32 },
    UartWrite { handle: i32, flags: u32, data_out: Seq<u8> },
    UartRead { handle: i32, flags: u32, data_in: Seq<u8> },
    GpioInit { port: i32, pin: i32, output: bool },
    GpioDeinit { handle: i32 },
    GpioSet { handle: i32, state: PinState },
    GpioGet { handle: i32, state: PinState },
}

impl View for Kind {
    type V = KindView;

    open spec fn view(&self) -> KindView {
        match *self {
            Kind::I2cInit { port, baud, sda, scl } => KindView::I2cInit { port, baud, sda, scl },
            Kind::I2cDeinit { handle } => KindView::I2cDeinit { handle },
            Kind::I2cWrite { handle, addr, data_out } => KindView::I2cWrite { handle, addr, data_out: data_out@ },
            Kind::I2cRead { handle, addr, data_in } => KindView::I2cRead { handle, addr, data_in: data_in@ },
            Kind::I2cWriteRead { handle, addr, data_out, data_in } => KindView::I2cWriteRead { handle, addr, data_out: data_out@, data_in: data_in@ },
            Kind::SpiInit { port, baud, mosi, miso, sck, cs } => KindView::SpiInit { port, baud, mosi, miso, sck, cs },
            Kind::SpiDeinit { handle } => KindView::SpiDeinit { handle },
            Kind::SpiRead { handle, data_in } => KindView::SpiRead { handle, data_in: data_in@ },
            Kind::SpiWrite { handle, data_out } => KindView::SpiWrite { handle, data_out: data_out@ },
            Kind::SpiTransfer { handle, data_out, data_in } => KindView::SpiTransfer { handle, data_out: data_out@, data_in: data_in@ },
            Kind::UartInit { port, baud, tx, rx } => KindView::UartInit { port, baud, tx, rx },
            Kind::UartDeinit { handle } => KindView::UartDeinit { handle },
            Kind::UartWrite { handle, flags, data_out } => KindView::UartWrite { handle, flags, data_out: data_out@ },
            Kind::UartRead { handle, flags, data_in } => KindView::UartRead { handle, flags, data_in: data_in@ },
            Kind::GpioInit { port, pin, output } => KindView::GpioInit { port, pin, output },
            Kind::GpioDeinit { handle } => KindView::GpioDeinit { handle },
            Kind::GpioSet { handle, state } => KindView::GpioSet { handle, state },
            Kind::GpioGet { handle, state } => KindView::GpioGet { handle, state },
        }
    }
}

impl Clone for Kind {
    /// A copy that stands for the same call.
    fn clone(&self) -> (r: Kind)
        ensures
            r@ == self@,
    {
        match self {
            Kind::I2cInit { port, baud, sda, scl } => Kind::I2cInit { port: *port, baud: *baud, sda: *sda, scl: *scl },
            Kind::I2cDeinit { handle } => Kind::I2cDeinit { handle: *handle },
            Kind::I2cWrite { handle, addr, data_out } => Kind::I2cWrite { handle: *handle, addr: *addr, data_out: data_out.clone() },
            Kind::I2cRead { handle, addr, data_in } => Kind::I2cRead { handle: *handle, addr: *addr, data_in: data_in.clone() },
            Kind::I2cWriteRead { handle, addr, data_out, data_in } => Kind::I2cWriteRead { handle: *handle, addr: *addr, data_out: data_out.clone(), data_in: data_in.clone() },
            Kind::SpiInit { port, baud, mosi, miso, sck, cs } => Kind::SpiInit { port: *port, baud: *baud, mosi: *mosi, miso: *miso, sck: *sck, cs: *cs },
            Kind::SpiDeinit { handle } => Kind::SpiDeinit { handle: *handle },
            Kind::SpiRead { handle, data_in } => Kind::SpiRead { handle: *handle, data_in: data_in.clone() },
            Kind::SpiWrite { handle, data_out } => Kind::SpiWrite { handle: *handle, data_out: data_out.clone() },
            Kind::SpiTransfer { handle, data_out, data_in } => Kind::SpiTransfer { handle: *handle, data_out: data_out.clone(), data_in: data_in.clone() },
            Kind::UartInit { port, baud, tx, rx } => Kind::UartInit { port: *port, baud: *baud, tx: *tx, rx: *rx },
            Kind::UartDeinit { handle } => Kind::UartDeinit { handle: *handle },
            Kind::UartWrite { handle, flags, data_out } => Kind::UartWrite { handle: *handle, flags: *flags, data_out: data_out.clone() },
            Kind::UartRead { handle, flags, data_in } => Kind::UartRead { handle: *handle, flags: *flags, data_in: data_in.clone() },
            Kind::GpioInit { port, pin, output } => Kind::GpioInit { port: *port, pin: *pin, output: *output },
            Kind::GpioDeinit { handle } => Kind::GpioDeinit { handle: *handle },
            Kind::GpioSet { handle, state } => Kind::GpioSet { handle: *handle, state: *state },
            Kind::GpioGet { handle, state } => Kind::GpioGet { handle: *handle, state: *state },
        }
    }
}

impl Kind {
    /// Whether two records stand for the same call: the same variant with
    /// the same arguments and the same data.
    pub fn same(&self, other: &Kind) -> (r: bool)
        ensures
            r == (self@ == other@),
    {
        match (self, other) {
            (Kind::I2cInit { port, baud, sda, scl }, Kind::I2cInit { port: port2, baud: baud2, sda: sda2, scl: scl2 }) => {
                *port == *port2 && *baud == *baud2 && *sda == *sda2 && *scl == *scl2
            },
            (Kind::I2cDeinit { handle }, Kind::I2cDeinit { handle: handle2 }) => {
                *handle == *handle2
            },
            (Kind::I2cWrite { handle, addr, data_out }, Kind::I2cWrite { handle: handle2, addr: addr2, data_out: data_out2 }) => {
                *handle == *handle2 && *addr == *addr2 && bytes_equal(data_out.as_slice(), data_out2.as_slice())
            },
            (Kind::I2cRead { handle, addr, data_in }, Kind::I2cRead { handle: handle2, addr: addr2, data_in: data_in2 }) => {
                *handle == *handle2 && *addr == *addr2 && bytes_equal(data_in.as_slice(), data_in2.as_slice())
            },
            (Kind::I2cWriteRead { handle, addr, data_out, data_in }, Kind::I2cWriteRead { handle: handle2, addr: addr2, data_out: data_out2, data_in: data_in2 }) => {
                *handle == *handle2 && *addr == *addr2 && bytes_equal(data_out.as_slice(), data_out2.as_slice()) && bytes_equal(data_in.as_slice(), data_in2.as_slice())
            },
            (Kind::SpiInit { port, baud, mosi, miso, sck, cs }, Kind::SpiInit { port: port2, baud: baud2, mosi: mosi2, miso: miso2, sck: sck2, cs: cs2 }) => {
                *port == *port2 && *baud == *baud2 && *mosi == *mosi2 && *miso == *miso2 && *sck == *sck2 && *cs == *cs2
            },
            (Kind::SpiDeinit { handle }, Kind::SpiDeinit { handle: handle2 }) => {
                *handle == *handle2
            },
            (Kind::SpiRead { handle, data_in }, Kind::SpiRead { handle: handle2, data_in: data_in2 }) => {
                *handle == *handle2 && bytes_equal(data_in.as_slice(), data_in2.as_slice())
            },
            (Kind::SpiWrite { handle, data_out }, Kind::SpiWrite { handle: handle2, data_out: data_out2 }) => {
                *handle == *handle2 && bytes_equal(data_out.as_slice(), data_out2.as_slice())
            },
            (Kind::SpiTransfer { handle, data_out, data_in }, Kind::SpiTransfer { handle: handle2, data_out: data_out2, data_in: data_in2 }) => {
                *handle == *handle2 && bytes_equal(data_out.as_slice(), data_out2.as_slice()) && bytes_equal(data_in.as_slice(), data_in2.as_slice())
            },
            (Kind::UartInit { port, baud, tx, rx }, Kind::UartInit { port: port2, baud: baud2, tx: tx2, rx: rx2 }) => {
                *port == *port2 && *baud == *baud2 && *tx == *tx2 && *rx == *rx2
            },
            (Kind::UartDeinit { handle }, Kind::UartDeinit { handle: handle2 }) => {
                *handle == *handle2
            },
            (Kind::UartWrite { handle, flags, data_out }, Kind::UartWrite { handle: handle2, flags: flags2, data_out: data_out2 }) => {
                *handle == *handle2 && *flags == *flags2 && bytes_equal(data_out.as_slice(), data_out2.as_slice())
            },
            (Kind::UartRead { handle, flags, data_in }, Kind::UartRead { handle: handle2, flags: flags2, data_in: data_in2 }) => {
                *handle == *handle2 && *flags == *flags2 && bytes_equal(data_in.as_slice(), data_in2.as_slice())
            },
            (Kind::GpioInit { port, pin, output }, Kind::GpioInit { port: port2, pin: pin2, output: output2 }) => {
                *port == *port2 && *pin == *pin2 && *output == *output2
            },
            (Kind::GpioDeinit { handle }, Kind::GpioDeinit { handle: handle2 }) => {
                *handle == *handle2
            },
            (Kind::GpioSet { handle, state }, Kind::GpioSet { handle: handle2, state: state2 }) => {
                *handle == *handle2 && *state == *state2
            },
            (Kind::GpioGet { handle, state }, Kind::GpioGet { handle: handle2, state: state2 }) => {
                *handle == *handle2 && *state == *state2
            },
            _ => false,
        }
    }
}

/// An expected operation: a call, and the number the backend answers it
/// with (the handle for a call that opens a device).
#[derive(PartialEq, Debug)]
pub struct Op {
    pub kind: Kind,
    pub res: i32,
}

/// What an `Op` stands for.
pub struct OpView {
    pub kind: KindView,
    pub res: i32,
}

impl View for Op {
    type V = OpView;

    open spec fn view(&self) -> OpView {
        OpView { kind: self.kind@, res: self.res }
    }
}

impl Clone for Op {
    /// A copy that stands for the same expected operation.
    fn clone(&self) -> (r: Op)
        ensures
            r@ == self@,
    {
        Op { kind: self.kind.clone(), res: self.res }
    }
}

/// The bytes that a call that reads hands to its caller; empty for a call
/// that reads nothing.
pub open spec fn data_in(kind: KindView) -> Seq<u8> {
    match kind {
        KindView::I2cRead { data_in, .. } => data_in,
        KindView::I2cWriteRead { data_in, .. } => data_in,
        KindView::SpiRead { data_in, .. } => data_in,
        KindView::SpiTransfer { data_in, .. } => data_in,
        KindView::UartRead { data_in, .. } => data_in,
        _ => Seq::<u8>::empty(),
    }
}

/// Whether the call `call` is the one that `expected` asks for.
///
/// `call` carries what the caller supplies. For a call that reads, its
/// `data_in` is the caller's buffer, of which only the length counts, since
/// the expected data is what the buffer will hold. For a call that samples
/// a line, its `state` does not count, since the expected state is what the
/// caller will be told. Everything else has to be equal.
pub open spec fn admits(expected: KindView, call: KindView) -> bool {
    match (expected, call) {
        (
            KindView::I2cRead { handle, addr, data_in },
            KindView::I2cRead { handle: h, addr: a, data_in: buff },
        ) => handle == h && addr == a && data_in.len() == buff.len(),
        (
            KindView::I2cWriteRead { handle, addr, data_out, data_in },
            KindView::I2cWriteRead { handle: h, addr: a, data_out: d, data_in: buff },
        ) => handle == h && addr == a && data_out == d && data_in.len() == buff.len(),
        (KindView::SpiRead { handle, data_in }, KindView::SpiRead { handle: h, data_in: buff }) => {
            handle == h && data_in.len() == buff.len()
        },
        (
            KindView::SpiTransfer { handle, data_out, data_in },
            KindView::SpiTransfer { handle: h, data_out: d, data_in: buff },
        ) => handle == h && data_out == d && data_in.len() == buff.len(),
        (
            KindView::UartRead { handle, flags, data_in },
            KindView::UartRead { handle: h, flags: f, data_in: buff },
        ) => handle == h && flags == f && data_in.len() == buff.len(),
        (KindView::GpioGet { handle, .. }, KindView::GpioGet { handle: h, .. }) => handle == h,
        _ => expected == call,
    }
}

impl Kind {
    /// Whether `call` is the call that this expected record asks for.
    pub fn answers(&self, call: &Kind) -> (r: bool)
        ensures
            r == admits(self@, call@),
    {
        match (self, call) {
            (
                Kind::I2cRead { handle, addr, data_in },
                Kind::I2cRead { handle: h, addr: a, data_in: buff },
            ) => *handle == *h && *addr == *a && data_in.len() == buff.len(),
            (
                Kind::I2cWriteRead { handle, addr, data_out, data_in },
                Kind::I2cWriteRead { handle: h, addr: a, data_out: d, data_in: buff },
            ) => {
                *handle == *h && *addr == *a && bytes_equal(data_out.as_slice(), d.as_slice())
                    && data_in.len() == buff.len()
            },
            (Kind::SpiRead { handle, data_in }, Kind::SpiRead { handle: h, data_in: buff }) => {
                *handle == *h && data_in.len() == buff.len()
            },
            (
                Kind::SpiTransfer { handle, data_out, data_in },
                Kind::SpiTransfer { handle: h, data_out: d, data_in: buff },
            ) => {
                *handle == *h && bytes_equal(data_out.as_slice(), d.as_slice()) && data_in.len()
                    == buff.len()
            },
            (
                Kind::UartRead { handle, flags, data_in },
                Kind::UartRead { handle: h, flags: f, data_in: buff },
            ) => *handle == *h && *flags == *f && data_in.len() == buff.len(),
            (Kind::GpioGet { handle, .. }, Kind::GpioGet { handle: h, .. }) => *handle == *h,
            _ => self.same(call),
        }
    }
}

/// Copies `src` over `buff`, which has to be as long.
pub fn fill(buff: &mut [u8], src: &[u8])
    requires
        old(buff)@.len() == src@.len(),
    ensures
        final(buff)@ == src@,
{
    let n: usize = src.len();
    let mut i: usize = 0;
    while i < n
        invariant
            n == src@.len(),
            buff@.len() == n,
            i <= n,
            forall|j: int| 0 <= j < i ==> buff@[j] == src@[j],
        decreases n - i,
    {
        buff[i] = src[i];
        i = i + 1;
    }
    assert(buff@ =~= src@);
}

} // verus!
