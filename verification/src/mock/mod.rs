//! Scripted backend that replays and verifies an expected operation sequence.
//!
//! A session holds the script, a log of the calls it has answered, and a
//! cursor into the script. A call is answered only where it is the one the
//! script asks for next; the session then logs it, moves the cursor on and
//! answers with what the script says. At the end the log has to equal the
//! script's calls, one for one.

use vstd::prelude::*;

pub mod gpio;
pub mod i2c;
pub mod ops;
pub mod spi;
pub mod uart;

pub use gpio::MockGpio;
pub use i2c::MockI2c;
pub use spi::MockSpi;
pub use uart::MockUart;
pub use ops::{Kind, KindView, Op, OpView, PinState};

verus! {

/// Mock configuration: the script, in the order in which the calls are
/// expected.
#[derive(PartialEq, Debug)]
pub struct MockConfig {
    pub ops: Vec<Op>,
}

impl Clone for MockConfig {
    /// A copy with the same script.
    fn clone(&self) -> (r: MockConfig)
        ensures
            script_view(r.ops@) == script_view(self.ops@),
    {
        let n: usize = self.ops.len();
        let mut ops: Vec<Op> = Vec::new();
        let mut i: usize = 0;
        while i < n
            invariant
                n == self.ops@.len(),
                i <= n,
                ops@.len() == i,
                forall|j: int| 0 <= j < i ==> ops@[j]@ == self.ops@[j]@,
            decreases n - i,
        {
            ops.push(self.ops[i].clone());
            i = i + 1;
        }
        assert(script_view(ops@) =~= script_view(self.ops@));
        MockConfig { ops }
    }
}

/// The calls of a script, without their answers.
pub open spec fn kinds(script: Seq<OpView>) -> Seq<KindView> {
    Seq::new(script.len(), |i: int| script[i].kind)
}

/// The script as a sequence of expected operations.
pub open spec fn script_view(ops: Seq<Op>) -> Seq<OpView> {
    Seq::new(ops.len(), |i: int| ops[i]@)
}

/// The log as a sequence of calls.
pub open spec fn log_view(log: Seq<Kind>) -> Seq<KindView> {
    Seq::new(log.len(), |i: int| log[i]@)
}

/// What a session stands for.
pub struct SessionView {
    /// The script.
    pub expected: Seq<OpView>,
    /// The calls answered so far, oldest first.
    pub actual: Seq<KindView>,
    /// How many operations of the script have been answered.
    pub index: nat,
}

impl SessionView {
    /// A session that has answered nothing yet.
    pub open spec fn fresh(expected: Seq<OpView>) -> SessionView {
        SessionView { expected, actual: Seq::empty(), index: 0 }
    }

    /// Well-formedness: the log is the part of the script that lies before
    /// the cursor.
    pub open spec fn wf(self) -> bool {
        &&& self.index <= self.expected.len()
        &&& self.actual == kinds(self.expected).take(self.index as int)
    }

    /// Whether the script has an operation left.
    pub open spec fn has_pending(self) -> bool {
        self.index < self.expected.len()
    }

    /// The operation at the cursor; meaningful only where `has_pending`.
    pub open spec fn pending(self) -> OpView {
        self.expected[self.index as int]
    }

    /// Whether `call` is the call that the script asks for next.
    pub open spec fn expects(self, call: KindView) -> bool {
        self.has_pending() && ops::admits(self.pending().kind, call)
    }

    /// The session after it has answered the operation at the cursor.
    pub open spec fn advanced(self) -> SessionView {
        SessionView {
            expected: self.expected,
            actual: self.actual.push(self.pending().kind),
            index: self.index + 1,
        }
    }

    /// Whether the log equals the script's calls, one for one.
    pub open spec fn complete(self) -> bool {
        self.actual == kinds(self.expected)
    }
}

/// Answering the operation at the cursor keeps a session well formed.
pub proof fn lemma_advanced_wf(s: SessionView)
    requires
        s.wf(),
        s.has_pending(),
    ensures
        s.advanced().wf(),
{
    let a = s.advanced();
    assert(a.actual =~= kinds(a.expected).take(a.index as int));
}

/// A well-formed session is complete exactly when its cursor has reached
/// the end of the script.
pub proof fn lemma_complete_at_end(s: SessionView)
    requires
        s.wf(),
    ensures
        s.complete() <==> s.index == s.expected.len(),
{
    if s.index == s.expected.len() {
        assert(kinds(s.expected).take(s.index as int) =~= kinds(s.expected));
    } else {
        assert(s.actual.len() == s.index);
        assert(kinds(s.expected).len() == s.expected.len());
    }
}

/// Every call is the one that it asks for itself.
pub proof fn lemma_admits_itself(kind: KindView)
    ensures
        ops::admits(kind, kind),
{
}

/// The session after it has answered the next `n` operations of its script.
pub open spec fn replayed(s: SessionView, n: nat) -> SessionView
    decreases n,
{
    if n == 0 {
        s
    } else {
        replayed(s, (n - 1) as nat).advanced()
    }
}

/// A script that is played from its start answers each of its own calls in
/// turn, and is complete exactly when the last of them is answered.
pub proof fn lemma_script_replays(expected: Seq<OpView>, n: nat)
    requires
        n <= expected.len(),
    ensures
        replayed(SessionView::fresh(expected), n).wf(),
        replayed(SessionView::fresh(expected), n).expected == expected,
        replayed(SessionView::fresh(expected), n).index == n,
        n < expected.len() ==> replayed(SessionView::fresh(expected), n).expects(expected[n as int].kind),
        replayed(SessionView::fresh(expected), n).complete() <==> n == expected.len(),
    decreases n,
{
    let start = SessionView::fresh(expected);
    if n == 0 {
        assert(start.actual =~= kinds(expected).take(0));
    } else {
        lemma_script_replays(expected, (n - 1) as nat);
        lemma_advanced_wf(replayed(start, (n - 1) as nat));
    }
    let s = replayed(start, n);
    lemma_complete_at_end(s);
    if n < expected.len() {
        lemma_admits_itself(expected[n as int].kind);
    }
}

/// Why a session does not answer a call.
#[derive(PartialEq, Debug)]
pub struct Mismatch {
    /// The position in the script at which the call arrived.
    pub index: usize,
    /// The call the script asks for there, or `None` beyond its end.
    pub expected: Option<Kind>,
    /// The call that arrived.
    pub actual: Kind,
}

/// Inner storage of the mock drivers: the session state.
pub struct Inner {
    expected: Vec<Op>,
    actual: Vec<Kind>,
    index: usize,
}

impl View for Inner {
    type V = SessionView;

    closed spec fn view(&self) -> SessionView {
        SessionView {
            expected: script_view(self.expected@),
            actual: log_view(self.actual@),
            index: self.index as nat,
        }
    }
}

impl Inner {
    /// A session on the script `expected` that has answered nothing yet.
    pub fn new(expected: Vec<Op>) -> (r: Inner)
        ensures
            r@ == SessionView::fresh(script_view(expected@)),
            r@.wf(),
    {
        let r = Inner { expected, actual: Vec::new(), index: 0 };
        assert(r@.actual =~= Seq::<KindView>::empty());
        assert(r@.actual =~= kinds(r@.expected).take(0));
        r
    }

    /// How many operations of the script have been answered.
    pub fn index(&self) -> (r: usize)
        ensures
            r == self@.index,
    {
        self.index
    }

    /// How many operations the script has.
    pub fn expected_len(&self) -> (r: usize)
        ensures
            r == self@.expected.len(),
    {
        self.expected.len()
    }

    /// The operation at the cursor, or `None` where the script has none
    /// left.
    pub fn pending(&self) -> (r: Option<&Op>)
        ensures
            match r {
                Some(op) => self@.has_pending() && op@ == self@.pending(),
                None => !self@.has_pending(),
            },
    {
        if self.index < self.expected.len() {
            Some(&self.expected[self.index])
        } else {
            None
        }
    }

    /// Tells whether the session answers `call`, and if not, why: what the
    /// script asks for at the cursor against what arrived. The session stays
    /// as it is.
    pub fn check(&self, call: &Kind) -> (r: Result<(), Mismatch>)
        ensures
            r is Ok <==> self@.expects(call@),
            match r {
                Ok(_) => true,
                Err(m) => {
                    &&& m.index == self@.index
                    &&& m.actual@ == call@
                    &&& match m.expected {
                        Some(kind) => self@.has_pending() && kind@ == self@.pending().kind,
                        None => !self@.has_pending(),
                    }
                },
            },
    {
        match self.pending() {
            Some(op) => {
                if op.kind.answers(call) {
                    Ok(())
                } else {
                    Err(
                        Mismatch {
                            index: self.index,
                            expected: Some(op.kind.clone()),
                            actual: call.clone(),
                        },
                    )
                }
            },
            None => Err(Mismatch { index: self.index, expected: None, actual: call.clone() }),
        }
    }

    /// Answers the operation at the cursor: logs its call, moves the cursor
    /// on and returns the number the script gives for it.
    pub(crate) fn advance(&mut self) -> (res: i32)
        requires
            old(self)@.has_pending(),
        ensures
            final(self)@ == old(self)@.advanced(),
            res == old(self)@.pending().res,
            old(self)@.wf() ==> final(self)@.wf(),
    {
        let n: usize = self.expected.len();
        assert(self.index < n);
        let kind = self.expected[self.index].kind.clone();
        let res = self.expected[self.index].res;
        self.actual.push(kind);
        self.index = self.index + 1;
        proof {
            assert(self@.actual =~= old(self)@.advanced().actual);
            if old(self)@.wf() {
                lemma_advanced_wf(old(self)@);
            }
        }
        res
    }

    /// The check at the end of a session: whether the log equals the
    /// script's calls in number, order and content.
    pub fn verify(&self) -> (r: bool)
        ensures
            r == self@.complete(),
            self@.wf() ==> r == (self@.index == self@.expected.len()),
    {
        proof {
            if self@.wf() {
                lemma_complete_at_end(self@);
            }
        }
        if self.actual.len() != self.expected.len() {
            assert(self@.actual.len() != kinds(self@.expected).len());
            return false;
        }
        let n: usize = self.actual.len();
        let mut i: usize = 0;
        while i < n
            invariant
                n == self.actual@.len(),
                n == self.expected@.len(),
                i <= n,
                forall|j: int| 0 <= j < i ==> self@.actual[j] == kinds(self@.expected)[j],
            decreases n - i,
        {
            if !self.actual[i].same(&self.expected[i].kind) {
                assert(self@.actual[i as int] != kinds(self@.expected)[i as int]);
                return false;
            }
            i = i + 1;
        }
        assert(self@.actual =~= kinds(self@.expected));
        true
    }
}

/// Mock driver context: one session, reached through one capability at a
/// time.
pub struct MockCtx {
    pub inner: Inner,
}

impl MockCtx {
    /// A context on the script of `config` that has answered nothing yet.
    pub fn load(config: MockConfig) -> (r: MockCtx)
        ensures
            r.inner@ == SessionView::fresh(script_view(config.ops@)),
            r.inner@.wf(),
    {
        MockCtx { inner: Inner::new(config.ops) }
    }

    /// The GPIO capability of this context's session.
    pub fn gpio(&mut self) -> (r: MockGpio<'_>)
        ensures
            *r.inner == old(self).inner,
            *final(r.inner) == final(self).inner,
    {
        MockGpio::new(&mut self.inner)
    }

    /// The I2C capability of this context's session.
    pub fn i2c(&mut self) -> (r: MockI2c<'_>)
        ensures
            *r.inner == old(self).inner,
            *final(r.inner) == final(self).inner,
    {
        MockI2c::new(&mut self.inner)
    }

    /// The SPI capability of this context's session.
    pub fn spi(&mut self) -> (r: MockSpi<'_>)
        ensures
            *r.inner == old(self).inner,
            *final(r.inner) == final(self).inner,
    {
        MockSpi::new(&mut self.inner)
    }

    /// The UART capability of this context's session.
    pub fn uart(&mut self) -> (r: MockUart<'_>)
        ensures
            *r.inner == old(self).inner,
            *final(r.inner) == final(self).inner,
    {
        MockUart::new(&mut self.inner)
    }

    /// Tells whether the session answers `call`, and if not, why.
    pub fn check(&self, call: &Kind) -> (r: Result<(), Mismatch>)
        ensures
            r is Ok <==> self.inner@.expects(call@),
            match r {
                Ok(_) => true,
                Err(m) => {
                    &&& m.index == self.inner@.index
                    &&& m.actual@ == call@
                    &&& match m.expected {
                        Some(kind) => self.inner@.has_pending() && kind@ == self.inner@.pending().kind,
                        None => !self.inner@.has_pending(),
                    }
                },
            },
    {
        self.inner.check(call)
    }

    /// The check at the end of a session: whether the calls answered equal
    /// the script's calls in number, order and content.
    pub fn verify(&self) -> (r: bool)
        ensures
            r == self.inner@.complete(),
            self.inner@.wf() ==> r == (self.inner@.index == self.inner@.expected.len()),
    {
        self.inner.verify()
    }
}

} // verus!
