//! Adapter for a runtime with a typed linker, in which a failing host call
//! is reported to the guest as a status code.

use crate::api::{Engine, Error};
use vstd::prelude::*;

verus! {

/// The status codes a guest can be given.
#[derive(Clone, Copy, PartialEq, Eq, Debug, Structural)]
pub enum Errno {
    Success,
    InvalidArg,
    Failed,
    NoDevice,
    Unexpected,
}

/// The status code for each capability error.
pub open spec fn spec_errno(e: Error) -> Errno {
    match e {
        Error::InvalidArg => Errno::InvalidArg,
        Error::Unexpected => Errno::Unexpected,
        Error::Failed => Errno::Failed,
        Error::NoDevice => Errno::NoDevice,
    }
}

/// The status code for each capability error.
#[verifier::when_used_as_spec(spec_errno)]
pub fn errno(e: Error) -> (r: Errno)
    ensures
        r == spec_errno(e),
{
    match e {
        Error::InvalidArg => Errno::InvalidArg,
        Error::Unexpected => Errno::Unexpected,
        Error::Failed => Errno::Failed,
        Error::NoDevice => Errno::NoDevice,
    }
}

/// The number a status code crosses the guest boundary as.
pub open spec fn spec_code(status: Errno) -> u32 {
    match status {
        Errno::Success => 0,
        Errno::InvalidArg => 1,
        Errno::Failed => 2,
        Errno::NoDevice => 3,
        Errno::Unexpected => 4,
    }
}

/// The number a status code crosses the guest boundary as.
#[verifier::when_used_as_spec(spec_code)]
pub fn code(status: Errno) -> (r: u32)
    ensures
        r == spec_code(status),
{
    match status {
        Errno::Success => 0,
        Errno::InvalidArg => 1,
        Errno::Failed => 2,
        Errno::NoDevice => 3,
        Errno::Unexpected => 4,
    }
}

/// The status a guest is given for the result of a capability operation.
pub fn status<T>(result: &Result<T, Error>) -> (r: Errno)
    ensures
        r == (match *result {
            Ok(_) => Errno::Success,
            Err(e) => spec_errno(e),
        }),
{
    match result {
        Ok(_) => Errno::Success,
        Err(e) => errno(*e),
    }
}

/// Every capability error has a status code of its own, and none is taken
/// for success.
pub proof fn lemma_errno_distinct(a: Error, b: Error)
    ensures
        spec_errno(a) != Errno::Success,
        spec_code(spec_errno(a)) != 0,
        spec_code(spec_errno(a)) == spec_code(spec_errno(b)) <==> a == b,
{
}

/// The interfaces that are registered with the linker before the guest is
/// loaded.
#[derive(Clone, Copy, PartialEq, Eq, Debug, Structural)]
pub enum Api {
    Wasi,
    Spi,
    I2c,
    Gpio,
    Uart,
}

/// The step at which a run ended without completing.
#[derive(Clone, Copy, PartialEq, Eq, Debug, Structural)]
pub enum RunError {
    /// An interface could not be registered with the linker.
    Bind(Api),
    /// The program is no valid module.
    Load,
    /// The module could not be linked and instantiated.
    Link,
    /// The guest ran and trapped.
    Trap,
}

/// What the adapter needs of the typed runtime, which owns the engine for
/// the time of the run.
pub trait TypedHost<E: Engine>: Sized {
    /// A linker and a store around `manager`.
    fn new(manager: E) -> Self;

    /// Registers the host functions of `api` with the linker.
    fn bind(&mut self, api: Api) -> bool;

    /// Compiles the guest program.
    fn load(&mut self, bin: &[u8]) -> bool;

    /// Links and instantiates the compiled program.
    fn link(&mut self) -> bool;

    /// Invokes the default function of the instance; `false` where it traps.
    fn call_default(&mut self) -> bool;
}

/// What the report of one step becomes: success goes on, and a failure ends
/// the run with `failure`.
pub fn step_outcome(succeeded: bool, failure: RunError) -> (r: Result<(), RunError>)
    ensures
        r == (if succeeded {
            Ok::<(), RunError>(())
        } else {
            Err::<(), RunError>(failure)
        }),
{
    if succeeded {
        Ok(())
    } else {
        Err(failure)
    }
}

/// The steps of a run.
#[derive(Clone, Copy, PartialEq, Eq, Debug, Structural)]
pub enum Step {
    /// An interface is registered with the linker.
    Bind(Api),
    /// The guest program is compiled.
    Load,
    /// The compiled program is linked and instantiated.
    Link,
    /// The default function of the instance is invoked.
    Call,
}

/// The steps of a run in the order in which they are taken: every
/// interface is registered before the program is loaded, and the program is
/// loaded and linked before it is invoked.
pub open spec fn order() -> Seq<Step> {
    seq![
        Step::Bind(Api::Wasi),
        Step::Bind(Api::Spi),
        Step::Bind(Api::I2c),
        Step::Bind(Api::Gpio),
        Step::Bind(Api::Uart),
        Step::Load,
        Step::Link,
        Step::Call,
    ]
}

/// The error with which a run ends where `step` fails.
pub open spec fn failure(step: Step) -> RunError {
    match step {
        Step::Bind(api) => RunError::Bind(api),
        Step::Load => RunError::Load,
        Step::Link => RunError::Link,
        Step::Call => RunError::Trap,
    }
}

/// Whether `new` may return `host` for `manager`.
pub open spec fn made<E: Engine, H: TypedHost<E>>(manager: E, host: H) -> bool {
    call_ensures(H::new, (manager,), host)
}

/// Asks the runtime once to take `step`, with `bin` as the program where
/// the step loads it, and reports whether it succeeded together with how
/// the runtime stands afterwards.
pub fn take<E: Engine, H: TypedHost<E>>(host: &mut H, step: Step, bin: &[u8]) -> (out: (
    bool,
    Ghost<H>,
))
    ensures
        out.1@ == *final(host),
        match step {
            Step::Bind(api) => exists|r: &mut H|
                *r == *old(host) && *final(r) == *final(host) && #[trigger] call_ensures(
                    H::bind,
                    (r, api),
                    out.0,
                ),
            Step::Load => exists|r: &mut H|
                *r == *old(host) && *final(r) == *final(host) && #[trigger] call_ensures(
                    H::load,
                    (r, bin),
                    out.0,
                ),
            Step::Link => exists|r: &mut H|
                *r == *old(host) && *final(r) == *final(host) && #[trigger] call_ensures(
                    H::link,
                    (r,),
                    out.0,
                ),
            Step::Call => exists|r: &mut H|
                *r == *old(host) && *final(r) == *final(host) && #[trigger] call_ensures(
                    H::call_default,
                    (r,),
                    out.0,
                ),
        },
{
    let succeeded = match step {
        Step::Bind(api) => host.bind(api),
        Step::Load => host.load(bin),
        Step::Link => host.link(),
        Step::Call => host.call_default(),
    };
    let out = (succeeded, Ghost(*host));
    assert(out.0 == succeeded);
    out
}

/// Whether a runtime that stands as `before`, asked once to take `step`
/// with `bin` as the program, may answer `succeeded` and stand as `after`
/// afterwards: that is, whether `take` may report this.
pub open spec fn step_answer<E: Engine, H: TypedHost<E>>(
    before: H,
    step: Step,
    bin: &[u8],
    after: H,
    succeeded: bool,
) -> bool {
    exists|r: &mut H|
        *r == before && #[trigger] call_ensures(
            take::<E, H>,
            (r, step, bin),
            (succeeded, Ghost(after)),
        )
}

/// Whether the runtime made around `manager` took the first steps of a run
/// on `bin` with success, each once, one fewer than `states` is long.
/// `states[0]` is the runtime as it was made, and `states[k + 1]` how step
/// `k` left it, which is how it stood when it was asked for the next.
pub open spec fn passed<E: Engine, H: TypedHost<E>>(manager: E, states: Seq<H>, bin: &[u8]) -> bool {
    &&& 1 <= states.len() <= order().len() + 1
    &&& made(manager, states[0])
    &&& forall|k: int|
        0 <= k < states.len() - 1 ==> step_answer::<E, H>(
            #[trigger] states[k],
            order()[k],
            bin,
            states[k + 1],
            true,
        )
}

/// Whether a run on `bin` with the runtime made around `manager` went as
/// `states` and `r` say.
///
/// The runtime is asked to take the steps in their order, each once.
/// `states[0]` is the runtime as it was made, and `states[k + 1]` how step
/// `k` left it, which is how it stood when it was asked for the next. It
/// took every step it was asked to take with success but, where `r` is an
/// error, the last of them, which is the step the error names; after that
/// it was asked for nothing more. Where `r` is `Ok` it was asked to take
/// every step.
pub open spec fn running<E: Engine, H: TypedHost<E>>(
    manager: E,
    states: Seq<H>,
    bin: &[u8],
    r: Result<(), RunError>,
) -> bool {
    &&& 2 <= states.len() <= order().len() + 1
    &&& made(manager, states[0])
    &&& forall|k: int|
        0 <= k < states.len() - 1 ==> step_answer::<E, H>(
            #[trigger] states[k],
            order()[k],
            bin,
            states[k + 1],
            k < states.len() - 2 || r is Ok,
        )
    &&& r is Ok ==> states.len() == order().len() + 1
    &&& r matches Err(e) ==> e == failure(order()[states.len() - 2])
}

/// A step that succeeds adds to the steps that were taken with success.
proof fn lemma_step_passed<E: Engine, H: TypedHost<E>>(manager: E, states: Seq<H>, bin: &[u8], after: H)
    requires
        passed(manager, states, bin),
        states.len() <= order().len(),
        step_answer::<E, H>(states.last(), order()[states.len() - 1], bin, after, true),
    ensures
        passed(manager, states.push(after), bin),
{
    let longer = states.push(after);
    assert(longer[0] == states[0]);
    assert forall|k: int| 0 <= k < longer.len() - 1 implies step_answer::<E, H>(
        #[trigger] longer[k],
        order()[k],
        bin,
        longer[k + 1],
        true,
    ) by {
        assert(longer[k] == states[k]);
        if k < states.len() - 1 {
            assert(longer[k + 1] == states[k + 1]);
        }
    }
}

/// A step that fails ends the run with the error that names it.
proof fn lemma_step_failed<E: Engine, H: TypedHost<E>>(manager: E, states: Seq<H>, bin: &[u8], after: H)
    requires
        passed(manager, states, bin),
        states.len() <= order().len(),
        step_answer::<E, H>(states.last(), order()[states.len() - 1], bin, after, false),
    ensures
        running(
            manager,
            states.push(after),
            bin,
            Err::<(), RunError>(failure(order()[states.len() - 1])),
        ),
{
    let longer = states.push(after);
    assert(longer[0] == states[0]);
    assert forall|k: int| 0 <= k < longer.len() - 1 implies step_answer::<E, H>(
        #[trigger] longer[k],
        order()[k],
        bin,
        longer[k + 1],
        k < longer.len() - 2,
    ) by {
        assert(longer[k] == states[k]);
        if k < states.len() - 1 {
            assert(longer[k + 1] == states[k + 1]);
        }
    }
}

/// Steps that were all taken with success make a run that completed.
proof fn lemma_all_passed<E: Engine, H: TypedHost<E>>(manager: E, states: Seq<H>, bin: &[u8])
    requires
        passed(manager, states, bin),
        states.len() == order().len() + 1,
    ensures
        running(manager, states, bin, Ok::<(), RunError>(())),
{
}

/// Run the provided application using the typed runtime: registers WASI,
/// SPI, I2C, GPIO and UART in that order, loads and links the program, and
/// invokes its default function, each once, stopping at the first step that
/// fails. The error names that step.
pub fn run<E: Engine, H: TypedHost<E>>(manager: E, bin: &[u8]) -> (r: Result<(), RunError>)
    ensures
        exists|states: Seq<H>| running(manager, states, bin, r),
{
    let ghost around = manager;
    let mut host = H::new(manager);
    let ghost mut states: Seq<H> = seq![host];
    proof {
        assert(made(around, host));
    }
    let went = take(&mut host, Step::Bind(Api::Wasi), bin).0;
    proof {
        assert(step_answer::<E, H>(states.last(), Step::Bind(Api::Wasi), bin, host, went));
    }
    match step_outcome(went, RunError::Bind(Api::Wasi)) {
        Ok(_) => {},
        Err(e) => {
            proof {
                lemma_step_failed(around, states, bin, host);
            }
            return Err(e);
        },
    }
    proof {
        lemma_step_passed(around, states, bin, host);
        states = states.push(host);
    }
    let went = take(&mut host, Step::Bind(Api::Spi), bin).0;
    proof {
        assert(step_answer::<E, H>(states.last(), Step::Bind(Api::Spi), bin, host, went));
    }
    match step_outcome(went, RunError::Bind(Api::Spi)) {
        Ok(_) => {},
        Err(e) => {
            proof {
                lemma_step_failed(around, states, bin, host);
            }
            return Err(e);
        },
    }
    proof {
        lemma_step_passed(around, states, bin, host);
        states = states.push(host);
    }
    let went = take(&mut host, Step::Bind(Api::I2c), bin).0;
    proof {
        assert(step_answer::<E, H>(states.last(), Step::Bind(Api::I2c), bin, host, went));
    }
    match step_outcome(went, RunError::Bind(Api::I2c)) {
        Ok(_) => {},
        Err(e) => {
            proof {
                lemma_step_failed(around, states, bin, host);
            }
            return Err(e);
        },
    }
    proof {
        lemma_step_passed(around, states, bin, host);
        states = states.push(host);
    }
    let went = take(&mut host, Step::Bind(Api::Gpio), bin).0;
    proof {
        assert(step_answer::<E, H>(states.last(), Step::Bind(Api::Gpio), bin, host, went));
    }
    match step_outcome(went, RunError::Bind(Api::Gpio)) {
        Ok(_) => {},
        Err(e) => {
            proof {
                lemma_step_failed(around, states, bin, host);
            }
            return Err(e);
        },
    }
    proof {
        lemma_step_passed(around, states, bin, host);
        states = states.push(host);
    }
    let went = take(&mut host, Step::Bind(Api::Uart), bin).0;
    proof {
        assert(step_answer::<E, H>(states.last(), Step::Bind(Api::Uart), bin, host, went));
    }
    match step_outcome(went, RunError::Bind(Api::Uart)) {
        Ok(_) => {},
        Err(e) => {
            proof {
                lemma_step_failed(around, states, bin, host);
            }
            return Err(e);
        },
    }
    proof {
        lemma_step_passed(around, states, bin, host);
        states = states.push(host);
    }
    let went = take(&mut host, Step::Load, bin).0;
    proof {
        assert(step_answer::<E, H>(states.last(), Step::Load, bin, host, went));
    }
    match step_outcome(went, RunError::Load) {
        Ok(_) => {},
        Err(e) => {
            proof {
                lemma_step_failed(around, states, bin, host);
            }
            return Err(e);
        },
    }
    proof {
        lemma_step_passed(around, states, bin, host);
        states = states.push(host);
    }
    let went = take(&mut host, Step::Link, bin).0;
    proof {
        assert(step_answer::<E, H>(states.last(), Step::Link, bin, host, went));
    }
    match step_outcome(went, RunError::Link) {
        Ok(_) => {},
        Err(e) => {
            proof {
                lemma_step_failed(around, states, bin, host);
            }
            return Err(e);
        },
    }
    proof {
        lemma_step_passed(around, states, bin, host);
        states = states.push(host);
    }
    let went = take(&mut host, Step::Call, bin).0;
    let r = step_outcome(went, RunError::Trap);
    proof {
        assert(step_answer::<E, H>(states.last(), Step::Call, bin, host, went));
        if went {
            lemma_step_passed(around, states, bin, host);
            lemma_all_passed(around, states.push(host), bin);
        } else {
            lemma_step_failed(around, states, bin, host);
        }
    }
    r
}

} // verus!
