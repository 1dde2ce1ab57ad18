//! Adapter for a runtime that is driven through a C function table.
//!
//! The adapter owns the order of a session: create, bind the drivers, run,
//! tear down. What crosses the foreign boundary goes through `Wasm3Host`.
//! The context handed to the runtime with each driver table is an index into
//! the adapter's own table of bound peripherals, never an address, and is
//! resolved through that table on every call back.

use crate::api::Engine;
use vstd::prelude::*;

verus! {

/// Name under which the guest task is registered.
pub const TASK_NAME: &'static str = "wasme";

/// Entry point that is invoked to run the guest.
pub const START_STR: &'static str = "_start";

/// Stack handed to the runtime, in bytes.
pub const STACK_SIZE: u32 = 10 * 1024;

/// WASM3 runtime errors.
#[derive(Clone, Copy, PartialEq, Eq, Debug, Structural)]
pub enum Wasm3Err {
    /// Failed to create context.
    Ctx,
    /// I2C init error, with the runtime's code.
    I2c(i32),
    /// SPI init error, with the runtime's code.
    Spi(i32),
    /// GPIO init error, with the runtime's code.
    Gpio(i32),
    /// Execution error, with the runtime's code.
    Exec(i32),
    /// Driver binding error, with the runtime's code.
    Bind(i32),
}

/// The kinds of peripheral.
#[derive(Clone, Copy, PartialEq, Eq, Debug, Structural)]
pub enum Peripheral {
    Gpio,
    Spi,
    I2c,
    Uart,
}

/// Where a guest-execution session stands.
#[derive(Clone, Copy, PartialEq, Eq, Debug, Structural)]
pub enum Stage {
    /// The guest is loaded; the drivers are not all bound.
    Created,
    /// Every driver the runtime supports is bound.
    Bound,
    /// The entry point has been invoked and has not returned.
    Running,
    /// The entry point returned normally.
    Completed,
    /// The entry point ended with the error code carried here.
    Trapped(i32),
}

/// What the adapter needs of the foreign runtime.
pub trait Wasm3Host: Sized {
    /// Creates a runtime context for the task `name` with the guest program
    /// `data` and a stack of `stack_size` bytes; `None` where the runtime
    /// gives none.
    fn init(name: &str, data: &[u8], stack_size: u32) -> Option<Self>;

    /// Registers the function table through which the guest reaches the
    /// `kind` capability of `engine`, with `context` as the value that every
    /// call through the table brings back. Negative on failure.
    fn bind<E: Engine>(&mut self, kind: Peripheral, engine: &mut E, context: u32) -> i32;

    /// Invokes the function `entry` of the guest. Negative on failure.
    fn run(&mut self, entry: &str) -> i32;

    /// Releases the runtime context.
    fn deinit(&mut self);
}

/// The context value under which a kind of peripheral is bound.
pub open spec fn spec_context_of(kind: Peripheral) -> u32 {
    match kind {
        Peripheral::Gpio => 0,
        Peripheral::Spi => 1,
        Peripheral::I2c => 2,
        Peripheral::Uart => 3,
    }
}

/// The context value under which a kind of peripheral is bound.
#[verifier::when_used_as_spec(spec_context_of)]
pub fn context_of(kind: Peripheral) -> (r: u32)
    ensures
        r == spec_context_of(kind),
{
    match kind {
        Peripheral::Gpio => 0,
        Peripheral::Spi => 1,
        Peripheral::I2c => 2,
        Peripheral::Uart => 3,
    }
}

/// The kind of peripheral that a context value stands for, if any.
pub open spec fn spec_kind_of(context: u32) -> Option<Peripheral> {
    if context == 0 {
        Some(Peripheral::Gpio)
    } else if context == 1 {
        Some(Peripheral::Spi)
    } else if context == 2 {
        Some(Peripheral::I2c)
    } else if context == 3 {
        Some(Peripheral::Uart)
    } else {
        None
    }
}

/// The kind of peripheral that a context value stands for, if any.
#[verifier::when_used_as_spec(spec_kind_of)]
pub fn kind_of(context: u32) -> (r: Option<Peripheral>)
    ensures
        r == spec_kind_of(context),
{
    if context == 0 {
        Some(Peripheral::Gpio)
    } else if context == 1 {
        Some(Peripheral::Spi)
    } else if context == 2 {
        Some(Peripheral::I2c)
    } else if context == 3 {
        Some(Peripheral::Uart)
    } else {
        None
    }
}

/// Each kind has a context value of its own, from which it is found again.
pub proof fn lemma_context_round_trip(kind: Peripheral)
    ensures
        spec_kind_of(spec_context_of(kind)) == Some(kind),
{
}

/// What the code returned by a binding call becomes: a negative code is a
/// binding error that carries it, any other is success.
pub open spec fn spec_bind_outcome(code: i32) -> Result<(), Wasm3Err> {
    if code < 0 {
        Err(Wasm3Err::Bind(code))
    } else {
        Ok(())
    }
}

/// What the code returned by the entry point becomes: a negative code is an
/// execution error that carries it, any other is success.
pub open spec fn spec_exec_outcome(code: i32) -> Result<(), Wasm3Err> {
    if code < 0 {
        Err(Wasm3Err::Exec(code))
    } else {
        Ok(())
    }
}

/// Whether `init` may return `made` for the guest program `data`, under the
/// task name and with the stack that every runtime is created with.
pub open spec fn context_made<H: Wasm3Host>(data: &[u8], made: Option<H>) -> bool {
    call_ensures(H::init, (TASK_NAME, data, STACK_SIZE), made)
}

/// Asks the runtime once to register the function table of the `kind`
/// driver of `engine` under `context`, and reports the code it answers
/// together with how the runtime and the engine stand afterwards.
pub fn bind_once<H: Wasm3Host, E: Engine>(
    host: &mut H,
    kind: Peripheral,
    engine: &mut E,
    context: u32,
) -> (out: (i32, Ghost<H>, Ghost<E>))
    ensures
        out.1@ == *final(host),
        out.2@ == *final(engine),
        exists|r: &mut H, e: &mut E|
            *r == *old(host) && *final(r) == *final(host) && *e == *old(engine) && *final(e)
                == *final(engine) && #[trigger] call_ensures(
                H::bind::<E>,
                (r, kind, e, context),
                out.0,
            ),
{
    let code = host.bind(kind, engine, context);
    let out = (code, Ghost(*host), Ghost(*engine));
    assert(out.0 == code);
    out
}

/// Asks the runtime once to invoke the entry point of the guest, and
/// reports the code it answers together with how the runtime stands
/// afterwards.
pub fn run_once<H: Wasm3Host>(host: &mut H) -> (out: (i32, Ghost<H>))
    ensures
        out.1@ == *final(host),
        exists|r: &mut H|
            *r == *old(host) && *final(r) == *final(host) && #[trigger] call_ensures(
                H::run,
                (r, START_STR),
                out.0,
            ),
{
    let code = host.run(START_STR);
    let out = (code, Ghost(*host));
    assert(out.0 == code);
    out
}

/// Whether a runtime that stands as `before`, asked once to bind the `kind`
/// driver of an engine that stands as `engine` under the context value
/// `context`, may answer `code` and leave itself as `after` and the engine
/// as `engine_after`: that is, whether `bind_once` may report this.
pub open spec fn bind_answer<H: Wasm3Host, E: Engine>(
    before: H,
    kind: Peripheral,
    engine: E,
    context: u32,
    after: H,
    engine_after: E,
    code: i32,
) -> bool {
    exists|r: &mut H, e: &mut E|
        *r == before && *e == engine && #[trigger] call_ensures(
            bind_once::<H, E>,
            (r, kind, e, context),
            (code, Ghost(after), Ghost(engine_after)),
        )
}

/// Whether binding the `kind` driver may end with `r`: the runtime is asked
/// once to bind it under the context value of that kind, `r` is what the
/// code it answers becomes, and `after` and `engine_after` are how that one
/// call leaves the runtime and the engine.
pub open spec fn binds<H: Wasm3Host, E: Engine>(
    before: H,
    kind: Peripheral,
    engine: E,
    after: H,
    engine_after: E,
    r: Result<(), Wasm3Err>,
) -> bool {
    exists|code: i32|
        #[trigger] bind_answer(
            before,
            kind,
            engine,
            spec_context_of(kind),
            after,
            engine_after,
            code,
        ) && r == spec_bind_outcome(code)
}

/// The drivers that are bound into every session, in the order in which
/// they are bound: one for each kind of peripheral.
pub open spec fn drivers() -> Seq<Peripheral> {
    seq![Peripheral::Gpio, Peripheral::Spi, Peripheral::I2c, Peripheral::Uart]
}

/// Whether binding every driver went as `hosts`, `engines` and `r` say.
///
/// The drivers are bound in their order, each at most once. `hosts[0]` and
/// `engines[0]` are how the runtime and the engine stood at the start, and
/// `hosts[k + 1]` and `engines[k + 1]` how the binding of driver `k` left
/// them, which is how they stood when the next was bound. Every binding
/// that was tried succeeded but, where `r` is an error, the last of them,
/// which ended with that error; after that nothing more was tried. Where
/// `r` is `Ok` every driver was bound.
pub open spec fn binding_all<H: Wasm3Host, E: Engine>(
    hosts: Seq<H>,
    engines: Seq<E>,
    r: Result<(), Wasm3Err>,
) -> bool {
    &&& 2 <= hosts.len() <= drivers().len() + 1
    &&& engines.len() == hosts.len()
    &&& forall|k: int|
        0 <= k < hosts.len() - 1 ==> binds(
            #[trigger] hosts[k],
            drivers()[k],
            engines[k],
            hosts[k + 1],
            engines[k + 1],
            if k < hosts.len() - 2 {
                Ok(())
            } else {
                r
            },
        )
    &&& r is Ok ==> hosts.len() == drivers().len() + 1
}

/// Whether binding every driver, from a runtime that stands as `host` and
/// an engine that stands as `engine`, may end with `r` and leave them as
/// `host_after` and `engine_after`.
pub open spec fn binds_all<H: Wasm3Host, E: Engine>(
    host: H,
    engine: E,
    host_after: H,
    engine_after: E,
    r: Result<(), Wasm3Err>,
) -> bool {
    exists|hosts: Seq<H>, engines: Seq<E>|
        #[trigger] binding_all(hosts, engines, r) && hosts[0] == host && engines[0] == engine
            && hosts.last() == host_after && engines.last() == engine_after
}

/// Whether a runtime that stands as `before`, asked once to invoke the
/// entry point, may answer `code` and leave itself as `after`: that is,
/// whether `run_once` may report this.
pub open spec fn run_answer<H: Wasm3Host>(before: H, after: H, code: i32) -> bool {
    exists|r: &mut H|
        *r == before && #[trigger] call_ensures(run_once::<H>, (r,), (code, Ghost(after)))
}

/// Whether running the guest may end with `r` in the stage `stage`: the
/// runtime is asked once to invoke the entry point, `r` and `stage` are
/// what the code it answers becomes, and `after` is how that one call
/// leaves the runtime.
pub open spec fn runs<H: Wasm3Host>(
    before: H,
    after: H,
    r: Result<(), Wasm3Err>,
    stage: Stage,
) -> bool {
    exists|code: i32|
        #[trigger] run_answer(before, after, code) && r == spec_exec_outcome(code) && stage
            == stage_after_run(code)
}

/// What the code returned by a binding call becomes: a negative code is a
/// binding error that carries it, any other is success.
#[verifier::when_used_as_spec(spec_bind_outcome)]
pub fn bind_outcome(code: i32) -> (r: Result<(), Wasm3Err>)
    ensures
        r == spec_bind_outcome(code),
        r == (if code < 0 {
            Err::<(), Wasm3Err>(Wasm3Err::Bind(code))
        } else {
            Ok::<(), Wasm3Err>(())
        }),
{
    if code < 0 {
        Err(Wasm3Err::Bind(code))
    } else {
        Ok(())
    }
}

/// What the code returned by the entry point becomes: a negative code is an
/// execution error that carries it, any other is success.
#[verifier::when_used_as_spec(spec_exec_outcome)]
pub fn exec_outcome(code: i32) -> (r: Result<(), Wasm3Err>)
    ensures
        r == spec_exec_outcome(code),
        r == (if code < 0 {
            Err::<(), Wasm3Err>(Wasm3Err::Exec(code))
        } else {
            Ok::<(), Wasm3Err>(())
        }),
{
    if code < 0 {
        Err(Wasm3Err::Exec(code))
    } else {
        Ok(())
    }
}

/// The stage a session ends in, given the code the entry point returned.
pub open spec fn stage_after_run(code: i32) -> Stage {
    if code < 0 {
        Stage::Trapped(code)
    } else {
        Stage::Completed
    }
}

/// Which kinds of peripheral are bound.
#[derive(Clone, Copy, PartialEq, Eq, Debug, Structural)]
pub struct Bindings {
    pub gpio: bool,
    pub spi: bool,
    pub i2c: bool,
    pub uart: bool,
}

impl Bindings {
    /// No kind is bound.
    pub open spec fn spec_none() -> Bindings {
        Bindings { gpio: false, spi: false, i2c: false, uart: false }
    }

    /// No kind is bound.
    #[verifier::when_used_as_spec(spec_none)]
    pub fn none() -> (r: Bindings)
        ensures
            r == Bindings::spec_none(),
    {
        Bindings { gpio: false, spi: false, i2c: false, uart: false }
    }

    /// Whether `kind` is bound.
    pub open spec fn spec_has(self, kind: Peripheral) -> bool {
        match kind {
            Peripheral::Gpio => self.gpio,
            Peripheral::Spi => self.spi,
            Peripheral::I2c => self.i2c,
            Peripheral::Uart => self.uart,
        }
    }

    /// Whether `kind` is bound.
    #[verifier::when_used_as_spec(spec_has)]
    pub fn has(self, kind: Peripheral) -> (r: bool)
        ensures
            r == self.spec_has(kind),
    {
        match kind {
            Peripheral::Gpio => self.gpio,
            Peripheral::Spi => self.spi,
            Peripheral::I2c => self.i2c,
            Peripheral::Uart => self.uart,
        }
    }

    /// These bindings with `kind` bound as well.
    pub open spec fn spec_with(self, kind: Peripheral) -> Bindings {
        match kind {
            Peripheral::Gpio => Bindings { gpio: true, ..self },
            Peripheral::Spi => Bindings { spi: true, ..self },
            Peripheral::I2c => Bindings { i2c: true, ..self },
            Peripheral::Uart => Bindings { uart: true, ..self },
        }
    }

    /// These bindings with `kind` bound as well.
    #[verifier::when_used_as_spec(spec_with)]
    pub fn with(self, kind: Peripheral) -> (r: Bindings)
        ensures
            r == self.spec_with(kind),
    {
        match kind {
            Peripheral::Gpio => Bindings { gpio: true, ..self },
            Peripheral::Spi => Bindings { spi: true, ..self },
            Peripheral::I2c => Bindings { i2c: true, ..self },
            Peripheral::Uart => Bindings { uart: true, ..self },
        }
    }

    /// The bound kind that `context` stands for, if any.
    pub open spec fn spec_resolve(self, context: u32) -> Option<Peripheral> {
        match spec_kind_of(context) {
            Some(kind) => if self.spec_has(kind) {
                Some(kind)
            } else {
                None
            },
            None => None,
        }
    }
}

/// A context value that comes back from the guest stands for the peripheral
/// it was handed out for, provided that one is bound, and for no other; and
/// where nothing is bound it stands for nothing. So a call through a
/// function table reaches the same capability as a call that names it.
pub proof fn lemma_resolve_bound(bound: Bindings, kind: Peripheral, context: u32)
    ensures
        bound.spec_has(kind) ==> bound.spec_resolve(spec_context_of(kind)) == Some(kind),
        bound.spec_resolve(context) == Some(kind) ==> context == spec_context_of(kind)
            && bound.spec_has(kind),
        Bindings::spec_none().spec_resolve(context) is None,
{
}

/// Stands for the function table of the GPIO driver.
pub struct GpioDrv {}

/// Stands for the function table of the SPI driver.
pub struct SpiDrv {}

/// Stands for the function table of the I2C driver.
pub struct I2cDrv {}

/// Stands for the function table of the UART driver.
pub struct UartDrv {}

/// Bind trait implemented for WASM3 runtime supported drivers: `T` is the
/// function table that is bound.
pub trait Bind<T> {
    /// The condition under which a driver table may be bound.
    spec fn takes_bind(&self, table: T) -> bool;

    /// Registers the driver table `table` for `driver`.
    fn bind<D: Engine>(&mut self, table: T, driver: &mut D) -> (r: Result<(), Wasm3Err>)
        requires
            old(self).takes_bind(table),
    ;
}

/// WASM3 runtime instance: the foreign runtime, the stage of its session,
/// and the table of bound peripherals.
pub struct Wasm3Runtime<H> {
    host: H,
    stage: Stage,
    bound: Bindings,
}

impl<H: Wasm3Host> Wasm3Runtime<H> {
    /// Where the session stands.
    pub closed spec fn stage(&self) -> Stage {
        self.stage
    }

    /// Which kinds of peripheral are bound.
    pub closed spec fn bindings(&self) -> Bindings {
        self.bound
    }

    /// The foreign runtime as it stands.
    pub closed spec fn host(&self) -> H {
        self.host
    }

    /// Creates a runtime instance for the guest program `data`. Fails with
    /// `Ctx` where the runtime gives no context, and always where the
    /// program is too long for the runtime to be told its length.
    pub fn new(data: &[u8]) -> (r: Result<Self, Wasm3Err>)
        ensures
            match r {
                Ok(rt) => rt.stage() == Stage::Created && rt.bindings() == Bindings::none()
                    && data@.len() <= u32::MAX,
                Err(e) => e == Wasm3Err::Ctx,
            },
            data@.len() > u32::MAX ==> r is Err,
            data@.len() <= u32::MAX ==> match r {
                Ok(rt) => context_made(data, Some(rt.host())),
                Err(_) => context_made::<H>(data, None),
            },
    {
        if data.len() > u32::MAX as usize {
            return Err(Wasm3Err::Ctx);
        }
        match H::init(TASK_NAME, data, STACK_SIZE) {
            Some(host) => Ok(Wasm3Runtime { host, stage: Stage::Created, bound: Bindings::none() }),
            None => Err(Wasm3Err::Ctx),
        }
    }

    /// The stage of the session.
    pub fn current_stage(&self) -> (r: Stage)
        ensures
            r == self.stage(),
    {
        self.stage
    }

    /// Binds the `kind` driver of `engine`, under the context value of that
    /// kind, asking the runtime once. On success the kind is bound; on
    /// failure, which carries the runtime's negative code, the bindings stay
    /// as they were. The stage stays as it is either way, and the runtime
    /// and the engine are left as that one request leaves them.
    pub fn bind_driver<E: Engine>(&mut self, kind: Peripheral, engine: &mut E) -> (r: Result<
        (),
        Wasm3Err,
    >)
        requires
            old(self).stage() == Stage::Created,
        ensures
            final(self).stage() == Stage::Created,
            match r {
                Ok(_) => final(self).bindings() == old(self).bindings().with(kind),
                Err(e) => {
                    &&& exists|code: i32| code < 0 && e == Wasm3Err::Bind(code)
                    &&& final(self).bindings() == old(self).bindings()
                },
            },
            binds(old(self).host(), kind, *old(engine), final(self).host(), *final(engine), r),
    {
        let out = bind_once(&mut self.host, kind, engine, context_of(kind));
        let code = out.0;
        let r = bind_outcome(code);
        proof {
            assert(bind_answer(
                old(self).host(),
                kind,
                *old(engine),
                spec_context_of(kind),
                self.host,
                *engine,
                code,
            ));
        }
        if r.is_ok() {
            self.bound = self.bound.with(kind);
        }
        r
    }

    /// Bind an engine with all supported drivers: GPIO, then SPI, then I2C,
    /// then UART, each once, stopping at the first that fails. On success
    /// the session is bound; on failure, which carries the runtime's
    /// negative code, it stays created, with the drivers bound that were
    /// bound before the failure.
    pub fn bind_all<E: Engine>(&mut self, e: &mut E) -> (r: Result<(), Wasm3Err>)
        requires
            old(self).stage() == Stage::Created,
        ensures
            match r {
                Ok(_) => final(self).stage() == Stage::Bound && final(self).bindings() == old(
                    self
                ).bindings().with(Peripheral::Gpio).with(Peripheral::Spi).with(
                    Peripheral::I2c,
                ).with(Peripheral::Uart),
                Err(err) => {
                    &&& exists|code: i32| code < 0 && err == Wasm3Err::Bind(code)
                    &&& final(self).stage() == Stage::Created
                    &&& {
                        ||| final(self).bindings() == old(self).bindings()
                        ||| final(self).bindings() == old(self).bindings().with(Peripheral::Gpio)
                        ||| final(self).bindings() == old(self).bindings().with(
                            Peripheral::Gpio,
                        ).with(Peripheral::Spi)
                        ||| final(self).bindings() == old(self).bindings().with(
                            Peripheral::Gpio,
                        ).with(Peripheral::Spi).with(Peripheral::I2c)
                    }
                },
            },
            binds_all(old(self).host(), *old(e), final(self).host(), *final(e), r),
    {
        let ghost h0 = self.host();
        let ghost e0 = *e;
        match Bind::bind(self, GpioDrv {}, e) {
            Ok(_) => {},
            Err(err) => {
                proof {
                    let r = Err::<(), Wasm3Err>(err);
                    assert(binding_all(seq![h0, self.host()], seq![e0, *e], r));
                    assert(binds_all(h0, e0, self.host(), *e, r));
                }
                return Err(err);
            },
        }
        let ghost h1 = self.host();
        let ghost e1 = *e;
        match Bind::bind(self, SpiDrv {}, e) {
            Ok(_) => {},
            Err(err) => {
                proof {
                    let r = Err::<(), Wasm3Err>(err);
                    assert(binding_all(seq![h0, h1, self.host()], seq![e0, e1, *e], r));
                    assert(binds_all(h0, e0, self.host(), *e, r));
                }
                return Err(err);
            },
        }
        let ghost h2 = self.host();
        let ghost e2 = *e;
        match Bind::bind(self, I2cDrv {}, e) {
            Ok(_) => {},
            Err(err) => {
                proof {
                    let r = Err::<(), Wasm3Err>(err);
                    assert(binding_all(seq![h0, h1, h2, self.host()], seq![e0, e1, e2, *e], r));
                    assert(binds_all(h0, e0, self.host(), *e, r));
                }
                return Err(err);
            },
        }
        let ghost h3 = self.host();
        let ghost e3 = *e;
        let last = Bind::bind(self, UartDrv {}, e);
        proof {
            assert(binding_all(
                seq![h0, h1, h2, h3, self.host()],
                seq![e0, e1, e2, e3, *e],
                last,
            ));
            assert(binds_all(h0, e0, self.host(), *e, last));
        }
        match last {
            Ok(_) => {},
            Err(err) => {
                return Err(err);
            },
        }
        self.stage = Stage::Bound;
        Ok(())
    }

    /// The bound peripheral that a context value coming back from the guest
    /// stands for, or `None` for a value that stands for none.
    pub fn resolve(&self, context: u32) -> (r: Option<Peripheral>)
        ensures
            r == self.bindings().spec_resolve(context),
    {
        match kind_of(context) {
            Some(kind) => if self.bound.has(kind) {
                Some(kind)
            } else {
                None
            },
            None => None,
        }
    }

    /// Run task in WASM3 runtime: invokes the entry point of a bound
    /// session, once. The session ends completed, or trapped with the
    /// runtime's negative code, which the error carries too, and the runtime
    /// is left as that one invocation leaves it.
    pub fn run(&mut self) -> (r: Result<(), Wasm3Err>)
        requires
            old(self).stage() == Stage::Bound,
        ensures
            final(self).bindings() == old(self).bindings(),
            match r {
                Ok(_) => final(self).stage() == Stage::Completed,
                Err(e) => exists|code: i32|
                    code < 0 && e == Wasm3Err::Exec(code) && final(self).stage()
                        == Stage::Trapped(code),
            },
            runs(old(self).host(), final(self).host(), r, final(self).stage()),
    {
        self.stage = Stage::Running;
        let out = run_once(&mut self.host);
        let code = out.0;
        proof {
            assert(run_answer(old(self).host(), self.host, code));
        }
        if code < 0 {
            self.stage = Stage::Trapped(code);
        } else {
            self.stage = Stage::Completed;
        }
        exec_outcome(code)
    }

    /// Tears the session down: asks the runtime, as it stands, to release
    /// its context and, by taking the instance, gives up every binding with
    /// it, so that no context value can be resolved through it any more.
    /// Returns the stage the session was in.
    pub fn deinit(self) -> (r: Stage)
        ensures
            r == self.stage(),
            exists|h: &mut H| *h == self.host() && #[trigger] call_ensures(H::deinit, (h,), ()),
    {
        let mut rt = self;
        rt.host.deinit();
        rt.stage
    }
}

/// Support binding GPIO drivers
impl<H: Wasm3Host> Bind<GpioDrv> for Wasm3Runtime<H> {
    open spec fn takes_bind(&self, table: GpioDrv) -> bool {
        self.stage() == Stage::Created
    }

    fn bind<D: Engine>(&mut self, table: GpioDrv, driver: &mut D) -> (r: Result<(), Wasm3Err>)
        ensures
            final(self).stage() == Stage::Created,
            match r {
                Ok(_) => final(self).bindings() == old(self).bindings().with(Peripheral::Gpio),
                Err(e) => {
                    &&& exists|code: i32| code < 0 && e == Wasm3Err::Bind(code)
                    &&& final(self).bindings() == old(self).bindings()
                },
            },
            binds(
                old(self).host(),
                Peripheral::Gpio,
                *old(driver),
                final(self).host(),
                *final(driver),
                r,
            ),
    {
        self.bind_driver(Peripheral::Gpio, driver)
    }
}

/// Support binding SPI drivers
impl<H: Wasm3Host> Bind<SpiDrv> for Wasm3Runtime<H> {
    open spec fn takes_bind(&self, table: SpiDrv) -> bool {
        self.stage() == Stage::Created
    }

    fn bind<D: Engine>(&mut self, table: SpiDrv, driver: &mut D) -> (r: Result<(), Wasm3Err>)
        ensures
            final(self).stage() == Stage::Created,
            match r {
                Ok(_) => final(self).bindings() == old(self).bindings().with(Peripheral::Spi),
                Err(e) => {
                    &&& exists|code: i32| code < 0 && e == Wasm3Err::Bind(code)
                    &&& final(self).bindings() == old(self).bindings()
                },
            },
            binds(
                old(self).host(),
                Peripheral::Spi,
                *old(driver),
                final(self).host(),
                *final(driver),
                r,
            ),
    {
        self.bind_driver(Peripheral::Spi, driver)
    }
}

/// Support binding I2C drivers
impl<H: Wasm3Host> Bind<I2cDrv> for Wasm3Runtime<H> {
    open spec fn takes_bind(&self, table: I2cDrv) -> bool {
        self.stage() == Stage::Created
    }

    fn bind<D: Engine>(&mut self, table: I2cDrv, driver: &mut D) -> (r: Result<(), Wasm3Err>)
        ensures
            final(self).stage() == Stage::Created,
            match r {
                Ok(_) => final(self).bindings() == old(self).bindings().with(Peripheral::I2c),
                Err(e) => {
                    &&& exists|code: i32| code < 0 && e == Wasm3Err::Bind(code)
                    &&& final(self).bindings() == old(self).bindings()
                },
            },
            binds(
                old(self).host(),
                Peripheral::I2c,
                *old(driver),
                final(self).host(),
                *final(driver),
                r,
            ),
    {
        self.bind_driver(Peripheral::I2c, driver)
    }
}

/// Support binding UART drivers
impl<H: Wasm3Host> Bind<UartDrv> for Wasm3Runtime<H> {
    open spec fn takes_bind(&self, table: UartDrv) -> bool {
        self.stage() == Stage::Created
    }

    fn bind<D: Engine>(&mut self, table: UartDrv, driver: &mut D) -> (r: Result<(), Wasm3Err>)
        ensures
            final(self).stage() == Stage::Created,
            match r {
                Ok(_) => final(self).bindings() == old(self).bindings().with(Peripheral::Uart),
                Err(e) => {
                    &&& exists|code: i32| code < 0 && e == Wasm3Err::Bind(code)
                    &&& final(self).bindings() == old(self).bindings()
                },
            },
            binds(
                old(self).host(),
                Peripheral::Uart,
                *old(driver),
                final(self).host(),
                *final(driver),
                r,
            ),
    {
        self.bind_driver(Peripheral::Uart, driver)
    }
}

} // verus!
