//! The two runtime adapters, driven with runtimes that only follow a script,
//! and the server configuration.

use wasm_embedded_rt::api::{Engine, Error};
use wasm_embedded_rt::linux::{GpioPin, I2cBus, LinuxCtx, SerialPort, SpiBus};
use wasm_embedded_rt::mock::PinState;
use wasm_embedded_rt::opts;
use wasm_embedded_rt::opts::{Config, Mode, Runtime, DEFAULT_PORT};
use wasm_embedded_rt::wasm3::{
    bind_once, bind_outcome, context_of, exec_outcome, kind_of, run_once, Bind, Bindings, GpioDrv, I2cDrv,
    Peripheral, SpiDrv, Stage, UartDrv, Wasm3Err, Wasm3Host, Wasm3Runtime, STACK_SIZE, START_STR, TASK_NAME,
};
use wasm_embedded_rt::wasmtime::{
    code, errno, run, status, step_outcome, take, Api, Errno, RunError, Step, TypedHost,
};
use wasm_embedded_rt::Server;

struct NoPin;

impl GpioPin for NoPin {
    fn new(_number: u64) -> Self {
        NoPin
    }

    fn export(&mut self) -> bool {
        true
    }

    fn set_direction(&mut self, _output: bool) -> bool {
        true
    }

    fn set_state(&mut self, _state: PinState) -> bool {
        true
    }

    fn is_high(&mut self) -> Option<bool> {
        Some(false)
    }
}

struct NoBus;

impl I2cBus for NoBus {
    fn open(_path: &str) -> Option<Self> {
        Some(NoBus)
    }

    fn write(&mut self, _addr: u8, _data: &[u8]) -> bool {
        true
    }

    fn read(&mut self, _addr: u8, _buff: &mut [u8]) -> bool {
        true
    }

    fn write_read(&mut self, _addr: u8, _data: &[u8], _buff: &mut [u8]) -> bool {
        true
    }
}

impl SpiBus for NoBus {
    fn open(_path: &str) -> Option<Self> {
        Some(NoBus)
    }

    fn configure(&mut self, _max_speed_hz: u32, _mode: u32) -> bool {
        true
    }

    fn write(&mut self, _data: &[u8]) -> bool {
        true
    }

    fn read(&mut self, _data: &mut [u8]) -> bool {
        true
    }

    fn transfer_in_place(&mut self, _data: &mut [u8]) -> bool {
        true
    }

    fn transfer(&mut self, _read: &mut [u8], _write: &[u8]) -> bool {
        true
    }
}

struct NoPort;

impl SerialPort for NoPort {
    fn open(_path: &str, _baud: u32) -> Option<Self> {
        Some(NoPort)
    }

    fn write_byte(&mut self, _byte: u8) -> bool {
        true
    }

    fn read_byte(&mut self) -> Option<u8> {
        None
    }
}

type Ctx = LinuxCtx<NoPin, NoBus, NoBus, NoPort>;

/// A runtime that answers with the codes in the guest program: the codes for
/// binding GPIO, SPI, I2C and UART, then the code for running. It refuses a
/// binding that comes out of order, a second time or under another context
/// value, and a second run.
struct ScriptedHost {
    codes: Vec<i8>,
    bound: usize,
    ran: bool,
}

impl Wasm3Host for ScriptedHost {
    fn init(name: &str, data: &[u8], stack_size: u32) -> Option<Self> {
        if name != "wasme" || stack_size != 10240 || data.len() != 5 {
            return None;
        }
        Some(ScriptedHost { codes: data.iter().map(|b| *b as i8).collect(), bound: 0, ran: false })
    }

    fn bind<E: Engine>(&mut self, kind: Peripheral, _engine: &mut E, context: u32) -> i32 {
        let order = [(Peripheral::Gpio, 0), (Peripheral::Spi, 1), (Peripheral::I2c, 2), (Peripheral::Uart, 3)];
        if self.bound >= order.len() || order[self.bound] != (kind, context) {
            return -100;
        }
        self.bound += 1;
        self.codes[self.bound - 1] as i32
    }

    fn run(&mut self, entry: &str) -> i32 {
        if entry != "_start" || self.ran {
            return -99;
        }
        self.ran = true;
        self.codes[4] as i32
    }

    fn deinit(&mut self) {}
}

fn program(gpio: i8, spi: i8, i2c: i8, uart: i8, run: i8) -> [u8; 5] {
    [gpio as u8, spi as u8, i2c as u8, uart as u8, run as u8]
}

#[test]
fn wasm3_constants() {
    assert_eq!(TASK_NAME, "wasme");
    assert_eq!(START_STR, "_start");
    assert_eq!(STACK_SIZE, 10240);
}

#[test]
fn wasm3_new_fails_without_context() {
    // the scripted runtime gives no context for a program of another length
    let made = Wasm3Runtime::<ScriptedHost>::new(&[1, 2, 3]);
    assert_eq!(made.err(), Some(Wasm3Err::Ctx));
}

#[test]
fn wasm3_session_runs_to_completion() {
    let mut engine = Ctx::new();
    let mut rt = Wasm3Runtime::<ScriptedHost>::new(&program(0, 0, 0, 0, 0)).ok().unwrap();
    assert_eq!(rt.current_stage(), Stage::Created);
    assert_eq!(rt.resolve(0), None);
    assert_eq!(rt.bind_all(&mut engine), Ok(()));
    assert_eq!(rt.current_stage(), Stage::Bound);
    assert_eq!(rt.resolve(0), Some(Peripheral::Gpio));
    assert_eq!(rt.resolve(1), Some(Peripheral::Spi));
    assert_eq!(rt.resolve(2), Some(Peripheral::I2c));
    assert_eq!(rt.resolve(3), Some(Peripheral::Uart));
    assert_eq!(rt.resolve(4), None);
    assert_eq!(rt.run(), Ok(()));
    assert_eq!(rt.current_stage(), Stage::Completed);
    assert_eq!(rt.deinit(), Stage::Completed);
}

#[test]
fn wasm3_positive_codes_are_success() {
    let mut engine = Ctx::new();
    let mut rt = Wasm3Runtime::<ScriptedHost>::new(&program(1, 2, 3, 4, 5)).ok().unwrap();
    assert_eq!(rt.bind_all(&mut engine), Ok(()));
    assert_eq!(rt.run(), Ok(()));
    assert_eq!(rt.current_stage(), Stage::Completed);
}

#[test]
fn wasm3_binding_stops_at_the_first_failure() {
    let mut engine = Ctx::new();
    let mut rt = Wasm3Runtime::<ScriptedHost>::new(&program(0, -7, 0, 0, 0)).ok().unwrap();
    assert_eq!(rt.bind_all(&mut engine), Err(Wasm3Err::Bind(-7)));
    assert_eq!(rt.current_stage(), Stage::Created);
    assert_eq!(rt.resolve(0), Some(Peripheral::Gpio));
    assert_eq!(rt.resolve(1), None);
    assert_eq!(rt.resolve(2), None);
    assert_eq!(rt.deinit(), Stage::Created);
}

#[test]
fn wasm3_binding_fails_at_the_last_driver() {
    let mut engine = Ctx::new();
    let mut rt = Wasm3Runtime::<ScriptedHost>::new(&program(0, 0, 0, -2, 0)).ok().unwrap();
    assert_eq!(rt.bind_all(&mut engine), Err(Wasm3Err::Bind(-2)));
    assert_eq!(rt.current_stage(), Stage::Created);
    assert_eq!(rt.resolve(2), Some(Peripheral::I2c));
    assert_eq!(rt.resolve(3), None);
}

#[test]
fn wasm3_single_binding() {
    let mut engine = Ctx::new();
    let mut rt = Wasm3Runtime::<ScriptedHost>::new(&program(-3, 0, 0, 0, 0)).ok().unwrap();
    assert_eq!(rt.bind_driver(Peripheral::Gpio, &mut engine), Err(Wasm3Err::Bind(-3)));
    assert_eq!(rt.resolve(0), None);
    assert_eq!(rt.current_stage(), Stage::Created);
}

#[test]
fn wasm3_drivers_bound_one_by_one() {
    let mut engine = Ctx::new();
    let mut rt = Wasm3Runtime::<ScriptedHost>::new(&program(0, 0, -9, 0, 0)).ok().unwrap();
    assert_eq!(Bind::bind(&mut rt, GpioDrv {}, &mut engine), Ok(()));
    assert_eq!(rt.resolve(0), Some(Peripheral::Gpio));
    assert_eq!(Bind::bind(&mut rt, SpiDrv {}, &mut engine), Ok(()));
    assert_eq!(rt.resolve(1), Some(Peripheral::Spi));
    assert_eq!(Bind::bind(&mut rt, I2cDrv {}, &mut engine), Err(Wasm3Err::Bind(-9)));
    assert_eq!(rt.resolve(2), None);
    assert_eq!(rt.current_stage(), Stage::Created);
    assert_eq!(Bind::bind(&mut rt, UartDrv {}, &mut engine), Ok(()));
    assert_eq!(rt.resolve(3), Some(Peripheral::Uart));
    // a driver bound a second time is refused by the scripted runtime
    assert_eq!(Bind::bind(&mut rt, UartDrv {}, &mut engine), Err(Wasm3Err::Bind(-100)));
    assert_eq!(rt.resolve(3), Some(Peripheral::Uart));
}

#[test]
fn wasm3_trap_carries_the_code() {
    let mut engine = Ctx::new();
    let mut rt = Wasm3Runtime::<ScriptedHost>::new(&program(0, 0, 0, 0, -5)).ok().unwrap();
    assert_eq!(rt.bind_all(&mut engine), Ok(()));
    assert_eq!(rt.run(), Err(Wasm3Err::Exec(-5)));
    assert_eq!(rt.current_stage(), Stage::Trapped(-5));
    // the bindings outlive the run
    assert_eq!(rt.resolve(2), Some(Peripheral::I2c));
}

#[test]
fn wasm3_outcomes() {
    assert_eq!(bind_outcome(0), Ok(()));
    assert_eq!(bind_outcome(12), Ok(()));
    assert_eq!(bind_outcome(-1), Err(Wasm3Err::Bind(-1)));
    assert_eq!(bind_outcome(i32::MIN), Err(Wasm3Err::Bind(i32::MIN)));
    assert_eq!(exec_outcome(0), Ok(()));
    assert_eq!(exec_outcome(i32::MAX), Ok(()));
    assert_eq!(exec_outcome(-2), Err(Wasm3Err::Exec(-2)));
}

#[test]
fn wasm3_context_values() {
    assert_eq!(context_of(Peripheral::Gpio), 0);
    assert_eq!(context_of(Peripheral::Spi), 1);
    assert_eq!(context_of(Peripheral::I2c), 2);
    assert_eq!(context_of(Peripheral::Uart), 3);
    for kind in [Peripheral::Gpio, Peripheral::Spi, Peripheral::I2c, Peripheral::Uart] {
        assert_eq!(kind_of(context_of(kind)), Some(kind));
    }
    assert_eq!(kind_of(4), None);
    assert_eq!(kind_of(u32::MAX), None);
}

#[test]
fn wasm3_bindings() {
    let none = Bindings::none();
    assert_eq!(none, Bindings { gpio: false, spi: false, i2c: false, uart: false });
    assert!(!none.has(Peripheral::Spi));
    let some = none.with(Peripheral::Spi).with(Peripheral::Uart);
    assert_eq!(some, Bindings { gpio: false, spi: true, i2c: false, uart: true });
    assert!(some.has(Peripheral::Spi));
    assert!(some.has(Peripheral::Uart));
    assert!(!some.has(Peripheral::Gpio));
    assert!(!some.has(Peripheral::I2c));
    assert_eq!(some.with(Peripheral::Spi), some);
}

/// A typed runtime that fails at the step numbered `FAIL` (from one) and
/// notes each step it was asked for.
struct Typed<const FAIL: u8> {
    steps: Vec<String>,
}

impl<const FAIL: u8> Typed<FAIL> {
    fn step(&mut self, name: String) -> bool {
        self.steps.push(name);
        let expected =
            ["bind Wasi", "bind Spi", "bind I2c", "bind Gpio", "bind Uart", "load [0, 97, 115, 109]", "link", "call"];
        // a step out of order fails at once
        if expected[self.steps.len() - 1] != self.steps[self.steps.len() - 1] {
            return false;
        }
        self.steps.len() != FAIL as usize
    }
}

impl<const FAIL: u8> TypedHost<Ctx> for Typed<FAIL> {
    fn new(_manager: Ctx) -> Self {
        Typed { steps: Vec::new() }
    }

    fn bind(&mut self, api: Api) -> bool {
        self.step(format!("bind {:?}", api))
    }

    fn load(&mut self, bin: &[u8]) -> bool {
        self.step(format!("load {:?}", bin))
    }

    fn link(&mut self) -> bool {
        self.step(format!("link"))
    }

    fn call_default(&mut self) -> bool {
        self.step(format!("call"))
    }
}

#[test]
fn typed_run_completes() {
    assert_eq!(run::<Ctx, Typed<0>>(Ctx::new(), b"\0asm"), Ok(()));
}

#[test]
fn typed_run_names_the_step_that_failed() {
    assert_eq!(run::<Ctx, Typed<1>>(Ctx::new(), b"\0asm"), Err(RunError::Bind(Api::Wasi)));
    assert_eq!(run::<Ctx, Typed<2>>(Ctx::new(), b"\0asm"), Err(RunError::Bind(Api::Spi)));
    assert_eq!(run::<Ctx, Typed<3>>(Ctx::new(), b"\0asm"), Err(RunError::Bind(Api::I2c)));
    assert_eq!(run::<Ctx, Typed<4>>(Ctx::new(), b"\0asm"), Err(RunError::Bind(Api::Gpio)));
    assert_eq!(run::<Ctx, Typed<5>>(Ctx::new(), b"\0asm"), Err(RunError::Bind(Api::Uart)));
    assert_eq!(run::<Ctx, Typed<6>>(Ctx::new(), b"\0asm"), Err(RunError::Load));
    assert_eq!(run::<Ctx, Typed<7>>(Ctx::new(), b"\0asm"), Err(RunError::Link));
    assert_eq!(run::<Ctx, Typed<8>>(Ctx::new(), b"\0asm"), Err(RunError::Trap));
}

#[test]
fn typed_step_outcome() {
    assert_eq!(step_outcome(true, RunError::Load), Ok(()));
    assert_eq!(step_outcome(false, RunError::Load), Err(RunError::Load));
    assert_eq!(step_outcome(false, RunError::Bind(Api::Gpio)), Err(RunError::Bind(Api::Gpio)));
}

#[test]
fn every_error_has_its_own_status_code() {
    assert_eq!(errno(Error::InvalidArg), Errno::InvalidArg);
    assert_eq!(errno(Error::Unexpected), Errno::Unexpected);
    assert_eq!(errno(Error::Failed), Errno::Failed);
    assert_eq!(errno(Error::NoDevice), Errno::NoDevice);
    assert_eq!(code(Errno::Success), 0);
    assert_eq!(code(Errno::InvalidArg), 1);
    assert_eq!(code(Errno::Failed), 2);
    assert_eq!(code(Errno::NoDevice), 3);
    assert_eq!(code(Errno::Unexpected), 4);
}

#[test]
fn status_of_a_result() {
    assert_eq!(status(&Ok::<i32, Error>(7)), Errno::Success);
    assert_eq!(status(&Ok::<(), Error>(())), Errno::Success);
    assert_eq!(status(&Err::<(), Error>(Error::NoDevice)), Errno::NoDevice);
    assert_eq!(status(&Err::<PinState, Error>(Error::Failed)), Errno::Failed);
}

#[test]
fn config_defaults() {
    assert_eq!(Runtime::default(), Runtime::Wasmtime);
    assert_eq!(opts::Engine::default(), opts::Engine::Linux);
    assert_eq!(Config::default(), Config { runtime: Runtime::Wasmtime, engine: opts::Engine::Linux });
    assert_eq!(DEFAULT_PORT, 14321);
}

#[test]
fn modes() {
    let exec = Mode::Exec { bin: "app.wasm".to_string() };
    let serve = Mode::Serve { port: DEFAULT_PORT };
    assert_eq!(exec.clone(), exec);
    assert_ne!(exec, serve);
}

#[test]
fn server_accepts_every_request() {
    let mut server = Server::new(Config { runtime: Runtime::Wasm3, engine: opts::Engine::Mock });
    assert_eq!(server.exec(&[0, 1, 2]), Ok(()));
    assert_eq!(server.exec(&[]), Ok(()));
    assert_eq!(server.serve(14321), Ok(()));
}

#[test]
fn wasm3_runtime_is_asked_once() {
    let mut engine = Ctx::new();
    let mut host = ScriptedHost::init("wasme", &program(7, -4, 0, 0, -6), 10240).unwrap();
    assert_eq!(bind_once(&mut host, Peripheral::Gpio, &mut engine, 0).0, 7);
    assert_eq!(bind_once(&mut host, Peripheral::Spi, &mut engine, 1).0, -4);
    assert_eq!(host.bound, 2);
    assert_eq!(run_once(&mut host).0, -6);
    // the scripted runtime refuses a second run
    assert_eq!(run_once(&mut host).0, -99);
}

#[test]
fn typed_runtime_takes_one_step() {
    let mut host = <Typed<2> as TypedHost<Ctx>>::new(Ctx::new());
    assert!(take::<Ctx, Typed<2>>(&mut host, Step::Bind(Api::Wasi), b"\0asm").0);
    assert!(!take::<Ctx, Typed<2>>(&mut host, Step::Bind(Api::Spi), b"\0asm").0);
    assert_eq!(host.steps, vec!["bind Wasi".to_string(), "bind Spi".to_string()]);
    let mut other = <Typed<0> as TypedHost<Ctx>>::new(Ctx::new());
    // a step out of order is refused by the scripted runtime
    assert!(!take::<Ctx, Typed<0>>(&mut other, Step::Call, b"\0asm").0);
}
