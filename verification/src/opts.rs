//! Server configuration.

use vstd::prelude::*;

verus! {

/// WASM Server Configuration
#[derive(Clone, Copy, PartialEq, Eq, Debug, Structural)]
pub struct Config {
    /// Runtime for WASM execution
    pub runtime: Runtime,
    /// Engine providing embedded-wasm APIs
    pub engine: Engine,
}

/// Server runtime selector
#[derive(Clone, Copy, PartialEq, Eq, Debug, Structural)]
#[non_exhaustive]
pub enum Runtime {
    /// Wasmtime based runtime
    Wasmtime,
    /// Wasm3 based runtime
    Wasm3,
}

/// Server engine selector
#[derive(Clone, Copy, PartialEq, Eq, Debug, Structural)]
#[non_exhaustive]
pub enum Engine {
    /// Mock provides mocked drivers for testing
    Mock,
    /// Linux provides drivers backed by operating-system devices
    Linux,
}

impl Default for Runtime {
    /// The typed runtime.
    fn default() -> (r: Self)
        ensures
            r == Runtime::Wasmtime,
    {
        Runtime::Wasmtime
    }
}

impl Default for Engine {
    /// The engine on operating-system devices.
    fn default() -> (r: Self)
        ensures
            r == Engine::Linux,
    {
        Engine::Linux
    }
}

impl Default for Config {
    /// The default runtime with the default engine.
    fn default() -> (r: Self)
        ensures
            r == (Config { runtime: Runtime::Wasmtime, engine: Engine::Linux }),
    {
        Config { runtime: Runtime::default(), engine: Engine::default() }
    }
}

/// Mode for runtime execution
#[derive(Clone, PartialEq, Eq, Debug)]
pub enum Mode {
    /// Execute a provided WASM binary
    Exec {
        /// WASM binary to execute
        bin: String,
    },
    /// Start remote WASM server
    Serve {
        /// Port for remote server binding
        port: u16,
    },
}

/// The port a server binds where none is given.
pub const DEFAULT_PORT: u16 = 14321;

} // verus!
