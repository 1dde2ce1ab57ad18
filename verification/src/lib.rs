//! Host-side bindings that let sandboxed guest programs reach GPIO, I2C, SPI
//! and UART peripherals through handle-based capability operations.
//!
//! - `api`: the capability contracts and the errors a guest can be told of.
//! - `linux`: the backend on operating-system devices, with its handle
//!   tables.
//! - `mock`: the backend that replays a script and verifies the calls made
//!   against it.
//! - `wasm3`, `wasmtime`: the adapters that bind a backend into a runtime.
//! - `opts`: the server configuration.

use vstd::prelude::*;

pub mod api;
pub mod linux;
pub mod mock;
pub mod opts;
pub mod wasm3;
pub mod wasmtime;

pub use api::Error;

verus! {

/// Which runtime a server has loaded.
#[derive(Clone, Copy, PartialEq, Eq, Debug, Structural)]
pub enum RuntimeCtx {
    /// No runtime loaded
    Unloaded,
    /// WASM3 runtime loaded
    Wasm3,
    /// Wasmtime runtime loaded
    Wasmtime,
}

/// WASM server
pub struct Server {
    config: opts::Config,
    runtime: RuntimeCtx,
}

impl Server {
    /// The configuration the server was made with.
    pub closed spec fn config(&self) -> opts::Config {
        self.config
    }

    /// The runtime the server has loaded.
    pub closed spec fn runtime(&self) -> RuntimeCtx {
        self.runtime
    }

    /// Create new server instance, with no runtime loaded.
    pub fn new(config: opts::Config) -> (r: Self)
        ensures
            r.config() == config,
            r.runtime() == RuntimeCtx::Unloaded,
    {
        Self { config, runtime: RuntimeCtx::Unloaded }
    }

    /// Load and execute a provided wasm binary. Accepts every binary and
    /// leaves the server as it is.
    pub fn exec(&mut self, bin: &[u8]) -> (r: Result<(), ()>)
        ensures
            r is Ok,
            *final(self) == *old(self),
    {
        Ok(())
    }

    /// Start the server listening for remote operations. Accepts every port
    /// and leaves the server as it is.
    pub fn serve(&mut self, port: u16) -> (r: Result<(), ()>)
        ensures
            r is Ok,
            *final(self) == *old(self),
    {
        Ok(())
    }
}

} // verus!
