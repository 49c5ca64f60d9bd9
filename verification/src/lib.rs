//! A safe binding layer over the NVIDIA Management Library.
//!
//! Every operation resolves its native entry point, marshals its arguments,
//! has the native call made, translates the status code that came back and
//! marshals the output into a typed value.
//!
//! Handles borrow downwards: a [`Device`] borrows the [`Nvml`] it came from,
//! and a [`VgpuType`] borrows its [`Device`], so none of them can be used
//! once the library handle is gone.

pub mod boundary;
pub mod device;
pub mod enum_wrappers;
pub mod error;
pub mod structs;
pub mod symbols;
pub mod vgpu;

pub use crate::device::{Device, DeviceHandle};
pub use crate::error::NvmlError;
pub use crate::vgpu::VgpuType;

use crate::boundary::{boundary_call, NativeCall, NativeReply};
use crate::error::status_error;
use crate::symbols::{EntryPoint, Symbol, SymbolTable};
use vstd::prelude::*;

verus! {

/// The handle to the loaded native library. It owns the table of entry
/// points, which is filled when the handle is made and never changes after.
#[derive(Debug)]
pub struct Nvml {
    symbols: SymbolTable,
}

/// What holds of the device that is returned for `reply`.
pub open spec fn device_result<'nvml>(
    reply: NativeReply<DeviceHandle>,
    nvml: &'nvml Nvml,
    result: Result<Device<'nvml>, NvmlError>,
) -> bool {
    match status_error(reply.status) {
        Some(e) => result matches Err(x) && x == e,
        None => result matches Ok(device) && device.spec_handle() == reply.output
            && device.spec_nvml() == nvml,
    }
}

impl Nvml {
    /// The table of entry points that this handle owns.
    pub closed spec fn spec_symbols(&self) -> &SymbolTable {
        &self.symbols
    }

    /// What the loaded library has for `symbol`.
    pub open spec fn entry(&self, symbol: Symbol) -> Option<EntryPoint> {
        self.spec_symbols().entry(symbol)
    }

    /// A library handle over a table of entry points that was filled before.
    pub fn new(symbols: SymbolTable) -> (nvml: Nvml)
        ensures
            *nvml.spec_symbols() == symbols,
    {
        Nvml { symbols }
    }

    /// A library handle whose table is filled now, by looking every known
    /// entry point up once with `resolver`. One that is missing does not
    /// make this fail.
    pub fn init<R>(resolver: R) -> (nvml: Nvml) where R: Fn(Symbol) -> Option<EntryPoint>
        requires
            forall|s: Symbol| resolver.requires((s,)),
        ensures
            forall|s: Symbol| resolver.ensures((s,), #[trigger] nvml.entry(s)),
    {
        Nvml { symbols: SymbolTable::load(resolver) }
    }

    /// The table of entry points that this handle owns.
    #[verifier::when_used_as_spec(spec_symbols)]
    pub fn symbols(&self) -> (symbols: &SymbolTable)
        ensures
            symbols == self.spec_symbols(),
    {
        &self.symbols
    }

    /// The device at `index`, as the native library counts them.
    ///
    /// Fails with `FunctionNotFound`, and calls nothing, where the loaded
    /// library lacks the entry point; else with the error that the native
    /// status stands for.
    pub fn device_by_index<'nvml, N>(&'nvml self, index: u32, native: N) -> (result: Result<
        Device<'nvml>,
        NvmlError,
    >) where N: FnOnce(NativeCall<u32>) -> NativeReply<DeviceHandle>
        requires
            self.entry(Symbol::DeviceGetHandleByIndex) matches Some(e) ==> native.requires(
                (NativeCall { entry: e, args: index },),
            ),
        ensures
            match self.entry(Symbol::DeviceGetHandleByIndex) {
                None => result matches Err(x) && x == NvmlError::FunctionNotFound,
                Some(e) => exists|reply: NativeReply<DeviceHandle>| #[trigger]
                    native.ensures((NativeCall { entry: e, args: index },), reply)
                        && device_result(reply, self, result),
            },
    {
        let entry = self.symbols.resolve(Symbol::DeviceGetHandleByIndex);
        match boundary_call(entry, index, native) {
            Ok(handle) => Ok(Device::new(handle, self)),
            Err(e) => Err(e),
        }
    }
}

} // verus!
