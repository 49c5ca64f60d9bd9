//! The handle to one type of virtual GPU, and the queries on it.

use crate::boundary::{
    as_it_came, boundary_call, boundary_post, is_text_call, text_call, text_post, NativeCall,
    NativeReply, TextRequest, NVML_DEVICE_NAME_BUFFER_SIZE, NVML_GRID_LICENSE_BUFFER_SIZE,
};
use crate::device::{Device, DeviceHandle};
use crate::error::NvmlError;
use crate::symbols::{EntryPoint, Symbol};
use vstd::prelude::*;
use vstd::utf8::encode_utf8;

verus! {

/// One type of virtual GPU that a device offers: the number by which the
/// native library knows it, and the device it was listed for. It is a plain
/// value that borrows its device and owns nothing.
#[derive(Clone, Copy, Debug)]
pub struct VgpuType<'dev> {
    id: u32,
    device: &'dev Device<'dev>,
}

/// The shape of a query that answers yes or no: anything but zero is yes.
pub open spec fn is_set() -> spec_fn(u32) -> Result<bool, NvmlError> {
    |raw: u32| Ok::<bool, NvmlError>(raw != 0)
}

impl<'dev> VgpuType<'dev> {
    /// The number by which the native library knows this vGPU type.
    pub closed spec fn id(&self) -> u32 {
        self.id
    }

    /// The device that this vGPU type was listed for.
    pub closed spec fn spec_device(&self) -> &'dev Device<'dev> {
        self.device
    }

    /// What the loaded library has for `symbol`.
    pub open spec fn entry(&self, symbol: Symbol) -> Option<EntryPoint> {
        self.spec_device().entry(symbol)
    }

    /// Create a new vGPU type wrapper.
    ///
    /// This never fails and calls nothing: the number is taken as it is, and
    /// one that the native library does not know, or no longer knows, is
    /// refused by the first query.
    pub fn new(device: &'dev Device<'dev>, id: u32) -> (made: Self)
        ensures
            made.id() == id,
            made.spec_device() == device,
    {
        Self { id, device }
    }

    /// Access the `Device` this struct belongs to.
    #[verifier::when_used_as_spec(spec_device)]
    pub fn device(&self) -> (device: &'dev Device<'dev>)
        ensures
            device == self.spec_device(),
    {
        self.device
    }

    /// Retrieve the class of the vGPU type, read from a buffer of
    /// `NVML_DEVICE_NAME_BUFFER_SIZE` bytes.
    ///
    /// Fails with `FunctionNotFound`, before any buffer is made, where the
    /// loaded library lacks the entry point; with the error that the native
    /// status stands for; and with `Encoding` where the call succeeded and
    /// the buffer holds no terminated UTF-8 text.
    pub fn class_name<N>(&self, native: N) -> (result: Result<String, NvmlError>) where
        N: FnOnce(NativeCall<TextRequest<u32>>) -> NativeReply<Vec<u8>>,

        requires
            self.entry(Symbol::VgpuTypeGetClass) matches Some(e) ==> forall|
                call: NativeCall<TextRequest<u32>>,
            |
                is_text_call(call, e, self.id(), NVML_DEVICE_NAME_BUFFER_SIZE)
                    ==> #[trigger] native.requires((call,)),
        ensures
            text_post(
                self.entry(Symbol::VgpuTypeGetClass),
                self.id(),
                NVML_DEVICE_NAME_BUFFER_SIZE,
                native,
                result,
            ),
            result matches Ok(text) ==> {
                &&& encode_utf8(text@).len() <= NVML_DEVICE_NAME_BUFFER_SIZE - 1
                &&& !text@.contains('\0')
            },
    {
        let entry = self.device.nvml().symbols().resolve(Symbol::VgpuTypeGetClass);
        text_call(entry, self.id, NVML_DEVICE_NAME_BUFFER_SIZE, native)
    }

    /// Retrieve license requirements for a vGPU type, read from a buffer of
    /// `NVML_GRID_LICENSE_BUFFER_SIZE` bytes.
    ///
    /// The license type and version required to run the specified vGPU type is returned as an
    /// alphanumeric string, in the form "\<license name\>,\<version\>", for example
    /// "GRID-Virtual-PC,2.0". If a vGPU is runnable with more than one type of license, the
    /// licenses are delimited by a semicolon, for example
    /// "GRID-Virtual-PC,2.0;GRID-Virtual-WS,2.0;GRID-Virtual-WS-Ext,2.0".
    ///
    /// Fails with `FunctionNotFound`, before any buffer is made, where the
    /// loaded library lacks the entry point; with the error that the native
    /// status stands for, `InsufficientSize` included, after one call and no
    /// more; and with `Encoding` where the call succeeded and the buffer
    /// holds no terminated UTF-8 text.
    pub fn license<N>(&self, native: N) -> (result: Result<String, NvmlError>) where
        N: FnOnce(NativeCall<TextRequest<u32>>) -> NativeReply<Vec<u8>>,

        requires
            self.entry(Symbol::VgpuTypeGetLicense) matches Some(e) ==> forall|
                call: NativeCall<TextRequest<u32>>,
            |
                is_text_call(call, e, self.id(), NVML_GRID_LICENSE_BUFFER_SIZE)
                    ==> #[trigger] native.requires((call,)),
        ensures
            text_post(
                self.entry(Symbol::VgpuTypeGetLicense),
                self.id(),
                NVML_GRID_LICENSE_BUFFER_SIZE,
                native,
                result,
            ),
            result matches Ok(text) ==> {
                &&& encode_utf8(text@).len() <= NVML_GRID_LICENSE_BUFFER_SIZE - 1
                &&& !text@.contains('\0')
            },
    {
        let entry = self.device.nvml().symbols().resolve(Symbol::VgpuTypeGetLicense);
        text_call(entry, self.id, NVML_GRID_LICENSE_BUFFER_SIZE, native)
    }

    /// Retrieve the name of the vGPU type, read from a buffer of
    /// `NVML_DEVICE_NAME_BUFFER_SIZE` bytes.
    ///
    /// The name is an alphanumeric string that denotes a particular vGPU, e.g. GRID M60-2Q.
    ///
    /// Fails with `FunctionNotFound`, before any buffer is made, where the
    /// loaded library lacks the entry point; with the error that the native
    /// status stands for; and with `Encoding` where the call succeeded and
    /// the buffer holds no terminated UTF-8 text.
    pub fn name<N>(&self, native: N) -> (result: Result<String, NvmlError>) where
        N: FnOnce(NativeCall<TextRequest<u32>>) -> NativeReply<Vec<u8>>,

        requires
            self.entry(Symbol::VgpuTypeGetName) matches Some(e) ==> forall|
                call: NativeCall<TextRequest<u32>>,
            |
                is_text_call(call, e, self.id(), NVML_DEVICE_NAME_BUFFER_SIZE)
                    ==> #[trigger] native.requires((call,)),
        ensures
            text_post(
                self.entry(Symbol::VgpuTypeGetName),
                self.id(),
                NVML_DEVICE_NAME_BUFFER_SIZE,
                native,
                result,
            ),
            result matches Ok(text) ==> {
                &&& encode_utf8(text@).len() <= NVML_DEVICE_NAME_BUFFER_SIZE - 1
                &&& !text@.contains('\0')
            },
    {
        let entry = self.device.nvml().symbols().resolve(Symbol::VgpuTypeGetName);
        text_call(entry, self.id, NVML_DEVICE_NAME_BUFFER_SIZE, native)
    }

    /// Retrieve the requested capability for a given vGPU type: whether the
    /// native library wrote anything but zero for `capability`.
    ///
    /// Fails with `FunctionNotFound`, and calls nothing, where the loaded
    /// library lacks the entry point; else with the error that the native
    /// status stands for.
    pub fn capabilities<N>(&self, capability: u32, native: N) -> (result: Result<
        bool,
        NvmlError,
    >) where N: FnOnce(NativeCall<(u32, u32)>) -> NativeReply<u32>
        requires
            self.entry(Symbol::VgpuTypeGetCapabilities) matches Some(e) ==> native.requires(
                (NativeCall { entry: e, args: (self.id(), capability) },),
            ),
        ensures
            boundary_post(
                self.entry(Symbol::VgpuTypeGetCapabilities),
                (self.id(), capability),
                native,
                is_set(),
                result,
            ),
    {
        let entry = self.device.nvml().symbols().resolve(Symbol::VgpuTypeGetCapabilities);
        let raw = boundary_call(entry, (self.id, capability), native)?;
        Ok(raw != 0)
    }

    /// Retrieve the device ID of the vGPU type: the device id first, the
    /// subsystem id second, each as the native library wrote it.
    ///
    /// Fails with `FunctionNotFound`, and calls nothing, where the loaded
    /// library lacks the entry point; else with the error that the native
    /// status stands for.
    pub fn device_id<N>(&self, native: N) -> (result: Result<(u64, u64), NvmlError>) where
        N: FnOnce(NativeCall<u32>) -> NativeReply<(u64, u64)>,

        requires
            self.entry(Symbol::VgpuTypeGetDeviceID) matches Some(e) ==> native.requires(
                (NativeCall { entry: e, args: self.id() },),
            ),
        ensures
            boundary_post(
                self.entry(Symbol::VgpuTypeGetDeviceID),
                self.id(),
                native,
                as_it_came::<(u64, u64)>(),
                result,
            ),
    {
        let entry = self.device.nvml().symbols().resolve(Symbol::VgpuTypeGetDeviceID);
        let (device_id, subsystem_id) = boundary_call(entry, self.id, native)?;
        Ok((device_id, subsystem_id))
    }

    /// Retrieve the static frame rate limit value of the vGPU type.
    ///
    /// Fails with `FunctionNotFound`, and calls nothing, where the loaded
    /// library lacks the entry point; else with the error that the native
    /// status stands for.
    pub fn frame_rate_limit<N>(&self, native: N) -> (result: Result<u32, NvmlError>) where
        N: FnOnce(NativeCall<u32>) -> NativeReply<u32>,

        requires
            self.entry(Symbol::VgpuTypeGetFrameRateLimit) matches Some(e) ==> native.requires(
                (NativeCall { entry: e, args: self.id() },),
            ),
        ensures
            boundary_post(
                self.entry(Symbol::VgpuTypeGetFrameRateLimit),
                self.id(),
                native,
                as_it_came::<u32>(),
                result,
            ),
    {
        let entry = self.device.nvml().symbols().resolve(Symbol::VgpuTypeGetFrameRateLimit);
        let limit = boundary_call(entry, self.id, native)?;
        Ok(limit)
    }

    /// Retrieve the vGPU framebuffer size in bytes.
    ///
    /// Fails with `FunctionNotFound`, and calls nothing, where the loaded
    /// library lacks the entry point; else with the error that the native
    /// status stands for.
    pub fn framebuffer_size<N>(&self, native: N) -> (result: Result<u64, NvmlError>) where
        N: FnOnce(NativeCall<u32>) -> NativeReply<u64>,

        requires
            self.entry(Symbol::VgpuTypeGetFramebufferSize) matches Some(e) ==> native.requires(
                (NativeCall { entry: e, args: self.id() },),
            ),
        ensures
            boundary_post(
                self.entry(Symbol::VgpuTypeGetFramebufferSize),
                self.id(),
                native,
                as_it_came::<u64>(),
                result,
            ),
    {
        let entry = self.device.nvml().symbols().resolve(Symbol::VgpuTypeGetFramebufferSize);
        let size = boundary_call(entry, self.id, native)?;
        Ok(size)
    }

    /// Retrieve the GPU Instance Profile ID for the vGPU type, as the native
    /// library wrote it: a profile id for a vGPU type that can use MIG, and
    /// the native library's marker of an invalid profile id for another.
    ///
    /// Fails with `FunctionNotFound`, and calls nothing, where the loaded
    /// library lacks the entry point; else with the error that the native
    /// status stands for.
    pub fn instance_profile_id<N>(&self, native: N) -> (result: Result<u32, NvmlError>) where
        N: FnOnce(NativeCall<u32>) -> NativeReply<u32>,

        requires
            self.entry(Symbol::VgpuTypeGetGpuInstanceProfileId) matches Some(e)
                ==> native.requires((NativeCall { entry: e, args: self.id() },)),
        ensures
            boundary_post(
                self.entry(Symbol::VgpuTypeGetGpuInstanceProfileId),
                self.id(),
                native,
                as_it_came::<u32>(),
                result,
            ),
    {
        let entry = self.device.nvml().symbols().resolve(Symbol::VgpuTypeGetGpuInstanceProfileId);
        let profile_id = boundary_call(entry, self.id, native)?;
        Ok(profile_id)
    }

    /// Retrieve the maximum number of vGPU instances creatable on a device
    /// for the vGPU type. The native call is about the device and the vGPU
    /// type both.
    ///
    /// Fails with `FunctionNotFound`, and calls nothing, where the loaded
    /// library lacks the entry point; else with the error that the native
    /// status stands for.
    pub fn max_instances<N>(&self, native: N) -> (result: Result<u32, NvmlError>) where
        N: FnOnce(NativeCall<(DeviceHandle, u32)>) -> NativeReply<u32>,

        requires
            self.entry(Symbol::VgpuTypeGetMaxInstances) matches Some(e) ==> native.requires(
                (NativeCall { entry: e, args: (self.device().handle(), self.id()) },),
            ),
        ensures
            boundary_post(
                self.entry(Symbol::VgpuTypeGetMaxInstances),
                (self.device().handle(), self.id()),
                native,
                as_it_came::<u32>(),
                result,
            ),
    {
        let entry = self.device.nvml().symbols().resolve(Symbol::VgpuTypeGetMaxInstances);
        let max = boundary_call(entry, (self.device.handle(), self.id), native)?;
        Ok(max)
    }

    /// Retrieve the maximum number of vGPU instances supported per VM for
    /// the vGPU type.
    ///
    /// Fails with `FunctionNotFound`, and calls nothing, where the loaded
    /// library lacks the entry point; else with the error that the native
    /// status stands for.
    pub fn max_instances_per_vm<N>(&self, native: N) -> (result: Result<u32, NvmlError>) where
        N: FnOnce(NativeCall<u32>) -> NativeReply<u32>,

        requires
            self.entry(Symbol::VgpuTypeGetMaxInstancesPerVm) matches Some(e) ==> native.requires(
                (NativeCall { entry: e, args: self.id() },),
            ),
        ensures
            boundary_post(
                self.entry(Symbol::VgpuTypeGetMaxInstancesPerVm),
                self.id(),
                native,
                as_it_came::<u32>(),
                result,
            ),
    {
        let entry = self.device.nvml().symbols().resolve(Symbol::VgpuTypeGetMaxInstancesPerVm);
        let max = boundary_call(entry, self.id, native)?;
        Ok(max)
    }

    /// Retrieve count of vGPU's supported display heads.
    ///
    /// Fails with `FunctionNotFound`, and calls nothing, where the loaded
    /// library lacks the entry point; else with the error that the native
    /// status stands for.
    pub fn num_display_heads<N>(&self, native: N) -> (result: Result<u32, NvmlError>) where
        N: FnOnce(NativeCall<u32>) -> NativeReply<u32>,

        requires
            self.entry(Symbol::VgpuTypeGetNumDisplayHeads) matches Some(e) ==> native.requires(
                (NativeCall { entry: e, args: self.id() },),
            ),
        ensures
            boundary_post(
                self.entry(Symbol::VgpuTypeGetNumDisplayHeads),
                self.id(),
                native,
                as_it_came::<u32>(),
                result,
            ),
    {
        let entry = self.device.nvml().symbols().resolve(Symbol::VgpuTypeGetNumDisplayHeads);
        let heads = boundary_call(entry, self.id, native)?;
        Ok(heads)
    }

    /// Retrieve vGPU display head's maximum supported resolution: the width
    /// first, the height second.
    ///
    /// The `display_head` argument specifies the 0-based display index, the
    /// maximum being what [`VgpuType::num_display_heads`] returns. It is
    /// handed to the native library as it is.
    ///
    /// Fails with `FunctionNotFound`, and calls nothing, where the loaded
    /// library lacks the entry point; else with the error that the native
    /// status stands for.
    pub fn resolution<N>(&self, display_head: u32, native: N) -> (result: Result<
        (u32, u32),
        NvmlError,
    >) where N: FnOnce(NativeCall<(u32, u32)>) -> NativeReply<(u32, u32)>
        requires
            self.entry(Symbol::VgpuTypeGetResolution) matches Some(e) ==> native.requires(
                (NativeCall { entry: e, args: (self.id(), display_head) },),
            ),
        ensures
            boundary_post(
                self.entry(Symbol::VgpuTypeGetResolution),
                (self.id(), display_head),
                native,
                as_it_came::<(u32, u32)>(),
                result,
            ),
    {
        let entry = self.device.nvml().symbols().resolve(Symbol::VgpuTypeGetResolution);
        let (x, y) = boundary_call(entry, (self.id, display_head), native)?;
        Ok((x, y))
    }
}

} // verus!
