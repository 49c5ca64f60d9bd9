//! The handle to one device, and the operations on it.

use crate::boundary::{
    boundary_call, boundary_post, is_list_call, is_text_call, list_call, list_post, list_view,
    text_call, text_post, ListRequest, Listed, NativeCall, NativeReply, TextRequest,
    NVML_DEVICE_NAME_V2_BUFFER_SIZE,
};
use crate::error::NvmlError;
use crate::structs::device::{
    ConfidentialComputeGpuAttestationReport, ConfidentialComputeGpuCertificate,
    CudaComputeCapability, EncoderStats, PowerManagementConstraints, RawGpuAttestationReport,
    RawGpuCertificate, UtilizationInfo, NVML_CC_GPU_CEC_NONCE_SIZE,
};
use crate::symbols::{EntryPoint, Symbol};
use crate::vgpu::VgpuType;
use crate::Nvml;
use vstd::prelude::*;
use vstd::utf8::encode_utf8;

verus! {

/// The native library's reference to a device: opaque to this layer, and
/// handed back to the native library as it came.
#[derive(Clone, Copy, Debug, PartialEq, Eq, Structural, Hash)]
pub struct DeviceHandle(pub usize);

/// One device. It owns nothing of the native library: it is valid for as
/// long as the library handle that it borrows.
#[derive(Debug)]
pub struct Device<'nvml> {
    device: DeviceHandle,
    nvml: &'nvml Nvml,
}

/// Whether `result` holds, in the same order, one vGPU type of `device` for
/// each number that `listed` holds, or the error that `listed` is.
pub open spec fn vgpu_types_of<'dev>(
    listed: Result<Seq<u32>, NvmlError>,
    device: &'dev Device<'dev>,
    result: Result<Vec<VgpuType<'dev>>, NvmlError>,
) -> bool {
    match listed {
        Err(e) => result matches Err(x) && x == e,
        Ok(ids) => result matches Ok(types) && types@.len() == ids.len() && forall|i: int|
            0 <= i < ids.len() ==> (#[trigger] types@[i]).id() == ids[i]
                && types@[i].spec_device() == device,
    }
}

impl<'nvml> Device<'nvml> {
    /// The native library's reference to this device.
    pub closed spec fn spec_handle(&self) -> DeviceHandle {
        self.device
    }

    /// The library handle that this device borrows.
    pub closed spec fn spec_nvml(&self) -> &'nvml Nvml {
        self.nvml
    }

    /// What the loaded library has for `symbol`.
    pub open spec fn entry(&self, symbol: Symbol) -> Option<EntryPoint> {
        self.spec_nvml().entry(symbol)
    }

    /// A device handle over a reference that the native library gave out.
    /// Nothing is checked here, and nothing can fail: a reference that the
    /// native library no longer knows is refused by the first operation.
    pub fn new(device: DeviceHandle, nvml: &'nvml Nvml) -> (made: Self)
        ensures
            made.spec_handle() == device,
            made.spec_nvml() == nvml,
    {
        Self { device, nvml }
    }

    /// The native library's reference to this device.
    #[verifier::when_used_as_spec(spec_handle)]
    pub fn handle(&self) -> (handle: DeviceHandle)
        ensures
            handle == self.spec_handle(),
    {
        self.device
    }

    /// The library handle that this device borrows.
    #[verifier::when_used_as_spec(spec_nvml)]
    pub fn nvml(&self) -> (nvml: &'nvml Nvml)
        ensures
            nvml == self.spec_nvml(),
    {
        self.nvml
    }

    /// The product name of this device, read from a buffer of
    /// `NVML_DEVICE_NAME_V2_BUFFER_SIZE` bytes.
    ///
    /// Fails with `FunctionNotFound`, before any buffer is made, where the
    /// loaded library lacks the entry point; with the error that the native
    /// status stands for; and with `Encoding` where the call succeeded and
    /// the buffer holds no terminated UTF-8 text.
    pub fn name<N>(&self, native: N) -> (result: Result<String, NvmlError>) where
        N: FnOnce(NativeCall<TextRequest<DeviceHandle>>) -> NativeReply<Vec<u8>>,

        requires
            self.entry(Symbol::DeviceGetName) matches Some(e) ==> forall|
                call: NativeCall<TextRequest<DeviceHandle>>,
            |
                is_text_call(call, e, self.handle(), NVML_DEVICE_NAME_V2_BUFFER_SIZE)
                    ==> #[trigger] native.requires((call,)),
        ensures
            text_post(
                self.entry(Symbol::DeviceGetName),
                self.handle(),
                NVML_DEVICE_NAME_V2_BUFFER_SIZE,
                native,
                result,
            ),
            result matches Ok(text) ==> {
                &&& encode_utf8(text@).len() <= NVML_DEVICE_NAME_V2_BUFFER_SIZE - 1
                &&& !text@.contains('\0')
            },
    {
        let entry = self.nvml.symbols().resolve(Symbol::DeviceGetName);
        text_call(entry, self.device, NVML_DEVICE_NAME_V2_BUFFER_SIZE, native)
    }

    /// The lowest and the highest power limit that can be set on this
    /// device, in milliwatts.
    ///
    /// Fails with `FunctionNotFound`, and calls nothing, where the loaded
    /// library lacks the entry point; else with the error that the native
    /// status stands for.
    pub fn power_management_limit_constraints<N>(&self, native: N) -> (result: Result<
        PowerManagementConstraints,
        NvmlError,
    >) where N: FnOnce(NativeCall<DeviceHandle>) -> NativeReply<(u32, u32)>
        requires
            self.entry(Symbol::DeviceGetPowerManagementLimitConstraints) matches Some(e)
                ==> native.requires((NativeCall { entry: e, args: self.handle() },)),
        ensures
            boundary_post(
                self.entry(Symbol::DeviceGetPowerManagementLimitConstraints),
                self.handle(),
                native,
                |raw: (u32, u32)| PowerManagementConstraints::of(raw),
                result,
            ),
    {
        let entry = self.nvml.symbols().resolve(Symbol::DeviceGetPowerManagementLimitConstraints);
        let (min_limit, max_limit) = boundary_call(entry, self.device, native)?;
        Ok(PowerManagementConstraints { min_limit, max_limit })
    }

    /// How busy the decoder of this device is, and over which period that
    /// was sampled.
    ///
    /// Fails with `FunctionNotFound`, and calls nothing, where the loaded
    /// library lacks the entry point; else with the error that the native
    /// status stands for.
    pub fn decoder_utilization<N>(&self, native: N) -> (result: Result<
        UtilizationInfo,
        NvmlError,
    >) where N: FnOnce(NativeCall<DeviceHandle>) -> NativeReply<(u32, u32)>
        requires
            self.entry(Symbol::DeviceGetDecoderUtilization) matches Some(e) ==> native.requires(
                (NativeCall { entry: e, args: self.handle() },),
            ),
        ensures
            boundary_post(
                self.entry(Symbol::DeviceGetDecoderUtilization),
                self.handle(),
                native,
                |raw: (u32, u32)| UtilizationInfo::of(raw),
                result,
            ),
    {
        let entry = self.nvml.symbols().resolve(Symbol::DeviceGetDecoderUtilization);
        let (utilization, sampling_period) = boundary_call(entry, self.device, native)?;
        Ok(UtilizationInfo { utilization, sampling_period })
    }

    /// How busy the encoder of this device is, and over which period that
    /// was sampled.
    ///
    /// Fails with `FunctionNotFound`, and calls nothing, where the loaded
    /// library lacks the entry point; else with the error that the native
    /// status stands for.
    pub fn encoder_utilization<N>(&self, native: N) -> (result: Result<
        UtilizationInfo,
        NvmlError,
    >) where N: FnOnce(NativeCall<DeviceHandle>) -> NativeReply<(u32, u32)>
        requires
            self.entry(Symbol::DeviceGetEncoderUtilization) matches Some(e) ==> native.requires(
                (NativeCall { entry: e, args: self.handle() },),
            ),
        ensures
            boundary_post(
                self.entry(Symbol::DeviceGetEncoderUtilization),
                self.handle(),
                native,
                |raw: (u32, u32)| UtilizationInfo::of(raw),
                result,
            ),
    {
        let entry = self.nvml.symbols().resolve(Symbol::DeviceGetEncoderUtilization);
        let (utilization, sampling_period) = boundary_call(entry, self.device, native)?;
        Ok(UtilizationInfo { utilization, sampling_period })
    }

    /// The encoder's sessions, their average frame rate and their average
    /// latency: a snapshot of the native library's counters.
    ///
    /// Fails with `FunctionNotFound`, and calls nothing, where the loaded
    /// library lacks the entry point; else with the error that the native
    /// status stands for.
    pub fn encoder_stats<N>(&self, native: N) -> (result: Result<EncoderStats, NvmlError>) where
        N: FnOnce(NativeCall<DeviceHandle>) -> NativeReply<(u32, u32, u32)>,

        requires
            self.entry(Symbol::DeviceGetEncoderStats) matches Some(e) ==> native.requires(
                (NativeCall { entry: e, args: self.handle() },),
            ),
        ensures
            boundary_post(
                self.entry(Symbol::DeviceGetEncoderStats),
                self.handle(),
                native,
                |raw: (u32, u32, u32)| EncoderStats::of(raw),
                result,
            ),
    {
        let entry = self.nvml.symbols().resolve(Symbol::DeviceGetEncoderStats);
        let (session_count, average_fps, average_latency) = boundary_call(
            entry,
            self.device,
            native,
        )?;
        Ok(EncoderStats { session_count, average_fps, average_latency })
    }

    /// The CUDA compute capability of this device.
    ///
    /// Fails with `FunctionNotFound`, and calls nothing, where the loaded
    /// library lacks the entry point; else with the error that the native
    /// status stands for.
    pub fn cuda_compute_capability<N>(&self, native: N) -> (result: Result<
        CudaComputeCapability,
        NvmlError,
    >) where N: FnOnce(NativeCall<DeviceHandle>) -> NativeReply<(i32, i32)>
        requires
            self.entry(Symbol::DeviceGetCudaComputeCapability) matches Some(e)
                ==> native.requires((NativeCall { entry: e, args: self.handle() },)),
        ensures
            boundary_post(
                self.entry(Symbol::DeviceGetCudaComputeCapability),
                self.handle(),
                native,
                |raw: (i32, i32)| CudaComputeCapability::of(raw),
                result,
            ),
    {
        let entry = self.nvml.symbols().resolve(Symbol::DeviceGetCudaComputeCapability);
        let (major, minor) = boundary_call(entry, self.device, native)?;
        Ok(CudaComputeCapability { major, minor })
    }

    /// The certificate chains of this device for confidential computing.
    ///
    /// Fails with `FunctionNotFound`, and calls nothing, where the loaded
    /// library lacks the entry point; with the error that the native status
    /// stands for; and with `InsufficientSize` where the call succeeded and
    /// reports a chain longer than the chain's array. A certificate that is
    /// returned counts no more bytes than its arrays hold.
    pub fn confidential_compute_gpu_certificate<N>(&self, native: N) -> (result: Result<
        ConfidentialComputeGpuCertificate,
        NvmlError,
    >) where N: FnOnce(NativeCall<DeviceHandle>) -> NativeReply<RawGpuCertificate>
        requires
            self.entry(Symbol::DeviceGetConfComputeGpuCertificate) matches Some(e)
                ==> native.requires((NativeCall { entry: e, args: self.handle() },)),
        ensures
            boundary_post(
                self.entry(Symbol::DeviceGetConfComputeGpuCertificate),
                self.handle(),
                native,
                |raw: RawGpuCertificate| ConfidentialComputeGpuCertificate::of(raw),
                result,
            ),
            result matches Ok(certificate) ==> certificate.well_formed(),
    {
        let entry = self.nvml.symbols().resolve(Symbol::DeviceGetConfComputeGpuCertificate);
        let raw = boundary_call(entry, self.device, native)?;
        ConfidentialComputeGpuCertificate::from_raw(raw)
    }

    /// The attestation reports of this device for `nonce`.
    ///
    /// Fails with `FunctionNotFound`, and calls nothing, where the loaded
    /// library lacks the entry point; with the error that the native status
    /// stands for; and with `InsufficientSize` where the call succeeded and
    /// reports a report longer than the report's array. A report that is
    /// returned counts no more bytes than its arrays hold.
    pub fn confidential_compute_gpu_attestation_report<N>(
        &self,
        nonce: [u8; NVML_CC_GPU_CEC_NONCE_SIZE],
        native: N,
    ) -> (result: Result<ConfidentialComputeGpuAttestationReport, NvmlError>) where
        N: FnOnce(
            NativeCall<(DeviceHandle, [u8; NVML_CC_GPU_CEC_NONCE_SIZE])>,
        ) -> NativeReply<RawGpuAttestationReport>,

        requires
            self.entry(Symbol::DeviceGetConfComputeGpuAttestationReport) matches Some(e)
                ==> native.requires((NativeCall { entry: e, args: (self.handle(), nonce) },)),
        ensures
            boundary_post(
                self.entry(Symbol::DeviceGetConfComputeGpuAttestationReport),
                (self.handle(), nonce),
                native,
                |raw: RawGpuAttestationReport| ConfidentialComputeGpuAttestationReport::of(raw),
                result,
            ),
            result matches Ok(report) ==> report.well_formed(),
    {
        let entry = self.nvml.symbols().resolve(Symbol::DeviceGetConfComputeGpuAttestationReport);
        let raw = boundary_call(entry, (self.device, nonce), native)?;
        ConfidentialComputeGpuAttestationReport::from_raw(raw)
    }

    /// The vGPU types that this device supports, from a list made for
    /// `capacity` of them, in the order of the native library.
    ///
    /// Fails with `FunctionNotFound`, before any list is made, where the
    /// loaded library lacks the entry point; with the error that the native
    /// status stands for, after one call and no more; and with
    /// `InsufficientSize` also where the call succeeded and counts more
    /// vGPU types than the list holds.
    pub fn vgpu_supported_types<'dev, N>(&'dev self, capacity: u32, native: N) -> (result: Result<
        Vec<VgpuType<'dev>>,
        NvmlError,
    >) where N: FnOnce(NativeCall<ListRequest<DeviceHandle>>) -> NativeReply<Listed>
        requires
            self.entry(Symbol::DeviceGetSupportedVgpus) matches Some(e) ==> forall|
                call: NativeCall<ListRequest<DeviceHandle>>,
            |
                is_list_call(call, e, self.handle(), capacity) ==> #[trigger] native.requires(
                    (call,),
                ),
        ensures
            exists|ids: Result<Vec<u32>, NvmlError>|
                list_post(
                    self.entry(Symbol::DeviceGetSupportedVgpus),
                    self.handle(),
                    capacity,
                    native,
                    ids,
                ) && #[trigger] vgpu_types_of(list_view(ids), self, result),
    {
        let entry = self.nvml.symbols().resolve(Symbol::DeviceGetSupportedVgpus);
        let ids = list_call(entry, self.device, capacity, native);
        self.vgpu_types(ids)
    }

    /// The vGPU types that can be created on this device now, from a list
    /// made for `capacity` of them, in the order of the native library.
    ///
    /// Fails with `FunctionNotFound`, before any list is made, where the
    /// loaded library lacks the entry point; with the error that the native
    /// status stands for, after one call and no more; and with
    /// `InsufficientSize` also where the call succeeded and counts more
    /// vGPU types than the list holds.
    pub fn vgpu_creatable_types<'dev, N>(&'dev self, capacity: u32, native: N) -> (result: Result<
        Vec<VgpuType<'dev>>,
        NvmlError,
    >) where N: FnOnce(NativeCall<ListRequest<DeviceHandle>>) -> NativeReply<Listed>
        requires
            self.entry(Symbol::DeviceGetCreatableVgpus) matches Some(e) ==> forall|
                call: NativeCall<ListRequest<DeviceHandle>>,
            |
                is_list_call(call, e, self.handle(), capacity) ==> #[trigger] native.requires(
                    (call,),
                ),
        ensures
            exists|ids: Result<Vec<u32>, NvmlError>|
                list_post(
                    self.entry(Symbol::DeviceGetCreatableVgpus),
                    self.handle(),
                    capacity,
                    native,
                    ids,
                ) && #[trigger] vgpu_types_of(list_view(ids), self, result),
    {
        let entry = self.nvml.symbols().resolve(Symbol::DeviceGetCreatableVgpus);
        let ids = list_call(entry, self.device, capacity, native);
        self.vgpu_types(ids)
    }

    /// One vGPU type of this device for each number in `ids`, in the same
    /// order; or the error that `ids` is.
    pub fn vgpu_types<'dev>(&'dev self, ids: Result<Vec<u32>, NvmlError>) -> (result: Result<
        Vec<VgpuType<'dev>>,
        NvmlError,
    >)
        ensures
            vgpu_types_of(list_view(ids), self, result),
    {
        let ids = match ids {
            Ok(ids) => ids,
            Err(e) => {
                return Err(e);
            },
        };
        let mut types: Vec<VgpuType<'dev>> = Vec::new();
        let mut i: usize = 0;
        while i < ids.len()
            invariant
                i <= ids@.len(),
                types@.len() == i,
                forall|k: int|
                    0 <= k < i ==> (#[trigger] types@[k]).id() == ids@[k]
                        && types@[k].spec_device() == self,
            decreases ids@.len() - i,
        {
            types.push(VgpuType::new(self, ids[i]));
            i = i + 1;
        }
        Ok(types)
    }
}

} // verus!
