//! The typed values that device operations return.
//!
//! Each is made by one native call and is plain data from then on. Two
//! values are equal when their fields are.

use crate::enum_wrappers::device::{DriverModel, OperationMode};
use crate::error::NvmlError;
use vstd::prelude::*;

verus! {

/// How many bytes a GPU certificate chain can hold.
pub const NVML_GPU_CERT_CHAIN_SIZE: usize = 0x1000;

/// How many bytes a GPU attestation certificate chain can hold.
pub const NVML_GPU_ATTESTATION_CERT_CHAIN_SIZE: usize = 0x1400;

/// How many bytes the nonce of an attestation request holds.
pub const NVML_CC_GPU_CEC_NONCE_SIZE: usize = 0x20;

/// How many bytes a GPU attestation report can hold.
pub const NVML_CC_GPU_ATTESTATION_REPORT_SIZE: usize = 0x2000;

/// How many bytes a CEC attestation report can hold.
pub const NVML_CC_GPU_CEC_ATTESTATION_REPORT_SIZE: usize = 0x1000;

/// The value by which the native library says that a CEC attestation report
/// is present.
pub const NVML_CC_CEC_ATTESTATION_REPORT_PRESENT: u32 = 1;

/// Returned from `Device.auto_boosted_clocks_enabled()`
#[derive(Debug, Clone, Eq, PartialEq, Structural, Hash)]
pub struct AutoBoostClocksEnabledInfo {
    /// Current state of auto boosted clocks for the `Device`
    pub is_enabled: bool,
    /// Default auto boosted clocks behavior for the `Device`
    ///
    /// The GPU will revert to this default when no applications are using the
    /// GPU.
    pub is_enabled_default: bool,
}

/// Returned from `Device.decoder_utilization()` and
/// `Device.encoder_utilization()`.
#[derive(Debug, Clone, Eq, PartialEq, Structural, Hash)]
pub struct UtilizationInfo {
    pub utilization: u32,
    /// Sampling period in μs.
    pub sampling_period: u32,
}

/// Returned from `Device.driver_model()`
#[derive(Debug)]
pub struct DriverModelState {
    pub current: DriverModel,
    pub pending: DriverModel,
}

/// Returned from `Device.is_ecc_enabled()`
#[derive(Debug, Clone, Eq, PartialEq, Structural, Hash)]
pub struct EccModeState {
    pub currently_enabled: bool,
    pub pending_enabled: bool,
}

/// Returned from `Device.gpu_operation_mode()`
#[derive(Debug)]
pub struct OperationModeState {
    pub current: OperationMode,
    pub pending: OperationMode,
}

/// Returned from `Device.power_management_limit_constraints()`
///
/// Values are in milliwatts.
#[derive(Debug, Clone, Eq, PartialEq, Structural, Hash)]
pub struct PowerManagementConstraints {
    pub min_limit: u32,
    pub max_limit: u32,
}

/// Returned from `Device.encoder_stats()`
#[derive(Debug, Clone, Eq, PartialEq, Structural, Hash)]
pub struct EncoderStats {
    /// The number of active encoder sessions.
    pub session_count: u32,
    /// The trailing average FPS of all active encoder sessions.
    pub average_fps: u32,
    /// The encode latency in μs.
    pub average_latency: u32,
}

/// Returned from `Device.cuda_compute_capability()`
#[derive(Debug, Clone, Eq, PartialEq, Structural, Hash)]
pub struct CudaComputeCapability {
    pub major: i32,
    pub minor: i32,
}

/// Returned from `Device.retired_pages()`
#[derive(Debug, Clone, Eq, PartialEq, Structural, Hash)]
pub struct RetiredPage {
    /// The hardware address of the page that was retired.
    ///
    /// Note that this does not match the virtual address used in CUDA but does
    /// match the address information in XID 63.
    pub address: u64,
    /// The retirement timestamp.
    pub timestamp: u64,
}

/// The number of a field of a device, as the native library counts them.
///
/// Used in `FieldValue` and `Device.field_values_for()`.
#[derive(Debug, Clone, Eq, PartialEq, Structural, Hash)]
pub struct FieldId(pub u32);

/// Returned from `Device.get_confidential_compute_capabilities()`
#[derive(Debug, Clone, Eq, PartialEq, Structural, Hash)]
pub struct ConfidentialComputeCapabilities {
    /// The CPU capabilities.
    pub cpu_caps: ConfidentialComputeCpuCapabilities,
    /// The GPU capabilities.
    pub gpus_caps: ConfidentialComputeGpuCapabilities,
}

/// The possible CPU capabilities for confidential compute (either none, AMD SEV or Intel TDX)
#[derive(Debug, Clone, Eq, PartialEq, Structural, Hash)]
pub enum ConfidentialComputeCpuCapabilities {
    /// No CPU capabilities.
    NoCapabilities,
    /// AMD SEV confidential compute capabilities.
    AmdSev,
    /// Intel TDX confidential compute capabilities.
    IntelTdx,
}

/// The possible GPU capabilities for confidential compute (either not capable or capable)
#[derive(Debug, Clone, Eq, PartialEq, Structural, Hash)]
pub enum ConfidentialComputeGpuCapabilities {
    /// Capable.
    Capable,
    /// Not capable.
    NotCapable,
}

/// Returned from `Device.confidential_compute_gpu_certificate()`
///
/// Each chain is an array of its full capacity. Only the leading bytes that
/// its size field counts were written by the native library; the rest means
/// nothing.
#[derive(Debug, Clone, Eq, PartialEq, Hash)]
pub struct ConfidentialComputeGpuCertificate {
    /// The size of the certificate chain.
    pub cert_chain_size: u32,
    /// The size of the attestation certificate chain.
    pub attestation_cert_chain_size: u32,
    /// The certificate chain.
    pub cert_chain: [u8; NVML_GPU_CERT_CHAIN_SIZE],
    /// The attestation certificate chain.
    pub attestation_cert_chain: [u8; NVML_GPU_ATTESTATION_CERT_CHAIN_SIZE],
}

/// Returned from `Device.confidential_compute_gpu_attestation_report_bytes()`
///
/// Each report is an array of its full capacity. Only the leading bytes that
/// its size field counts were written by the native library; the rest means
/// nothing.
#[derive(Debug, Clone, Eq, PartialEq, Hash)]
pub struct ConfidentialComputeGpuAttestationReport {
    /// The size of the attestation report.
    pub attestation_report_size: u32,
    /// The attestation report.
    pub attestation_report: [u8; NVML_CC_GPU_ATTESTATION_REPORT_SIZE],
    /// Whether the CEC attestation report is present.
    pub is_cec_attestation_report_present: bool,
    /// The size of the CEC attestation report.
    pub cec_attestation_report_size: u32,
    /// The CEC attestation report.
    pub cec_attestation_report: [u8; NVML_CC_GPU_CEC_ATTESTATION_REPORT_SIZE],
}

/// The certificate chains as the native library hands them over.
#[derive(Debug, Clone, Eq, PartialEq, Hash)]
pub struct RawGpuCertificate {
    pub cert_chain_size: u32,
    pub attestation_cert_chain_size: u32,
    pub cert_chain: [u8; NVML_GPU_CERT_CHAIN_SIZE],
    pub attestation_cert_chain: [u8; NVML_GPU_ATTESTATION_CERT_CHAIN_SIZE],
}

/// The attestation reports as the native library hands them over.
#[derive(Debug, Clone, Eq, PartialEq, Hash)]
pub struct RawGpuAttestationReport {
    pub is_cec_attestation_report_present: u32,
    pub attestation_report_size: u32,
    pub cec_attestation_report_size: u32,
    pub attestation_report: [u8; NVML_CC_GPU_ATTESTATION_REPORT_SIZE],
    pub cec_attestation_report: [u8; NVML_CC_GPU_CEC_ATTESTATION_REPORT_SIZE],
}

impl PowerManagementConstraints {
    /// The constraints that the two outputs of the native call stand for.
    pub open spec fn of(raw: (u32, u32)) -> Result<PowerManagementConstraints, NvmlError> {
        Ok(PowerManagementConstraints { min_limit: raw.0, max_limit: raw.1 })
    }
}

impl UtilizationInfo {
    /// The utilization that the two outputs of the native call stand for.
    pub open spec fn of(raw: (u32, u32)) -> Result<UtilizationInfo, NvmlError> {
        Ok(UtilizationInfo { utilization: raw.0, sampling_period: raw.1 })
    }
}

impl EncoderStats {
    /// The statistics that the three outputs of the native call stand for.
    pub open spec fn of(raw: (u32, u32, u32)) -> Result<EncoderStats, NvmlError> {
        Ok(EncoderStats { session_count: raw.0, average_fps: raw.1, average_latency: raw.2 })
    }
}

impl CudaComputeCapability {
    /// The capability that the two outputs of the native call stand for.
    pub open spec fn of(raw: (i32, i32)) -> Result<CudaComputeCapability, NvmlError> {
        Ok(CudaComputeCapability { major: raw.0, minor: raw.1 })
    }
}

impl ConfidentialComputeGpuCertificate {
    /// Whether each size field counts no more bytes than its chain can hold.
    pub open spec fn well_formed(&self) -> bool {
        &&& self.cert_chain_size <= NVML_GPU_CERT_CHAIN_SIZE
        &&& self.attestation_cert_chain_size <= NVML_GPU_ATTESTATION_CERT_CHAIN_SIZE
    }

    /// The bytes of the certificate chain that mean something.
    pub open spec fn cert_chain_bytes(&self) -> Seq<u8> {
        self.cert_chain@.subrange(0, self.cert_chain_size as int)
    }

    /// The bytes of the attestation certificate chain that mean something.
    pub open spec fn attestation_cert_chain_bytes(&self) -> Seq<u8> {
        self.attestation_cert_chain@.subrange(0, self.attestation_cert_chain_size as int)
    }

    /// The certificate that `raw` stands for: its fields, taken over as they
    /// are, or `InsufficientSize` where a size counts more bytes than its
    /// chain can hold.
    pub open spec fn of(raw: RawGpuCertificate) -> Result<
        ConfidentialComputeGpuCertificate,
        NvmlError,
    > {
        if raw.cert_chain_size <= NVML_GPU_CERT_CHAIN_SIZE && raw.attestation_cert_chain_size
            <= NVML_GPU_ATTESTATION_CERT_CHAIN_SIZE {
            Ok(
                ConfidentialComputeGpuCertificate {
                    cert_chain_size: raw.cert_chain_size,
                    attestation_cert_chain_size: raw.attestation_cert_chain_size,
                    cert_chain: raw.cert_chain,
                    attestation_cert_chain: raw.attestation_cert_chain,
                },
            )
        } else {
            Err(NvmlError::InsufficientSize)
        }
    }

    /// Takes the certificate chains over from the native library, after
    /// checking that each size counts no more bytes than its chain can hold.
    pub fn from_raw(raw: RawGpuCertificate) -> (result: Result<
        ConfidentialComputeGpuCertificate,
        NvmlError,
    >)
        ensures
            result == Self::of(raw),
            result matches Ok(certificate) ==> certificate.well_formed(),
    {
        if raw.cert_chain_size as usize <= NVML_GPU_CERT_CHAIN_SIZE
            && raw.attestation_cert_chain_size as usize <= NVML_GPU_ATTESTATION_CERT_CHAIN_SIZE {
            Ok(
                ConfidentialComputeGpuCertificate {
                    cert_chain_size: raw.cert_chain_size,
                    attestation_cert_chain_size: raw.attestation_cert_chain_size,
                    cert_chain: raw.cert_chain,
                    attestation_cert_chain: raw.attestation_cert_chain,
                },
            )
        } else {
            Err(NvmlError::InsufficientSize)
        }
    }
}

impl ConfidentialComputeGpuAttestationReport {
    /// Whether each size field counts no more bytes than its report can hold.
    pub open spec fn well_formed(&self) -> bool {
        &&& self.attestation_report_size <= NVML_CC_GPU_ATTESTATION_REPORT_SIZE
        &&& self.cec_attestation_report_size <= NVML_CC_GPU_CEC_ATTESTATION_REPORT_SIZE
    }

    /// The bytes of the attestation report that mean something.
    pub open spec fn attestation_report_bytes(&self) -> Seq<u8> {
        self.attestation_report@.subrange(0, self.attestation_report_size as int)
    }

    /// The bytes of the CEC attestation report that mean something.
    pub open spec fn cec_attestation_report_bytes(&self) -> Seq<u8> {
        self.cec_attestation_report@.subrange(0, self.cec_attestation_report_size as int)
    }

    /// The report that `raw` stands for: its fields, taken over as they are,
    /// or `InsufficientSize` where a size counts more bytes than its report
    /// can hold.
    pub open spec fn of(raw: RawGpuAttestationReport) -> Result<
        ConfidentialComputeGpuAttestationReport,
        NvmlError,
    > {
        if raw.attestation_report_size <= NVML_CC_GPU_ATTESTATION_REPORT_SIZE
            && raw.cec_attestation_report_size <= NVML_CC_GPU_CEC_ATTESTATION_REPORT_SIZE {
            Ok(
                ConfidentialComputeGpuAttestationReport {
                    attestation_report_size: raw.attestation_report_size,
                    attestation_report: raw.attestation_report,
                    is_cec_attestation_report_present: raw.is_cec_attestation_report_present
                        == NVML_CC_CEC_ATTESTATION_REPORT_PRESENT,
                    cec_attestation_report_size: raw.cec_attestation_report_size,
                    cec_attestation_report: raw.cec_attestation_report,
                },
            )
        } else {
            Err(NvmlError::InsufficientSize)
        }
    }

    /// Takes the reports over from the native library, after checking that
    /// each size counts no more bytes than its report can hold.
    pub fn from_raw(raw: RawGpuAttestationReport) -> (result: Result<
        ConfidentialComputeGpuAttestationReport,
        NvmlError,
    >)
        ensures
            result == Self::of(raw),
            result matches Ok(report) ==> report.well_formed(),
    {
        if raw.attestation_report_size as usize <= NVML_CC_GPU_ATTESTATION_REPORT_SIZE
            && raw.cec_attestation_report_size as usize
            <= NVML_CC_GPU_CEC_ATTESTATION_REPORT_SIZE {
            Ok(
                ConfidentialComputeGpuAttestationReport {
                    attestation_report_size: raw.attestation_report_size,
                    attestation_report: raw.attestation_report,
                    is_cec_attestation_report_present: raw.is_cec_attestation_report_present
                        == NVML_CC_CEC_ATTESTATION_REPORT_PRESENT,
                    cec_attestation_report_size: raw.cec_attestation_report_size,
                    cec_attestation_report: raw.cec_attestation_report,
                },
            )
        } else {
            Err(NvmlError::InsufficientSize)
        }
    }
}

/// Whatever the native library hands over, a certificate that is returned
/// counts no more bytes in a chain than the chain can hold.
pub proof fn lemma_certificate_sizes_fit(raw: RawGpuCertificate)
    ensures
        ConfidentialComputeGpuCertificate::of(raw) matches Ok(certificate) ==> {
            &&& certificate.cert_chain_size <= certificate.cert_chain@.len()
            &&& certificate.attestation_cert_chain_size <= certificate.attestation_cert_chain@.len()
            &&& certificate.cert_chain_bytes().len() == certificate.cert_chain_size
            &&& certificate.attestation_cert_chain_bytes().len()
                == certificate.attestation_cert_chain_size
        },
{
}

/// Whatever the native library hands over, a report that is returned counts
/// no more bytes in a report than the report can hold.
pub proof fn lemma_report_sizes_fit(raw: RawGpuAttestationReport)
    ensures
        ConfidentialComputeGpuAttestationReport::of(raw) matches Ok(report) ==> {
            &&& report.attestation_report_size <= report.attestation_report@.len()
            &&& report.cec_attestation_report_size <= report.cec_attestation_report@.len()
            &&& report.attestation_report_bytes().len() == report.attestation_report_size
            &&& report.cec_attestation_report_bytes().len() == report.cec_attestation_report_size
        },
{
}

} // verus!
