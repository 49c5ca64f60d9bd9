//! Status codes of the native library and the errors they stand for.
//!
//! A native call answers with an integer status. Zero is success; every
//! other value is an error. [`translate`] turns the integer into a
//! [`NvmlError`], and [`status_error`] is the table it follows.

use vstd::prelude::*;

verus! {

/// The call succeeded.
pub const NVML_SUCCESS: u32 = 0;

/// The library was not initialised first.
pub const NVML_ERROR_UNINITIALIZED: u32 = 1;

/// A supplied argument is invalid.
pub const NVML_ERROR_INVALID_ARGUMENT: u32 = 2;

/// The requested operation is not available on the target device.
pub const NVML_ERROR_NOT_SUPPORTED: u32 = 3;

/// The current user may not perform the operation.
pub const NVML_ERROR_NO_PERMISSION: u32 = 4;

/// The library was initialised twice.
pub const NVML_ERROR_ALREADY_INITIALIZED: u32 = 5;

/// A query found nothing.
pub const NVML_ERROR_NOT_FOUND: u32 = 6;

/// An input buffer is not large enough.
pub const NVML_ERROR_INSUFFICIENT_SIZE: u32 = 7;

/// A query did not finish in the time allowed.
pub const NVML_ERROR_TIMEOUT: u32 = 10;

/// The driver met an unexpected interrupt problem.
pub const NVML_ERROR_IRQ_ISSUE: u32 = 11;

/// The native library could not be found or loaded.
pub const NVML_ERROR_LIBRARY_NOT_FOUND: u32 = 12;

/// The loaded native library lacks a function.
pub const NVML_ERROR_FUNCTION_NOT_FOUND: u32 = 13;

/// The device's infoROM is corrupted.
pub const NVML_ERROR_CORRUPTED_INFOROM: u32 = 14;

/// The device fell off the bus or is otherwise unreachable.
pub const NVML_ERROR_GPU_IS_LOST: u32 = 15;

/// The device must be reset before it can be used again.
pub const NVML_ERROR_RESET_REQUIRED: u32 = 16;

/// The operating system blocked the request.
pub const NVML_ERROR_OPERATING_SYSTEM: u32 = 17;

/// The library and the kernel driver disagree on their version.
pub const NVML_ERROR_LIB_RM_VERSION_MISMATCH: u32 = 18;

/// The device is in use.
pub const NVML_ERROR_IN_USE: u32 = 19;

/// Memory could not be had for the request.
pub const NVML_ERROR_MEMORY: u32 = 20;

/// There is no data.
pub const NVML_ERROR_NO_DATA: u32 = 21;

/// The operation is not available because ECC is enabled on a vGPU.
pub const NVML_ERROR_VGPU_ECC_NOT_SUPPORTED: u32 = 22;

/// Resources ran out for the request.
pub const NVML_ERROR_INSUFFICIENT_RESOURCES: u32 = 23;

/// The requested frequency is not available.
pub const NVML_ERROR_FREQ_NOT_SUPPORTED: u32 = 24;

/// The version of a versioned argument is not the one expected.
pub const NVML_ERROR_ARGUMENT_VERSION_MISMATCH: u32 = 25;

/// The called function is deprecated.
pub const NVML_ERROR_DEPRECATED: u32 = 26;

/// The system is not ready for the request.
pub const NVML_ERROR_NOT_READY: u32 = 27;

/// No device was found.
pub const NVML_ERROR_GPU_NOT_FOUND: u32 = 28;

/// The request cannot be served in the current state.
pub const NVML_ERROR_INVALID_STATE: u32 = 29;

/// What can go wrong in one call through the binding.
///
/// All kinds but `Encoding` and `InUseByClient` stand for exactly one status
/// code of the native library. `Encoding` is raised by the binding itself
/// when a call succeeded and its text buffer cannot be read as text.
/// `Unknown` carries every status code that the table does not hold.
#[derive(Clone, Copy, Debug, PartialEq, Eq, Structural, Hash)]
pub enum NvmlError {
    /// The native library was not initialised first.
    Uninitialized,
    /// An argument, or the handle itself, is not valid.
    InvalidArgument,
    /// The target does not offer the operation.
    NotSupported,
    /// The buffer or the list that was handed over is too small.
    InsufficientSize,
    /// The current user may not perform the operation.
    InsufficientPermissions,
    /// A query found nothing.
    NotFound,
    /// The device is in use.
    InUse,
    /// The native library was initialised twice.
    AlreadyInitialized,
    /// The native library did not answer in time.
    Timeout,
    /// The driver met an unexpected interrupt problem.
    IrqIssue,
    /// The native library could not be found or loaded.
    LibraryNotFound,
    /// The status code of that name, or an entry point that the loaded
    /// library does not export.
    FunctionNotFound,
    /// The infoROM of the device is corrupted.
    CorruptedInfoROM,
    /// The device fell off the bus or cannot be reached.
    GpuIsLost,
    /// The device must be reset before it is used again.
    ResetRequired,
    /// The operating system blocked the request.
    OperatingSystemError,
    /// The native library and the kernel driver disagree on their version.
    LibRmVersionMismatch,
    /// The device is in use by another client. No status code stands for
    /// this kind: no translation yields it.
    InUseByClient,
    /// Memory could not be had for the request.
    MemoryMismatch,
    /// There is no data.
    NoData,
    /// The operation is not available because ECC is on for the vGPU.
    VgpuEccNotSupported,
    /// Resources ran out.
    InsufficientResources,
    /// The requested frequency is not available.
    FreqNotSupported,
    /// A versioned argument has another version than the one expected.
    ArgumentVersionMismatch,
    /// The called function is deprecated.
    DeprecatedApi,
    /// The system is not ready for the request.
    NotReady,
    /// No device was found.
    GpuNotFound,
    /// The request cannot be served in the current state.
    InvalidState,
    /// A text buffer held no terminator, or bytes that are not UTF-8.
    Encoding,
    /// A status code outside the table, kept as it came.
    Unknown(u32),
}

/// The table: `None` for success, else the error that `code` stands for.
pub open spec fn status_error(code: u32) -> Option<NvmlError> {
    if code == NVML_SUCCESS {
        None
    } else if code == NVML_ERROR_UNINITIALIZED {
        Some(NvmlError::Uninitialized)
    } else if code == NVML_ERROR_INVALID_ARGUMENT {
        Some(NvmlError::InvalidArgument)
    } else if code == NVML_ERROR_NOT_SUPPORTED {
        Some(NvmlError::NotSupported)
    } else if code == NVML_ERROR_NO_PERMISSION {
        Some(NvmlError::InsufficientPermissions)
    } else if code == NVML_ERROR_ALREADY_INITIALIZED {
        Some(NvmlError::AlreadyInitialized)
    } else if code == NVML_ERROR_NOT_FOUND {
        Some(NvmlError::NotFound)
    } else if code == NVML_ERROR_INSUFFICIENT_SIZE {
        Some(NvmlError::InsufficientSize)
    } else if code == NVML_ERROR_TIMEOUT {
        Some(NvmlError::Timeout)
    } else if code == NVML_ERROR_IRQ_ISSUE {
        Some(NvmlError::IrqIssue)
    } else if code == NVML_ERROR_LIBRARY_NOT_FOUND {
        Some(NvmlError::LibraryNotFound)
    } else if code == NVML_ERROR_FUNCTION_NOT_FOUND {
        Some(NvmlError::FunctionNotFound)
    } else if code == NVML_ERROR_CORRUPTED_INFOROM {
        Some(NvmlError::CorruptedInfoROM)
    } else if code == NVML_ERROR_GPU_IS_LOST {
        Some(NvmlError::GpuIsLost)
    } else if code == NVML_ERROR_RESET_REQUIRED {
        Some(NvmlError::ResetRequired)
    } else if code == NVML_ERROR_OPERATING_SYSTEM {
        Some(NvmlError::OperatingSystemError)
    } else if code == NVML_ERROR_LIB_RM_VERSION_MISMATCH {
        Some(NvmlError::LibRmVersionMismatch)
    } else if code == NVML_ERROR_IN_USE {
        Some(NvmlError::InUse)
    } else if code == NVML_ERROR_MEMORY {
        Some(NvmlError::MemoryMismatch)
    } else if code == NVML_ERROR_NO_DATA {
        Some(NvmlError::NoData)
    } else if code == NVML_ERROR_VGPU_ECC_NOT_SUPPORTED {
        Some(NvmlError::VgpuEccNotSupported)
    } else if code == NVML_ERROR_INSUFFICIENT_RESOURCES {
        Some(NvmlError::InsufficientResources)
    } else if code == NVML_ERROR_FREQ_NOT_SUPPORTED {
        Some(NvmlError::FreqNotSupported)
    } else if code == NVML_ERROR_ARGUMENT_VERSION_MISMATCH {
        Some(NvmlError::ArgumentVersionMismatch)
    } else if code == NVML_ERROR_DEPRECATED {
        Some(NvmlError::DeprecatedApi)
    } else if code == NVML_ERROR_NOT_READY {
        Some(NvmlError::NotReady)
    } else if code == NVML_ERROR_GPU_NOT_FOUND {
        Some(NvmlError::GpuNotFound)
    } else if code == NVML_ERROR_INVALID_STATE {
        Some(NvmlError::InvalidState)
    } else {
        Some(NvmlError::Unknown(code))
    }
}

/// What [`translate`] returns for `code`.
pub open spec fn status_result(code: u32) -> Result<(), NvmlError> {
    match status_error(code) {
        None => Ok(()),
        Some(e) => Err(e),
    }
}

impl NvmlError {
    /// The status code that this error stands for, if it stands for one.
    pub open spec fn spec_status_code(self) -> Option<u32> {
        match self {
            NvmlError::Uninitialized => Some(NVML_ERROR_UNINITIALIZED),
            NvmlError::InvalidArgument => Some(NVML_ERROR_INVALID_ARGUMENT),
            NvmlError::NotSupported => Some(NVML_ERROR_NOT_SUPPORTED),
            NvmlError::InsufficientSize => Some(NVML_ERROR_INSUFFICIENT_SIZE),
            NvmlError::InsufficientPermissions => Some(NVML_ERROR_NO_PERMISSION),
            NvmlError::NotFound => Some(NVML_ERROR_NOT_FOUND),
            NvmlError::InUse => Some(NVML_ERROR_IN_USE),
            NvmlError::AlreadyInitialized => Some(NVML_ERROR_ALREADY_INITIALIZED),
            NvmlError::Timeout => Some(NVML_ERROR_TIMEOUT),
            NvmlError::IrqIssue => Some(NVML_ERROR_IRQ_ISSUE),
            NvmlError::LibraryNotFound => Some(NVML_ERROR_LIBRARY_NOT_FOUND),
            NvmlError::FunctionNotFound => Some(NVML_ERROR_FUNCTION_NOT_FOUND),
            NvmlError::CorruptedInfoROM => Some(NVML_ERROR_CORRUPTED_INFOROM),
            NvmlError::GpuIsLost => Some(NVML_ERROR_GPU_IS_LOST),
            NvmlError::ResetRequired => Some(NVML_ERROR_RESET_REQUIRED),
            NvmlError::OperatingSystemError => Some(NVML_ERROR_OPERATING_SYSTEM),
            NvmlError::LibRmVersionMismatch => Some(NVML_ERROR_LIB_RM_VERSION_MISMATCH),
            NvmlError::InUseByClient => None,
            NvmlError::MemoryMismatch => Some(NVML_ERROR_MEMORY),
            NvmlError::NoData => Some(NVML_ERROR_NO_DATA),
            NvmlError::VgpuEccNotSupported => Some(NVML_ERROR_VGPU_ECC_NOT_SUPPORTED),
            NvmlError::InsufficientResources => Some(NVML_ERROR_INSUFFICIENT_RESOURCES),
            NvmlError::FreqNotSupported => Some(NVML_ERROR_FREQ_NOT_SUPPORTED),
            NvmlError::ArgumentVersionMismatch => Some(NVML_ERROR_ARGUMENT_VERSION_MISMATCH),
            NvmlError::DeprecatedApi => Some(NVML_ERROR_DEPRECATED),
            NvmlError::NotReady => Some(NVML_ERROR_NOT_READY),
            NvmlError::GpuNotFound => Some(NVML_ERROR_GPU_NOT_FOUND),
            NvmlError::InvalidState => Some(NVML_ERROR_INVALID_STATE),
            NvmlError::Encoding => None,
            NvmlError::Unknown(code) => Some(code),
        }
    }

    /// The status code that this error stands for, if it stands for one.
    #[verifier::when_used_as_spec(spec_status_code)]
    pub fn status_code(self) -> (code: Option<u32>)
        ensures
            code == self.spec_status_code(),
    {
        match self {
            NvmlError::Uninitialized => Some(NVML_ERROR_UNINITIALIZED),
            NvmlError::InvalidArgument => Some(NVML_ERROR_INVALID_ARGUMENT),
            NvmlError::NotSupported => Some(NVML_ERROR_NOT_SUPPORTED),
            NvmlError::InsufficientSize => Some(NVML_ERROR_INSUFFICIENT_SIZE),
            NvmlError::InsufficientPermissions => Some(NVML_ERROR_NO_PERMISSION),
            NvmlError::NotFound => Some(NVML_ERROR_NOT_FOUND),
            NvmlError::InUse => Some(NVML_ERROR_IN_USE),
            NvmlError::AlreadyInitialized => Some(NVML_ERROR_ALREADY_INITIALIZED),
            NvmlError::Timeout => Some(NVML_ERROR_TIMEOUT),
            NvmlError::IrqIssue => Some(NVML_ERROR_IRQ_ISSUE),
            NvmlError::LibraryNotFound => Some(NVML_ERROR_LIBRARY_NOT_FOUND),
            NvmlError::FunctionNotFound => Some(NVML_ERROR_FUNCTION_NOT_FOUND),
            NvmlError::CorruptedInfoROM => Some(NVML_ERROR_CORRUPTED_INFOROM),
            NvmlError::GpuIsLost => Some(NVML_ERROR_GPU_IS_LOST),
            NvmlError::ResetRequired => Some(NVML_ERROR_RESET_REQUIRED),
            NvmlError::OperatingSystemError => Some(NVML_ERROR_OPERATING_SYSTEM),
            NvmlError::LibRmVersionMismatch => Some(NVML_ERROR_LIB_RM_VERSION_MISMATCH),
            NvmlError::InUseByClient => None,
            NvmlError::MemoryMismatch => Some(NVML_ERROR_MEMORY),
            NvmlError::NoData => Some(NVML_ERROR_NO_DATA),
            NvmlError::VgpuEccNotSupported => Some(NVML_ERROR_VGPU_ECC_NOT_SUPPORTED),
            NvmlError::InsufficientResources => Some(NVML_ERROR_INSUFFICIENT_RESOURCES),
            NvmlError::FreqNotSupported => Some(NVML_ERROR_FREQ_NOT_SUPPORTED),
            NvmlError::ArgumentVersionMismatch => Some(NVML_ERROR_ARGUMENT_VERSION_MISMATCH),
            NvmlError::DeprecatedApi => Some(NVML_ERROR_DEPRECATED),
            NvmlError::NotReady => Some(NVML_ERROR_NOT_READY),
            NvmlError::GpuNotFound => Some(NVML_ERROR_GPU_NOT_FOUND),
            NvmlError::InvalidState => Some(NVML_ERROR_INVALID_STATE),
            NvmlError::Encoding => None,
            NvmlError::Unknown(code) => Some(code),
        }
    }
}

/// Turns the status code of a native call into a result: `Ok` for zero and
/// for nothing else, and for every other code the error that the table gives.
pub fn translate(code: u32) -> (result: Result<(), NvmlError>)
    ensures
        result == status_result(code),
        result is Ok <==> code == NVML_SUCCESS,
{
    match code {
        0 => Ok(()),
        1 => Err(NvmlError::Uninitialized),
        2 => Err(NvmlError::InvalidArgument),
        3 => Err(NvmlError::NotSupported),
        4 => Err(NvmlError::InsufficientPermissions),
        5 => Err(NvmlError::AlreadyInitialized),
        6 => Err(NvmlError::NotFound),
        7 => Err(NvmlError::InsufficientSize),
        10 => Err(NvmlError::Timeout),
        11 => Err(NvmlError::IrqIssue),
        12 => Err(NvmlError::LibraryNotFound),
        13 => Err(NvmlError::FunctionNotFound),
        14 => Err(NvmlError::CorruptedInfoROM),
        15 => Err(NvmlError::GpuIsLost),
        16 => Err(NvmlError::ResetRequired),
        17 => Err(NvmlError::OperatingSystemError),
        18 => Err(NvmlError::LibRmVersionMismatch),
        19 => Err(NvmlError::InUse),
        20 => Err(NvmlError::MemoryMismatch),
        21 => Err(NvmlError::NoData),
        22 => Err(NvmlError::VgpuEccNotSupported),
        23 => Err(NvmlError::InsufficientResources),
        24 => Err(NvmlError::FreqNotSupported),
        25 => Err(NvmlError::ArgumentVersionMismatch),
        26 => Err(NvmlError::DeprecatedApi),
        27 => Err(NvmlError::NotReady),
        28 => Err(NvmlError::GpuNotFound),
        29 => Err(NvmlError::InvalidState),
        _ => Err(NvmlError::Unknown(code)),
    }
}

/// An error never stands for success, and the code an error was translated
/// from can be read back from it: no code is lost in translation.
pub proof fn lemma_translation_keeps_code(code: u32)
    ensures
        status_error(code) is None <==> code == NVML_SUCCESS,
        status_error(code) matches Some(e) ==> e.spec_status_code() == Some(code),
{
}

/// The catch-all carries the code it was made from, unchanged.
pub proof fn lemma_unknown_retains_code(code: u32, kept: u32)
    requires
        status_error(code) == Some(NvmlError::Unknown(kept)),
    ensures
        kept == code,
{
}

/// Two different status codes never translate to the same result.
pub proof fn lemma_translation_is_one_to_one(a: u32, b: u32)
    requires
        status_error(a) == status_error(b),
    ensures
        a == b,
{
}

/// Every kind that stands for a status code is what that code translates to,
/// unless it is a catch-all built by hand around a code of the table.
pub proof fn lemma_code_of_kind_translates_back(kind: NvmlError)
    requires
        kind.spec_status_code() is Some,
        !(kind is Unknown),
    ensures
        status_error(kind.spec_status_code().unwrap()) == Some(kind),
{
}

} // verus!
