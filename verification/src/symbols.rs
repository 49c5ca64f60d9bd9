//! The entry points of the native library and the table of those that the
//! loaded library exports.
//!
//! The table is filled once, when the library handle is made: every known
//! entry point is looked up by name, and one that is missing is recorded as
//! absent. It only matters when the operation behind it is asked for.

use crate::error::NvmlError;
use vstd::prelude::*;

verus! {

/// How many entry points the binding knows.
pub const SYMBOL_COUNT: usize = 23;

/// The entry points of the native library that the binding calls.
#[derive(Clone, Copy, Debug, PartialEq, Eq, Structural, Hash)]
pub enum Symbol {
    DeviceGetHandleByIndex,
    DeviceGetName,
    DeviceGetPowerManagementLimitConstraints,
    DeviceGetDecoderUtilization,
    DeviceGetEncoderUtilization,
    DeviceGetEncoderStats,
    DeviceGetCudaComputeCapability,
    DeviceGetConfComputeGpuCertificate,
    DeviceGetConfComputeGpuAttestationReport,
    DeviceGetSupportedVgpus,
    DeviceGetCreatableVgpus,
    VgpuTypeGetClass,
    VgpuTypeGetLicense,
    VgpuTypeGetName,
    VgpuTypeGetCapabilities,
    VgpuTypeGetDeviceID,
    VgpuTypeGetFrameRateLimit,
    VgpuTypeGetFramebufferSize,
    VgpuTypeGetGpuInstanceProfileId,
    VgpuTypeGetMaxInstances,
    VgpuTypeGetMaxInstancesPerVm,
    VgpuTypeGetNumDisplayHeads,
    VgpuTypeGetResolution,
}

impl Symbol {
    /// The place of this entry point in the table.
    pub open spec fn spec_index(self) -> usize {
        match self {
            Symbol::DeviceGetHandleByIndex => 0,
            Symbol::DeviceGetName => 1,
            Symbol::DeviceGetPowerManagementLimitConstraints => 2,
            Symbol::DeviceGetDecoderUtilization => 3,
            Symbol::DeviceGetEncoderUtilization => 4,
            Symbol::DeviceGetEncoderStats => 5,
            Symbol::DeviceGetCudaComputeCapability => 6,
            Symbol::DeviceGetConfComputeGpuCertificate => 7,
            Symbol::DeviceGetConfComputeGpuAttestationReport => 8,
            Symbol::DeviceGetSupportedVgpus => 9,
            Symbol::DeviceGetCreatableVgpus => 10,
            Symbol::VgpuTypeGetClass => 11,
            Symbol::VgpuTypeGetLicense => 12,
            Symbol::VgpuTypeGetName => 13,
            Symbol::VgpuTypeGetCapabilities => 14,
            Symbol::VgpuTypeGetDeviceID => 15,
            Symbol::VgpuTypeGetFrameRateLimit => 16,
            Symbol::VgpuTypeGetFramebufferSize => 17,
            Symbol::VgpuTypeGetGpuInstanceProfileId => 18,
            Symbol::VgpuTypeGetMaxInstances => 19,
            Symbol::VgpuTypeGetMaxInstancesPerVm => 20,
            Symbol::VgpuTypeGetNumDisplayHeads => 21,
            Symbol::VgpuTypeGetResolution => 22,
        }
    }

    /// The place of this entry point in the table.
    #[verifier::when_used_as_spec(spec_index)]
    pub fn index(self) -> (index: usize)
        ensures
            index == self.spec_index(),
            index < SYMBOL_COUNT,
    {
        match self {
            Symbol::DeviceGetHandleByIndex => 0,
            Symbol::DeviceGetName => 1,
            Symbol::DeviceGetPowerManagementLimitConstraints => 2,
            Symbol::DeviceGetDecoderUtilization => 3,
            Symbol::DeviceGetEncoderUtilization => 4,
            Symbol::DeviceGetEncoderStats => 5,
            Symbol::DeviceGetCudaComputeCapability => 6,
            Symbol::DeviceGetConfComputeGpuCertificate => 7,
            Symbol::DeviceGetConfComputeGpuAttestationReport => 8,
            Symbol::DeviceGetSupportedVgpus => 9,
            Symbol::DeviceGetCreatableVgpus => 10,
            Symbol::VgpuTypeGetClass => 11,
            Symbol::VgpuTypeGetLicense => 12,
            Symbol::VgpuTypeGetName => 13,
            Symbol::VgpuTypeGetCapabilities => 14,
            Symbol::VgpuTypeGetDeviceID => 15,
            Symbol::VgpuTypeGetFrameRateLimit => 16,
            Symbol::VgpuTypeGetFramebufferSize => 17,
            Symbol::VgpuTypeGetGpuInstanceProfileId => 18,
            Symbol::VgpuTypeGetMaxInstances => 19,
            Symbol::VgpuTypeGetMaxInstancesPerVm => 20,
            Symbol::VgpuTypeGetNumDisplayHeads => 21,
            Symbol::VgpuTypeGetResolution => 22,
        }
    }

    /// The entry point that stands at `index` in the table, if `index` is
    /// inside the table.
    pub fn from_index(index: usize) -> (symbol: Option<Symbol>)
        ensures
            index < SYMBOL_COUNT <==> symbol is Some,
            symbol matches Some(s) ==> s.spec_index() == index,
    {
        match index {
            0 => Some(Symbol::DeviceGetHandleByIndex),
            1 => Some(Symbol::DeviceGetName),
            2 => Some(Symbol::DeviceGetPowerManagementLimitConstraints),
            3 => Some(Symbol::DeviceGetDecoderUtilization),
            4 => Some(Symbol::DeviceGetEncoderUtilization),
            5 => Some(Symbol::DeviceGetEncoderStats),
            6 => Some(Symbol::DeviceGetCudaComputeCapability),
            7 => Some(Symbol::DeviceGetConfComputeGpuCertificate),
            8 => Some(Symbol::DeviceGetConfComputeGpuAttestationReport),
            9 => Some(Symbol::DeviceGetSupportedVgpus),
            10 => Some(Symbol::DeviceGetCreatableVgpus),
            11 => Some(Symbol::VgpuTypeGetClass),
            12 => Some(Symbol::VgpuTypeGetLicense),
            13 => Some(Symbol::VgpuTypeGetName),
            14 => Some(Symbol::VgpuTypeGetCapabilities),
            15 => Some(Symbol::VgpuTypeGetDeviceID),
            16 => Some(Symbol::VgpuTypeGetFrameRateLimit),
            17 => Some(Symbol::VgpuTypeGetFramebufferSize),
            18 => Some(Symbol::VgpuTypeGetGpuInstanceProfileId),
            19 => Some(Symbol::VgpuTypeGetMaxInstances),
            20 => Some(Symbol::VgpuTypeGetMaxInstancesPerVm),
            21 => Some(Symbol::VgpuTypeGetNumDisplayHeads),
            22 => Some(Symbol::VgpuTypeGetResolution),
            _ => None,
        }
    }

    /// The name under which the native library exports this entry point.
    pub open spec fn spec_name(self) -> Seq<char> {
        match self {
            Symbol::DeviceGetHandleByIndex => "nvmlDeviceGetHandleByIndex_v2"@,
            Symbol::DeviceGetName => "nvmlDeviceGetName"@,
            Symbol::DeviceGetPowerManagementLimitConstraints =>
                "nvmlDeviceGetPowerManagementLimitConstraints"@,
            Symbol::DeviceGetDecoderUtilization => "nvmlDeviceGetDecoderUtilization"@,
            Symbol::DeviceGetEncoderUtilization => "nvmlDeviceGetEncoderUtilization"@,
            Symbol::DeviceGetEncoderStats => "nvmlDeviceGetEncoderStats"@,
            Symbol::DeviceGetCudaComputeCapability => "nvmlDeviceGetCudaComputeCapability"@,
            Symbol::DeviceGetConfComputeGpuCertificate =>
                "nvmlDeviceGetConfComputeGpuCertificate"@,
            Symbol::DeviceGetConfComputeGpuAttestationReport =>
                "nvmlDeviceGetConfComputeGpuAttestationReport"@,
            Symbol::DeviceGetSupportedVgpus => "nvmlDeviceGetSupportedVgpus"@,
            Symbol::DeviceGetCreatableVgpus => "nvmlDeviceGetCreatableVgpus"@,
            Symbol::VgpuTypeGetClass => "nvmlVgpuTypeGetClass"@,
            Symbol::VgpuTypeGetLicense => "nvmlVgpuTypeGetLicense"@,
            Symbol::VgpuTypeGetName => "nvmlVgpuTypeGetName"@,
            Symbol::VgpuTypeGetCapabilities => "nvmlVgpuTypeGetCapabilities"@,
            Symbol::VgpuTypeGetDeviceID => "nvmlVgpuTypeGetDeviceID"@,
            Symbol::VgpuTypeGetFrameRateLimit => "nvmlVgpuTypeGetFrameRateLimit"@,
            Symbol::VgpuTypeGetFramebufferSize => "nvmlVgpuTypeGetFramebufferSize"@,
            Symbol::VgpuTypeGetGpuInstanceProfileId => "nvmlVgpuTypeGetGpuInstanceProfileId"@,
            Symbol::VgpuTypeGetMaxInstances => "nvmlVgpuTypeGetMaxInstances"@,
            Symbol::VgpuTypeGetMaxInstancesPerVm => "nvmlVgpuTypeGetMaxInstancesPerVm"@,
            Symbol::VgpuTypeGetNumDisplayHeads => "nvmlVgpuTypeGetNumDisplayHeads"@,
            Symbol::VgpuTypeGetResolution => "nvmlVgpuTypeGetResolution"@,
        }
    }

    /// The name under which the native library exports this entry point.
    pub fn name(self) -> (name: &'static str)
        ensures
            name@ == self.spec_name(),
    {
        match self {
            Symbol::DeviceGetHandleByIndex => "nvmlDeviceGetHandleByIndex_v2",
            Symbol::DeviceGetName => "nvmlDeviceGetName",
            Symbol::DeviceGetPowerManagementLimitConstraints =>
                "nvmlDeviceGetPowerManagementLimitConstraints",
            Symbol::DeviceGetDecoderUtilization => "nvmlDeviceGetDecoderUtilization",
            Symbol::DeviceGetEncoderUtilization => "nvmlDeviceGetEncoderUtilization",
            Symbol::DeviceGetEncoderStats => "nvmlDeviceGetEncoderStats",
            Symbol::DeviceGetCudaComputeCapability => "nvmlDeviceGetCudaComputeCapability",
            Symbol::DeviceGetConfComputeGpuCertificate => "nvmlDeviceGetConfComputeGpuCertificate",
            Symbol::DeviceGetConfComputeGpuAttestationReport =>
                "nvmlDeviceGetConfComputeGpuAttestationReport",
            Symbol::DeviceGetSupportedVgpus => "nvmlDeviceGetSupportedVgpus",
            Symbol::DeviceGetCreatableVgpus => "nvmlDeviceGetCreatableVgpus",
            Symbol::VgpuTypeGetClass => "nvmlVgpuTypeGetClass",
            Symbol::VgpuTypeGetLicense => "nvmlVgpuTypeGetLicense",
            Symbol::VgpuTypeGetName => "nvmlVgpuTypeGetName",
            Symbol::VgpuTypeGetCapabilities => "nvmlVgpuTypeGetCapabilities",
            Symbol::VgpuTypeGetDeviceID => "nvmlVgpuTypeGetDeviceID",
            Symbol::VgpuTypeGetFrameRateLimit => "nvmlVgpuTypeGetFrameRateLimit",
            Symbol::VgpuTypeGetFramebufferSize => "nvmlVgpuTypeGetFramebufferSize",
            Symbol::VgpuTypeGetGpuInstanceProfileId => "nvmlVgpuTypeGetGpuInstanceProfileId",
            Symbol::VgpuTypeGetMaxInstances => "nvmlVgpuTypeGetMaxInstances",
            Symbol::VgpuTypeGetMaxInstancesPerVm => "nvmlVgpuTypeGetMaxInstancesPerVm",
            Symbol::VgpuTypeGetNumDisplayHeads => "nvmlVgpuTypeGetNumDisplayHeads",
            Symbol::VgpuTypeGetResolution => "nvmlVgpuTypeGetResolution",
        }
    }
}

/// Every entry point has a place of its own in the table.
pub proof fn lemma_index_is_one_to_one(a: Symbol, b: Symbol)
    requires
        a.spec_index() == b.spec_index(),
    ensures
        a == b,
{
}

/// The address at which the loaded library holds one of its functions.
#[derive(Clone, Copy, Debug, PartialEq, Eq, Structural, Hash)]
pub struct EntryPoint(pub usize);

/// For each known entry point, the address it was found at when the library
/// was loaded, or nothing where the library does not export it.
///
/// Seen as a map, the table holds exactly the entry points that were found.
#[derive(Debug)]
pub struct SymbolTable {
    entries: Vec<Option<EntryPoint>>,
}

impl View for SymbolTable {
    type V = Map<Symbol, EntryPoint>;

    open spec fn view(&self) -> Map<Symbol, EntryPoint> {
        Map::new(|s: Symbol| self.entry(s) is Some, |s: Symbol| self.entry(s).unwrap())
    }
}

impl SymbolTable {
    #[verifier::type_invariant]
    spec fn well_formed(&self) -> bool {
        self.entries@.len() == SYMBOL_COUNT
    }

    /// What the table recorded for `symbol`.
    pub closed spec fn entry(&self, symbol: Symbol) -> Option<EntryPoint> {
        self.entries@[symbol.spec_index() as int]
    }

    /// A table in which every entry point is absent.
    pub fn empty() -> (table: SymbolTable)
        ensures
            forall|s: Symbol| table.entry(s) is None,
            table@ == Map::<Symbol, EntryPoint>::empty(),
    {
        let mut entries: Vec<Option<EntryPoint>> = Vec::new();
        let mut i: usize = 0;
        while i < SYMBOL_COUNT
            invariant
                i <= SYMBOL_COUNT,
                entries@.len() == i,
                forall|k: int| 0 <= k < i ==> entries@[k] is None,
            decreases SYMBOL_COUNT - i,
        {
            entries.push(None);
            i = i + 1;
        }
        let table = SymbolTable { entries };
        assert(table@ =~= Map::<Symbol, EntryPoint>::empty());
        table
    }

    /// Looks every known entry point up once with `resolver` and records
    /// what it answered, found or not.
    pub fn load<R>(resolver: R) -> (table: SymbolTable) where R: Fn(Symbol) -> Option<EntryPoint>
        requires
            forall|s: Symbol| resolver.requires((s,)),
        ensures
            forall|s: Symbol| resolver.ensures((s,), #[trigger] table.entry(s)),
    {
        let mut entries: Vec<Option<EntryPoint>> = Vec::new();
        let mut i: usize = 0;
        while i < SYMBOL_COUNT
            invariant
                i <= SYMBOL_COUNT,
                entries@.len() == i,
                forall|s: Symbol| resolver.requires((s,)),
                forall|s: Symbol|
                    s.spec_index() < i ==> resolver.ensures(
                        (s,),
                        #[trigger] entries@[s.spec_index() as int],
                    ),
            decreases SYMBOL_COUNT - i,
        {
            let found = match Symbol::from_index(i) {
                Some(symbol) => resolver(symbol),
                None => None,
            };
            entries.push(found);
            i = i + 1;
        }
        SymbolTable { entries }
    }

    /// The same table with `symbol` recorded as found at `entry`.
    pub fn with(self, symbol: Symbol, entry: EntryPoint) -> (table: SymbolTable)
        ensures
            table.entry(symbol) == Some(entry),
            forall|s: Symbol| s != symbol ==> table.entry(s) == self.entry(s),
            table@ == self@.insert(symbol, entry),
    {
        proof {
            use_type_invariant(&self);
        }
        let mut entries = self.entries;
        entries.set(symbol.index(), Some(entry));
        let table = SymbolTable { entries };
        assert forall|s: Symbol| s != symbol implies table.entry(s) == self.entry(s) by {
            if s.spec_index() == symbol.spec_index() {
                lemma_index_is_one_to_one(s, symbol);
            }
        }
        assert(table@ =~= self@.insert(symbol, entry));
        table
    }

    /// The address of `symbol` in the loaded library, if it exports it.
    pub fn resolve(&self, symbol: Symbol) -> (entry: Option<EntryPoint>)
        ensures
            entry == self.entry(symbol),
            entry is Some <==> self@.contains_key(symbol),
            entry matches Some(e) ==> self@[symbol] == e,
    {
        proof {
            use_type_invariant(self);
        }
        self.entries[symbol.index()]
    }
}

/// The entry point an operation needs, or the error that says that the
/// loaded library does not have it.
pub fn nvml_sym(entry: Option<EntryPoint>) -> (result: Result<EntryPoint, NvmlError>)
    ensures
        result == match entry {
            Some(e) => Ok::<EntryPoint, NvmlError>(e),
            None => Err(NvmlError::FunctionNotFound),
        },
{
    match entry {
        Some(e) => Ok(e),
        None => Err(NvmlError::FunctionNotFound),
    }
}

} // verus!
