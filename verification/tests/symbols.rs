use nvml_wrapper::error::NvmlError;
use nvml_wrapper::symbols::{nvml_sym, EntryPoint, Symbol, SymbolTable, SYMBOL_COUNT};
use nvml_wrapper::Nvml;
use std::cell::Cell;

fn all_symbols() -> Vec<Symbol> {
    (0..SYMBOL_COUNT)
        .map(|i| Symbol::from_index(i).unwrap())
        .collect()
}

#[test]
fn there_are_as_many_symbols_as_the_table_holds() {
    assert_eq!(SYMBOL_COUNT, 23);
    assert_eq!(all_symbols().len(), 23);
    assert_eq!(Symbol::from_index(SYMBOL_COUNT), None);
    assert_eq!(Symbol::from_index(usize::MAX), None);
}

#[test]
fn index_and_from_index_undo_each_other() {
    for i in 0..SYMBOL_COUNT {
        assert_eq!(Symbol::from_index(i).unwrap().index(), i);
    }
    assert_eq!(Symbol::DeviceGetHandleByIndex.index(), 0);
    assert_eq!(Symbol::DeviceGetSupportedVgpus.index(), 9);
    assert_eq!(Symbol::VgpuTypeGetClass.index(), 11);
    assert_eq!(Symbol::VgpuTypeGetResolution.index(), 22);
}

#[test]
fn names_are_those_of_the_native_library() {
    assert_eq!(Symbol::VgpuTypeGetClass.name(), "nvmlVgpuTypeGetClass");
    assert_eq!(Symbol::VgpuTypeGetLicense.name(), "nvmlVgpuTypeGetLicense");
    assert_eq!(Symbol::VgpuTypeGetName.name(), "nvmlVgpuTypeGetName");
    assert_eq!(
        Symbol::VgpuTypeGetCapabilities.name(),
        "nvmlVgpuTypeGetCapabilities"
    );
    assert_eq!(Symbol::VgpuTypeGetDeviceID.name(), "nvmlVgpuTypeGetDeviceID");
    assert_eq!(
        Symbol::VgpuTypeGetFrameRateLimit.name(),
        "nvmlVgpuTypeGetFrameRateLimit"
    );
    assert_eq!(
        Symbol::VgpuTypeGetFramebufferSize.name(),
        "nvmlVgpuTypeGetFramebufferSize"
    );
    assert_eq!(
        Symbol::VgpuTypeGetGpuInstanceProfileId.name(),
        "nvmlVgpuTypeGetGpuInstanceProfileId"
    );
    assert_eq!(
        Symbol::VgpuTypeGetMaxInstances.name(),
        "nvmlVgpuTypeGetMaxInstances"
    );
    assert_eq!(
        Symbol::VgpuTypeGetMaxInstancesPerVm.name(),
        "nvmlVgpuTypeGetMaxInstancesPerVm"
    );
    assert_eq!(
        Symbol::VgpuTypeGetNumDisplayHeads.name(),
        "nvmlVgpuTypeGetNumDisplayHeads"
    );
    assert_eq!(
        Symbol::VgpuTypeGetResolution.name(),
        "nvmlVgpuTypeGetResolution"
    );
    assert_eq!(
        Symbol::DeviceGetHandleByIndex.name(),
        "nvmlDeviceGetHandleByIndex_v2"
    );
    assert_eq!(Symbol::DeviceGetName.name(), "nvmlDeviceGetName");
    assert_eq!(
        Symbol::DeviceGetSupportedVgpus.name(),
        "nvmlDeviceGetSupportedVgpus"
    );
    assert_eq!(
        Symbol::DeviceGetCreatableVgpus.name(),
        "nvmlDeviceGetCreatableVgpus"
    );
    assert_eq!(
        Symbol::DeviceGetDecoderUtilization.name(),
        "nvmlDeviceGetDecoderUtilization"
    );
    assert_eq!(
        Symbol::DeviceGetEncoderUtilization.name(),
        "nvmlDeviceGetEncoderUtilization"
    );
    assert_eq!(
        Symbol::DeviceGetEncoderStats.name(),
        "nvmlDeviceGetEncoderStats"
    );
    assert_eq!(
        Symbol::DeviceGetCudaComputeCapability.name(),
        "nvmlDeviceGetCudaComputeCapability"
    );
    assert_eq!(
        Symbol::DeviceGetPowerManagementLimitConstraints.name(),
        "nvmlDeviceGetPowerManagementLimitConstraints"
    );
    assert_eq!(
        Symbol::DeviceGetConfComputeGpuCertificate.name(),
        "nvmlDeviceGetConfComputeGpuCertificate"
    );
    assert_eq!(
        Symbol::DeviceGetConfComputeGpuAttestationReport.name(),
        "nvmlDeviceGetConfComputeGpuAttestationReport"
    );
}

#[test]
fn names_are_one_per_entry_point() {
    let all = all_symbols();
    for (i, a) in all.iter().enumerate() {
        assert!(a.name().starts_with("nvml"));
        for b in all.iter().skip(i + 1) {
            assert_ne!(a.name(), b.name());
        }
    }
}

#[test]
fn empty_table_resolves_nothing() {
    let table = SymbolTable::empty();
    for s in all_symbols() {
        assert_eq!(table.resolve(s), None);
    }
}

#[test]
fn with_records_one_entry_and_leaves_the_rest() {
    let table = SymbolTable::empty().with(Symbol::VgpuTypeGetName, EntryPoint(0x1000));
    for s in all_symbols() {
        if s == Symbol::VgpuTypeGetName {
            assert_eq!(table.resolve(s), Some(EntryPoint(0x1000)));
        } else {
            assert_eq!(table.resolve(s), None);
        }
    }
    let table = table
        .with(Symbol::VgpuTypeGetClass, EntryPoint(0x2000))
        .with(Symbol::VgpuTypeGetName, EntryPoint(0x3000));
    assert_eq!(
        table.resolve(Symbol::VgpuTypeGetClass),
        Some(EntryPoint(0x2000))
    );
    assert_eq!(
        table.resolve(Symbol::VgpuTypeGetName),
        Some(EntryPoint(0x3000))
    );
}

#[test]
fn load_records_what_the_resolver_answers() {
    let table = SymbolTable::load(|s: Symbol| {
        if s == Symbol::VgpuTypeGetLicense {
            None
        } else {
            Some(EntryPoint(0x4000 + s.index()))
        }
    });
    for s in all_symbols() {
        if s == Symbol::VgpuTypeGetLicense {
            assert_eq!(table.resolve(s), None);
        } else {
            assert_eq!(table.resolve(s), Some(EntryPoint(0x4000 + s.index())));
        }
    }
}

#[test]
fn load_asks_once_for_each_entry_point() {
    let asked = Cell::new(0usize);
    let seen = std::cell::RefCell::new(Vec::new());
    let table = SymbolTable::load(|s: Symbol| {
        asked.set(asked.get() + 1);
        seen.borrow_mut().push(s);
        Some(EntryPoint(1))
    });
    assert_eq!(asked.get(), SYMBOL_COUNT);
    assert_eq!(*seen.borrow(), all_symbols());
    // Resolving later asks nobody: the answers were recorded.
    for s in all_symbols() {
        assert_eq!(table.resolve(s), Some(EntryPoint(1)));
        assert_eq!(table.resolve(s), Some(EntryPoint(1)));
    }
    assert_eq!(asked.get(), SYMBOL_COUNT);
}

#[test]
fn missing_symbols_do_not_fail_the_load() {
    let nvml = Nvml::init(|_s: Symbol| None);
    for s in all_symbols() {
        assert_eq!(nvml.symbols().resolve(s), None);
    }
}

#[test]
fn library_handle_keeps_its_table() {
    let nvml = Nvml::new(SymbolTable::empty().with(Symbol::DeviceGetName, EntryPoint(7)));
    assert_eq!(
        nvml.symbols().resolve(Symbol::DeviceGetName),
        Some(EntryPoint(7))
    );
    assert_eq!(nvml.symbols().resolve(Symbol::VgpuTypeGetName), None);
}

#[test]
fn nvml_sym_turns_absence_into_function_not_found() {
    assert_eq!(nvml_sym(None), Err(NvmlError::FunctionNotFound));
    assert_eq!(nvml_sym(Some(EntryPoint(5))), Ok(EntryPoint(5)));
    assert_eq!(nvml_sym(Some(EntryPoint(0))), Ok(EntryPoint(0)));
}
