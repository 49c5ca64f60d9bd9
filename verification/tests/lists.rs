use nvml_wrapper::boundary::{
    list_call, list_from_reply, ListRequest, Listed, NativeCall, NativeReply,
};
use nvml_wrapper::error::NvmlError;
use nvml_wrapper::symbols::{EntryPoint, Symbol};
use nvml_wrapper::{Device, DeviceHandle, Nvml};
use std::cell::Cell;

fn loaded() -> Nvml {
    Nvml::init(|s: Symbol| Some(EntryPoint(0x7000 + s.index())))
}

fn loaded_without(missing: Symbol) -> Nvml {
    Nvml::init(|s: Symbol| {
        if s == missing {
            None
        } else {
            Some(EntryPoint(0x7000 + s.index()))
        }
    })
}

/// A native layer that knows the vGPU types 11, 12 and 13.
fn three_types(call: NativeCall<ListRequest<DeviceHandle>>) -> NativeReply<Listed> {
    let mut items = call.args.items;
    if call.args.capacity < 3 {
        return NativeReply { status: 7, output: Listed { count: 3, items } };
    }
    items[..3].copy_from_slice(&[11, 12, 13]);
    NativeReply { status: 0, output: Listed { count: 3, items } }
}

#[test]
fn list_from_reply_keeps_the_counted_items() {
    let reply = NativeReply { status: 0, output: Listed { count: 2, items: vec![5, 6, 7, 8] } };
    assert_eq!(list_from_reply(reply, 4), Ok(vec![5, 6]));
    let reply = NativeReply { status: 0, output: Listed { count: 0, items: vec![5, 6, 7, 8] } };
    assert_eq!(list_from_reply(reply, 4), Ok(vec![]));
    let reply = NativeReply { status: 0, output: Listed { count: 4, items: vec![5, 6, 7, 8] } };
    assert_eq!(list_from_reply(reply, 4), Ok(vec![5, 6, 7, 8]));
    let reply = NativeReply { status: 0, output: Listed { count: 0, items: vec![] } };
    assert_eq!(list_from_reply(reply, 0), Ok(vec![]));
}

#[test]
fn list_from_reply_does_not_trust_a_count_beyond_the_list() {
    // More than the list was made for.
    let reply = NativeReply { status: 0, output: Listed { count: 5, items: vec![5, 6, 7, 8, 9] } };
    assert_eq!(list_from_reply(reply, 4), Err(NvmlError::InsufficientSize));
    // More than came back.
    let reply = NativeReply { status: 0, output: Listed { count: 3, items: vec![5, 6] } };
    assert_eq!(list_from_reply(reply, 4), Err(NvmlError::InsufficientSize));
    let reply = NativeReply { status: 0, output: Listed { count: u32::MAX, items: vec![] } };
    assert_eq!(list_from_reply(reply, u32::MAX), Err(NvmlError::InsufficientSize));
}

#[test]
fn list_from_reply_translates_before_it_counts() {
    let reply = NativeReply { status: 7, output: Listed { count: 9, items: vec![0; 4] } };
    assert_eq!(list_from_reply(reply, 4), Err(NvmlError::InsufficientSize));
    let reply = NativeReply { status: 3, output: Listed { count: 2, items: vec![1, 2] } };
    assert_eq!(list_from_reply(reply, 4), Err(NvmlError::NotSupported));
    let reply = NativeReply { status: 2, output: Listed { count: 99, items: vec![] } };
    assert_eq!(list_from_reply(reply, 4), Err(NvmlError::InvalidArgument));
}

#[test]
fn list_call_hands_over_a_zeroed_list_of_the_capacity() {
    let calls = Cell::new(0u32);
    let result = list_call(
        Some(EntryPoint(0x99)),
        DeviceHandle(4),
        8,
        |call: NativeCall<ListRequest<DeviceHandle>>| {
            calls.set(calls.get() + 1);
            assert_eq!(call.entry, EntryPoint(0x99));
            assert_eq!(call.args.target, DeviceHandle(4));
            assert_eq!(call.args.capacity, 8);
            assert_eq!(call.args.items, vec![0u32; 8]);
            three_types(call)
        },
    );
    assert_eq!(result, Ok(vec![11, 12, 13]));
    assert_eq!(calls.get(), 1);
}

#[test]
fn list_call_without_the_symbol_calls_nothing() {
    let calls = Cell::new(0u32);
    let result = list_call(
        None,
        DeviceHandle(4),
        8,
        |call: NativeCall<ListRequest<DeviceHandle>>| {
            calls.set(calls.get() + 1);
            three_types(call)
        },
    );
    assert_eq!(result, Err(NvmlError::FunctionNotFound));
    assert_eq!(calls.get(), 0);
}

#[test]
fn list_call_does_not_ask_again_with_a_larger_list() {
    let calls = Cell::new(0u32);
    let result = list_call(
        Some(EntryPoint(1)),
        DeviceHandle(4),
        2,
        |call: NativeCall<ListRequest<DeviceHandle>>| {
            calls.set(calls.get() + 1);
            three_types(call)
        },
    );
    assert_eq!(result, Err(NvmlError::InsufficientSize));
    assert_eq!(calls.get(), 1);
    // The caller decides, and may ask again with more room.
    let result = list_call(
        Some(EntryPoint(1)),
        DeviceHandle(4),
        3,
        |call: NativeCall<ListRequest<DeviceHandle>>| {
            calls.set(calls.get() + 1);
            three_types(call)
        },
    );
    assert_eq!(result, Ok(vec![11, 12, 13]));
    assert_eq!(calls.get(), 2);
}

#[test]
fn supported_types_are_handles_of_this_device_in_order() {
    let nvml = loaded();
    let device = Device::new(DeviceHandle(0x44), &nvml);
    let types = device
        .vgpu_supported_types(16, |call: NativeCall<ListRequest<DeviceHandle>>| {
            assert_eq!(
                call.entry,
                EntryPoint(0x7000 + Symbol::DeviceGetSupportedVgpus.index())
            );
            assert_eq!(call.args.target, DeviceHandle(0x44));
            three_types(call)
        })
        .unwrap();
    assert_eq!(types.len(), 3);
    for (vgpu, id) in types.iter().zip([11u32, 12, 13]) {
        assert_eq!(vgpu.device().handle(), DeviceHandle(0x44));
        let seen = Cell::new(0u32);
        let heads = vgpu.num_display_heads(|call: NativeCall<u32>| {
            seen.set(call.args);
            NativeReply { status: 0, output: 4 }
        });
        assert_eq!(heads, Ok(4));
        assert_eq!(seen.get(), id);
    }
}

#[test]
fn creatable_types_go_through_their_own_entry_point() {
    let nvml = loaded();
    let device = Device::new(DeviceHandle(0x44), &nvml);
    let types = device
        .vgpu_creatable_types(3, |call: NativeCall<ListRequest<DeviceHandle>>| {
            assert_eq!(
                call.entry,
                EntryPoint(0x7000 + Symbol::DeviceGetCreatableVgpus.index())
            );
            assert_eq!(call.args.items, vec![0u32; 3]);
            three_types(call)
        })
        .unwrap();
    assert_eq!(types.len(), 3);
    let none = device
        .vgpu_creatable_types(3, |call: NativeCall<ListRequest<DeviceHandle>>| NativeReply {
            status: 0,
            output: Listed { count: 0, items: call.args.items },
        })
        .unwrap();
    assert!(none.is_empty());
}

#[test]
fn listing_types_fails_as_a_list_call_does() {
    let nvml = loaded();
    let device = Device::new(DeviceHandle(0x44), &nvml);
    let small = device.vgpu_supported_types(2, three_types);
    assert_eq!(small.unwrap_err(), NvmlError::InsufficientSize);
    let refused = device.vgpu_supported_types(
        8,
        |call: NativeCall<ListRequest<DeviceHandle>>| NativeReply {
            status: 3,
            output: Listed { count: 1, items: call.args.items },
        },
    );
    assert_eq!(refused.unwrap_err(), NvmlError::NotSupported);
    let overcounted = device.vgpu_creatable_types(
        8,
        |call: NativeCall<ListRequest<DeviceHandle>>| NativeReply {
            status: 0,
            output: Listed { count: 9, items: call.args.items },
        },
    );
    assert_eq!(overcounted.unwrap_err(), NvmlError::InsufficientSize);
}

#[test]
fn listing_types_without_the_symbol_calls_nothing() {
    let calls = Cell::new(0u32);
    let nvml = loaded_without(Symbol::DeviceGetSupportedVgpus);
    let device = Device::new(DeviceHandle(0x44), &nvml);
    let result = device.vgpu_supported_types(8, |call: NativeCall<ListRequest<DeviceHandle>>| {
        calls.set(calls.get() + 1);
        three_types(call)
    });
    assert_eq!(result.unwrap_err(), NvmlError::FunctionNotFound);
    assert!(device.vgpu_creatable_types(8, three_types).is_ok());
    let nvml = loaded_without(Symbol::DeviceGetCreatableVgpus);
    let device = Device::new(DeviceHandle(0x44), &nvml);
    let result = device.vgpu_creatable_types(8, |call: NativeCall<ListRequest<DeviceHandle>>| {
        calls.set(calls.get() + 1);
        three_types(call)
    });
    assert_eq!(result.unwrap_err(), NvmlError::FunctionNotFound);
    assert_eq!(calls.get(), 0);
}

#[test]
fn vgpu_types_maps_each_id_and_passes_an_error_on() {
    let nvml = loaded();
    let device = Device::new(DeviceHandle(0x44), &nvml);
    let types = device.vgpu_types(Ok(vec![7, 7, 0, u32::MAX])).unwrap();
    assert_eq!(types.len(), 4);
    assert!(device.vgpu_types(Ok(vec![])).unwrap().is_empty());
    assert_eq!(
        device.vgpu_types(Err(NvmlError::GpuIsLost)).unwrap_err(),
        NvmlError::GpuIsLost
    );
}
