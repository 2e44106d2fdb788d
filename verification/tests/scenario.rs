use std::cell::RefCell;

use hostbridge::abi::{AbiWord, AbiWordKind};
use hostbridge::guest::{get_memory, GuestContext, GuestExport, MemoryError};
use hostbridge::linker::{resolve_imports, GuestImportRequest};
use hostbridge::system_api::{create_instance, invoke_trampoline, CallError, SystemApi, Trampoline};
use hostbridge::wasi_caller_memory::{read_guest_bytes, WasiCallerMemory};

/// A capability state that records every invocation: the raw (src,
/// length) pair and the bytes it observed through the caller's memory.
struct RecordingApi {
    calls: RefCell<Vec<(u32, u32, Vec<u8>)>>,
}

impl RecordingApi {
    fn new() -> RecordingApi {
        RecordingApi { calls: RefCell::new(Vec::new()) }
    }
}

impl SystemApi for RecordingApi {
    fn debug_print(&self, heap: &[u8], src: u32, length: u32) {
        let bytes = read_guest_bytes(heap, src, length).expect("the bridge validated the range");
        self.calls.borrow_mut().push((src, length, bytes));
    }
}

fn guest_with_memory(bytes: Vec<u8>) -> GuestContext {
    GuestContext { exports: vec![("memory".to_string(), GuestExport::Memory(bytes))] }
}

#[test]
fn create_instance_exports_debug_print() {
    let inst = create_instance(RecordingApi::new()).expect("the closed table always builds");
    assert_eq!(inst.module.exports.len(), 1);
    assert_eq!(inst.module.exports[0].name, "debug_print");
    assert_eq!(
        inst.module.exports[0].sig.params,
        vec![AbiWordKind::K32, AbiWordKind::K32]
    );
    assert_eq!(inst.module.exports[0].sig.ret, None);
    assert_eq!(inst.module.exports[0].trampoline, Trampoline::DebugPrint);
}

#[test]
fn debug_print_scenario_observes_exact_bytes() {
    let inst = create_instance(RecordingApi::new()).expect("the closed table always builds");
    let guest = guest_with_memory(vec![0x68, 0x69]);
    let requests = vec![GuestImportRequest {
        namespace: "env".to_string(),
        name: "debug_print".to_string(),
    }];
    let table = resolve_imports(&requests, &"env".to_string(), &inst.module).expect("the import resolves");
    assert_eq!(table, vec![Trampoline::DebugPrint]);
    let ret = invoke_trampoline(
        table[0],
        &inst,
        &guest,
        &vec![AbiWord::W32(0), AbiWord::W32(2)],
    );
    assert_eq!(ret, Ok(None));
    let calls = inst.system_api.calls.borrow();
    assert_eq!(calls.len(), 1);
    assert_eq!(*calls, vec![(0u32, 2u32, vec![0x68u8, 0x69u8])]);
}

#[test]
fn each_guest_call_invokes_the_native_body_once_in_order() {
    let inst = create_instance(RecordingApi::new()).expect("the closed table always builds");
    let guest = guest_with_memory(vec![10, 20, 30, 40]);
    let first = invoke_trampoline(
        Trampoline::DebugPrint,
        &inst,
        &guest,
        &vec![AbiWord::W32(0), AbiWord::W32(2)],
    );
    assert_eq!(first, Ok(None));
    let second = invoke_trampoline(
        Trampoline::DebugPrint,
        &inst,
        &guest,
        &vec![AbiWord::W32(1), AbiWord::W32(3)],
    );
    assert_eq!(second, Ok(None));
    let calls = inst.system_api.calls.borrow();
    assert_eq!(
        *calls,
        vec![(0u32, 2u32, vec![10u8, 20u8]), (1u32, 3u32, vec![20u8, 30u8, 40u8])]
    );
}

#[test]
fn out_of_bounds_range_fails_without_reaching_the_native_body() {
    let inst = create_instance(RecordingApi::new()).expect("the closed table always builds");
    let guest = guest_with_memory(vec![0x68, 0x69]);
    let ret = invoke_trampoline(
        Trampoline::DebugPrint,
        &inst,
        &guest,
        &vec![AbiWord::W32(1), AbiWord::W32(2)],
    );
    assert_eq!(ret, Err(CallError::Memory(MemoryError::OutOfBounds)));
    assert!(inst.system_api.calls.borrow().is_empty());
}

#[test]
fn missing_memory_export_fails_the_call() {
    let inst = create_instance(RecordingApi::new()).expect("the closed table always builds");
    let no_memory = GuestContext { exports: vec![("run".to_string(), GuestExport::Function(0))] };
    let ret = invoke_trampoline(
        Trampoline::DebugPrint,
        &inst,
        &no_memory,
        &vec![AbiWord::W32(0), AbiWord::W32(0)],
    );
    assert_eq!(ret, Err(CallError::Memory(MemoryError::MissingMemoryExport)));
    let miskinded =
        GuestContext { exports: vec![("memory".to_string(), GuestExport::Function(0))] };
    let ret = invoke_trampoline(
        Trampoline::DebugPrint,
        &inst,
        &miskinded,
        &vec![AbiWord::W32(0), AbiWord::W32(0)],
    );
    assert_eq!(ret, Err(CallError::Memory(MemoryError::ExportNotMemory)));
}

#[test]
fn mismatched_raw_words_are_refused() {
    let inst = create_instance(RecordingApi::new()).expect("the closed table always builds");
    let guest = guest_with_memory(vec![0x68, 0x69]);
    let wrong_kind = invoke_trampoline(
        Trampoline::DebugPrint,
        &inst,
        &guest,
        &vec![AbiWord::W64(0), AbiWord::W32(2)],
    );
    assert_eq!(wrong_kind, Err(CallError::SignatureMismatch));
    let wrong_arity = invoke_trampoline(
        Trampoline::DebugPrint,
        &inst,
        &guest,
        &vec![AbiWord::W32(0)],
    );
    assert_eq!(wrong_arity, Err(CallError::SignatureMismatch));
    assert!(inst.system_api.calls.borrow().is_empty());
}

#[test]
fn read_guest_bytes_returns_what_the_guest_wrote() {
    let heap: Vec<u8> = vec![1, 2, 3, 4, 5];
    assert_eq!(read_guest_bytes(&heap, 1, 3), Ok(vec![2, 3, 4]));
    assert_eq!(read_guest_bytes(&heap, 0, 5), Ok(vec![1, 2, 3, 4, 5]));
    assert_eq!(read_guest_bytes(&heap, 5, 0), Ok(vec![]));
    assert_eq!(read_guest_bytes(&heap, 3, 3), Err(MemoryError::OutOfBounds));
    assert_eq!(read_guest_bytes(&heap, 6, 0), Err(MemoryError::OutOfBounds));
    assert_eq!(
        read_guest_bytes(&heap, u32::MAX, u32::MAX),
        Err(MemoryError::OutOfBounds)
    );
}

#[test]
fn get_memory_finds_the_reserved_export() {
    let guest = guest_with_memory(vec![7, 8, 9]);
    assert_eq!(get_memory(&guest), Ok(&vec![7u8, 8u8, 9u8]));
    let none = GuestContext { exports: vec![] };
    assert_eq!(get_memory(&none), Err(MemoryError::MissingMemoryExport));
}

#[test]
fn caller_memory_view_is_reacquired_per_call() {
    let guest = guest_with_memory(vec![0x68, 0x69]);
    let view = WasiCallerMemory::from_context(&guest);
    let heap = view.get().expect("the guest exports a memory");
    assert_eq!(heap, &vec![0x68u8, 0x69u8]);
    let bare = GuestContext { exports: vec![] };
    let empty_view = WasiCallerMemory::from_context(&bare);
    assert!(empty_view.get().is_none());
}
