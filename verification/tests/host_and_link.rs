use hostbridge::abi::AbiWordKind;
use hostbridge::host_module::{CapabilitySignature, DeclError, HostModuleBuilder};
use hostbridge::linker::{
    resolve_imports, resolve_imports_among, GuestImportRequest, LinkError, RegisteredModule,
};
use hostbridge::system_api::Trampoline;

fn debug_print_sig() -> CapabilitySignature {
    CapabilitySignature { params: vec![AbiWordKind::K32, AbiWordKind::K32], ret: None }
}

fn req(namespace: &str, name: &str) -> GuestImportRequest {
    GuestImportRequest { namespace: namespace.to_string(), name: name.to_string() }
}

#[test]
fn duplicate_capability_name_fails() {
    let mut b = HostModuleBuilder::new();
    assert!(b
        .add_capability("debug_print".to_string(), debug_print_sig(), Trampoline::DebugPrint)
        .is_ok());
    match b.add_capability("debug_print".to_string(), debug_print_sig(), Trampoline::DebugPrint)
    {
        Err(DeclError::DuplicateName(n)) => assert_eq!(n, "debug_print"),
        _ => panic!("a duplicate capability name must be refused, listing the name"),
    }
    assert_eq!(b.build().exports.len(), 1);
}

#[test]
fn mismatched_signature_fails() {
    let mut b = HostModuleBuilder::new();
    let short_sig = CapabilitySignature { params: vec![AbiWordKind::K32], ret: None };
    match b.add_capability("debug_print".to_string(), short_sig, Trampoline::DebugPrint) {
        Err(DeclError::SignatureMismatch(n)) => assert_eq!(n, "debug_print"),
        _ => panic!("an arity mismatch with the trampoline must be refused"),
    }
    let wide_sig = CapabilitySignature {
        params: vec![AbiWordKind::K32, AbiWordKind::K64],
        ret: None,
    };
    assert!(matches!(
        b.add_capability("debug_print".to_string(), wide_sig, Trampoline::DebugPrint),
        Err(DeclError::SignatureMismatch(_))
    ));
    let ret_sig = CapabilitySignature {
        params: vec![AbiWordKind::K32, AbiWordKind::K32],
        ret: Some(AbiWordKind::K32),
    };
    assert!(matches!(
        b.add_capability("debug_print".to_string(), ret_sig, Trampoline::DebugPrint),
        Err(DeclError::SignatureMismatch(_))
    ));
}

#[test]
fn unresolved_import_reports_exactly_the_missing_pair() {
    let mut b = HostModuleBuilder::new();
    b.add_capability("debug_print".to_string(), debug_print_sig(), Trampoline::DebugPrint)
        .unwrap();
    let host = b.build();
    let requests = vec![req("env", "debug_print"), req("env", "missing_call")];
    match resolve_imports(&requests, &"env".to_string(), &host) {
        Err(LinkError::UnresolvedImport { namespace, name }) => {
            assert_eq!(namespace, "env");
            assert_eq!(name, "missing_call");
        },
        _ => panic!("an import with no matching export must fail the linkage"),
    }
}

#[test]
fn resolvable_imports_do_not_spuriously_fail() {
    let mut b = HostModuleBuilder::new();
    b.add_capability("debug_print".to_string(), debug_print_sig(), Trampoline::DebugPrint)
        .unwrap();
    let host = b.build();
    let requests = vec![req("env", "debug_print")];
    let table = resolve_imports(&requests, &"env".to_string(), &host).expect("every import resolves");
    assert_eq!(table, vec![Trampoline::DebugPrint]);
}

#[test]
fn resolution_keeps_import_order() {
    let mut b = HostModuleBuilder::new();
    b.add_capability("ping".to_string(), debug_print_sig(), Trampoline::DebugPrint).unwrap();
    b.add_capability("pong".to_string(), debug_print_sig(), Trampoline::DebugPrint).unwrap();
    let host = b.build();
    let requests = vec![req("env", "pong"), req("env", "ping")];
    let table = resolve_imports(&requests, &"env".to_string(), &host).expect("every import resolves");
    assert_eq!(table.len(), 2);
}

#[test]
fn matching_is_exact_and_case_sensitive() {
    let mut b = HostModuleBuilder::new();
    b.add_capability("debug_print".to_string(), debug_print_sig(), Trampoline::DebugPrint)
        .unwrap();
    let host = b.build();
    assert!(resolve_imports(&vec![req("env", "Debug_print")], &"env".to_string(), &host).is_err());
    assert!(resolve_imports(&vec![req("env", "debug_prin")], &"env".to_string(), &host).is_err());
    assert!(resolve_imports(&vec![req("Env", "debug_print")], &"env".to_string(), &host).is_err());
    assert!(resolve_imports(&vec![], &"env".to_string(), &host).is_ok());
}

#[test]
fn several_candidate_sets_resolve_in_candidate_order() {
    let mut first = HostModuleBuilder::new();
    first.add_capability("debug_print".to_string(), debug_print_sig(), Trampoline::DebugPrint)
        .unwrap();
    let mut second = HostModuleBuilder::new();
    second.add_capability("trace".to_string(), debug_print_sig(), Trampoline::DebugPrint).unwrap();
    second.add_capability("debug_print".to_string(), debug_print_sig(), Trampoline::DebugPrint)
        .unwrap();
    let candidates = vec![
        RegisteredModule { namespace: "env".to_string(), module: first.build() },
        RegisteredModule { namespace: "sys".to_string(), module: second.build() },
    ];
    let requests = vec![req("env", "debug_print"), req("sys", "trace"), req("sys", "debug_print")];
    let table = resolve_imports_among(&requests, &candidates).expect("every import resolves");
    assert_eq!(table.len(), 3);
    match resolve_imports_among(&vec![req("env", "trace")], &candidates) {
        Err(LinkError::UnresolvedImport { namespace, name }) => {
            assert_eq!(namespace, "env");
            assert_eq!(name, "trace");
        },
        _ => panic!("a key no candidate set carries must fail the linkage"),
    }
}

#[test]
fn trampoline_signature_matches_its_declaration() {
    let t = Trampoline::DebugPrint;
    assert_eq!(t.params(), vec![AbiWordKind::K32, AbiWordKind::K32]);
    assert!(t.results().is_empty());
    assert_eq!(t.result(), None);
}
