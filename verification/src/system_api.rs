//! The capability surface and its trampolines. `SystemApi` is the trait
//! the embedder implements; each declared capability gets a trampoline —
//! a raw-word shim that checks the word categories of the incoming
//! arguments, decodes them through the ABI mapper, invokes the native
//! implementation with the callee and caller execution contexts, and
//! encodes the result back. The capability table is closed at build time:
//! one trampoline per declared capability, type-linked to its signature.

use vstd::prelude::*;
use crate::abi::{AbiParam, AbiRet, AbiWord, AbiWordKind, word_kind};
use crate::guest::{GuestContext, MemoryError, get_memory, lookup_export};
use crate::host_module::{CapabilitySignature, DeclError, HostModuleBuilder, HostModuleDescriptor};

verus! {

/// The capabilities the host exposes to the guest. The embedder
/// implements this trait; its method bodies are the native
/// implementations behind the trampolines, free to have side effects.
pub trait SystemApi {
    /// Print `length` bytes of the caller's memory starting at `src`.
    /// The heap handed in is the caller's whole linear memory; `src` and
    /// `length` are guest-supplied and already validated against its
    /// bounds.
    fn debug_print(&self, heap: &[u8], src: u32, length: u32);
}

/// The generated trampolines, one per declared capability. A value of
/// this type is the "address" an exported host slot points at.
#[derive(Clone, Copy, PartialEq, Eq, Structural, Debug)]
pub enum Trampoline {
    DebugPrint,
}

impl Trampoline {
    /// The word category of each parameter of the shim, in order.
    pub open spec fn params_spec(self) -> Seq<AbiWordKind> {
        match self {
            Trampoline::DebugPrint => seq![AbiWordKind::K32, AbiWordKind::K32],
        }
    }

    /// The word category of the shim's result, `None` for no result.
    pub open spec fn result_spec(self) -> Option<AbiWordKind> {
        match self {
            Trampoline::DebugPrint => None,
        }
    }

    /// The word categories of all the parameters to the shim.
    pub fn params(&self) -> (v: Vec<AbiWordKind>)
        ensures
            v@ == self.params_spec(),
    {
        match self {
            Trampoline::DebugPrint => {
                let mut v: Vec<AbiWordKind> = Vec::new();
                v.push(<u32 as AbiParam>::codegen_ty());
                v.push(<u32 as AbiParam>::codegen_ty());
                proof {
                    assert(v@ =~= self.params_spec());
                }
                v
            },
        }
    }

    /// The word categories of all the results of the shim.
    pub fn results(&self) -> (v: Vec<AbiWordKind>)
        ensures
            match self.result_spec() {
                Some(k) => v@ =~= seq![k],
                None => v@ =~= Seq::<AbiWordKind>::empty(),
            },
    {
        match self {
            Trampoline::DebugPrint => <() as AbiRet>::codegen_tys(),
        }
    }

    /// The word category of the shim's result, `None` for no result.
    pub fn result(&self) -> (r: Option<AbiWordKind>)
        ensures
            r == self.result_spec(),
    {
        match self {
            Trampoline::DebugPrint => None,
        }
    }
}

/// A host-side instance: the synthetic module description and the
/// capability-state handle every trampoline invocation reaches through
/// the callee execution context.
pub struct HostInstance<S: SystemApi> {
    pub module: HostModuleDescriptor,
    pub system_api: S,
}

/// The declared signature of the `debug_print` capability, derived from
/// the native parameter and return types through the ABI mapper.
pub fn debug_print_signature() -> (sig: CapabilitySignature)
    ensures
        sig.params@ == Trampoline::DebugPrint.params_spec(),
        sig.ret == Trampoline::DebugPrint.result_spec(),
        sig.matches_trampoline(Trampoline::DebugPrint),
{
    CapabilitySignature { params: Trampoline::DebugPrint.params(), ret: None }
}

/// The registration entry point: takes the embedder's capability state
/// and returns a ready-to-link host instance whose one exported slot is
/// `debug_print`. Construction cannot fail for this closed capability
/// table: names are distinct and every signature agrees with its
/// trampoline.
pub fn create_instance<S: SystemApi>(system_api: S) -> (r: Result<HostInstance<S>, DeclError>)
    ensures
        match r {
            Ok(inst) => {
                &&& inst.module.exports@.len() == 1
                &&& inst.module.exports@[0].name@ == "debug_print"@
                &&& inst.module.exports@[0].sig.params@ == Trampoline::DebugPrint.params_spec()
                &&& inst.module.exports@[0].sig.ret == Trampoline::DebugPrint.result_spec()
                &&& inst.module.exports@[0].trampoline == Trampoline::DebugPrint
                &&& inst.system_api == system_api
            },
            Err(_) => false,
        },
{
    let mut builder = HostModuleBuilder::new();
    let added = builder.add_capability(
        "debug_print".to_owned(),
        debug_print_signature(),
        Trampoline::DebugPrint,
    );
    match added {
        Ok(()) => Ok(HostInstance { module: builder.build(), system_api }),
        Err(e) => {
            proof {
                assert(false);
            }
            Err(e)
        },
    }
}

/// The capability state behind a callee execution context: every
/// trampoline invocation reaches the embedder's implementation through
/// this accessor.
pub fn get_system_api<S: SystemApi>(vmctx: &HostInstance<S>) -> (r: &S)
    ensures
        r == &vmctx.system_api,
{
    &vmctx.system_api
}

/// The `debug_print` capability body: obtains the caller's linear
/// memory, validates the guest-supplied byte range against its current
/// length, and invokes the native implementation exactly once with the
/// caller's whole heap. The call fails, and the implementation is not
/// reached, when the memory export is missing or the range reaches past
/// the end of memory — the bytes are never read out of bounds.
pub fn debug_print<S: SystemApi>(
    vmctx: &HostInstance<S>,
    caller_vmctx: &GuestContext,
    src: u32,
    length: u32,
) -> (r: Result<(), MemoryError>)
    ensures
        match r {
            Ok(()) => caller_vmctx.memory_of() matches Some(m) && src + length <= m.len(),
            Err(MemoryError::MissingMemoryExport) => lookup_export(
                caller_vmctx.exports@,
                "memory"@,
            ) is None,
            Err(MemoryError::ExportNotMemory) => lookup_export(caller_vmctx.exports@, "memory"@)
                is Some && caller_vmctx.memory_of() is None,
            Err(MemoryError::OutOfBounds) => caller_vmctx.memory_of() matches Some(m) && src
                + length > m.len(),
        },
{
    let heap = match get_memory(caller_vmctx) {
        Ok(m) => m,
        Err(e) => {
            return Err(e);
        },
    };
    if (length as usize) > heap.len() || (src as usize) > heap.len() - (length as usize) {
        return Err(MemoryError::OutOfBounds);
    }
    get_system_api(vmctx).debug_print(heap.as_slice(), src, length);
    Ok(())
}

/// Whether a raw argument list matches a parameter signature: same
/// arity, and each word of the declared category.
pub open spec fn args_match(params: Seq<AbiWordKind>, args: Seq<AbiWord>) -> bool {
    &&& args.len() == params.len()
    &&& forall|i: int| 0 <= i < args.len() ==> word_kind(args[i]) == params[i]
}

/// Why a trampoline invocation failed.
#[derive(Clone, Copy, PartialEq, Eq, Structural, Debug)]
pub enum CallError {
    /// The raw arguments do not match the trampoline's signature in
    /// arity or word category.
    SignatureMismatch,
    /// The capability could not access the caller's memory.
    Memory(MemoryError),
}

/// Whether the raw arguments match the parameter categories.
pub fn check_signature(params: &Vec<AbiWordKind>, args: &Vec<AbiWord>) -> (r: bool)
    ensures
        r == args_match(params@, args@),
{
    if params.len() != args.len() {
        return false;
    }
    let n = args.len();
    let mut i: usize = 0;
    while i < n
        invariant
            0 <= i <= n,
            n == args@.len(),
            params@.len() == args@.len(),
            forall|j: int| 0 <= j < i ==> word_kind(args@[j]) == params@[j],
        decreases n - i,
    {
        if crate::abi::kind_of_word(&args[i]) != params[i] {
            return false;
        }
        i = i + 1;
    }
    true
}

/// Invokes a trampoline the way the guest's calling convention does:
/// raw words in, at most one raw word out. The shim checks the words
/// against the trampoline's signature, decodes them through the ABI
/// mapper, runs the capability body with the callee instance (whose
/// state it uses) and the caller context (whose memory it reads), and
/// encodes the result.
pub fn invoke_trampoline<S: SystemApi>(
    t: Trampoline,
    vmctx: &HostInstance<S>,
    caller_vmctx: &GuestContext,
    args: &Vec<AbiWord>,
) -> (r: Result<Option<AbiWord>, CallError>)
    ensures
        (r == Err::<Option<AbiWord>, CallError>(CallError::SignatureMismatch)) <==> !args_match(
            t.params_spec(),
            args@,
        ),
        match r {
            Ok(ret) => match t {
                Trampoline::DebugPrint => {
                    &&& ret is None
                    &&& caller_vmctx.memory_of() matches Some(m) && <u32 as AbiParam>::from_word_spec(
                        args@[0],
                    ) + <u32 as AbiParam>::from_word_spec(args@[1]) <= m.len()
                },
            },
            Err(CallError::Memory(e)) => match e {
                MemoryError::MissingMemoryExport => lookup_export(
                    caller_vmctx.exports@,
                    "memory"@,
                ) is None,
                MemoryError::ExportNotMemory => lookup_export(caller_vmctx.exports@, "memory"@)
                    is Some && caller_vmctx.memory_of() is None,
                MemoryError::OutOfBounds => caller_vmctx.memory_of() matches Some(m)
                    && <u32 as AbiParam>::from_word_spec(args@[0]) + <u32 as AbiParam>::from_word_spec(
                    args@[1],
                ) > m.len(),
            },
            Err(CallError::SignatureMismatch) => true,
        },
{
    let params = t.params();
    if !check_signature(&params, args) {
        return Err(CallError::SignatureMismatch);
    }
    match t {
        Trampoline::DebugPrint => {
            let src: u32 = <u32 as AbiParam>::convert(args[0]);
            let length: u32 = <u32 as AbiParam>::convert(args[1]);
            match debug_print(vmctx, caller_vmctx, src, length) {
                Ok(()) => Ok(<() as AbiRet>::convert(())),
                Err(e) => Err(CallError::Memory(e)),
            }
        },
    }
}

} // verus!
