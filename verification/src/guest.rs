//! A model of the guest-side execution context as the bridge sees it: a
//! set of named exports, among them at most one linear memory under the
//! reserved name `memory`. The engine that fills a context in (by
//! compiling and instantiating a guest module) is an external
//! collaborator; the bridge only reads the context.

use vstd::prelude::*;

verus! {

/// One export of a guest instance, as visible to the host.
pub enum GuestExport {
    /// The guest's linear memory: a contiguous, resizable byte region.
    Memory(Vec<u8>),
    /// An exported guest function, by its index in the guest module.
    Function(u32),
    /// An exported global's current value, sign-extended to 64 bits.
    Global(i64),
    /// An exported table, by its current element count.
    Table(u32),
}

/// An execution context: the exports of one guest instance, each under a
/// name. Lookup is by exact, case-sensitive name; when a guest declares
/// the same name twice the first entry wins.
pub struct GuestContext {
    pub exports: Vec<(String, GuestExport)>,
}

/// The first export under `name`, or `None`.
pub open spec fn lookup_export(exports: Seq<(String, GuestExport)>, name: Seq<char>) -> Option<
    GuestExport,
>
    decreases exports.len(),
{
    if exports.len() == 0 {
        None
    } else if exports[0].0@ == name {
        Some(exports[0].1)
    } else {
        lookup_export(exports.drop_first(), name)
    }
}

/// Why a context's linear memory could not be obtained.
#[derive(Clone, Copy, PartialEq, Eq, Structural, Debug)]
pub enum MemoryError {
    /// The context has no export under the reserved name `memory`.
    MissingMemoryExport,
    /// The export under the reserved name exists but is not a memory.
    ExportNotMemory,
    /// A guest-supplied offset and length reach past the end of memory.
    OutOfBounds,
}

impl GuestContext {
    /// The bytes of this context's linear memory, when it exports one
    /// under the reserved name.
    pub open spec fn memory_of(self) -> Option<Seq<u8>> {
        match lookup_export(self.exports@, "memory"@) {
            Some(GuestExport::Memory(m)) => Some(m@),
            _ => None,
        }
    }
}

/// Looks up the context's linear memory under the reserved export name
/// `memory`. A missing or mis-kinded export is a contract violation by
/// the embedder and is reported, never tolerated silently.
pub fn get_memory<'a>(vmctx: &'a GuestContext) -> (r: Result<&'a Vec<u8>, MemoryError>)
    ensures
        match r {
            Ok(m) => vmctx.memory_of() == Some(m@),
            Err(MemoryError::MissingMemoryExport) => lookup_export(vmctx.exports@, "memory"@)
                is None,
            Err(MemoryError::ExportNotMemory) => lookup_export(vmctx.exports@, "memory"@) is Some
                && vmctx.memory_of() is None,
            Err(MemoryError::OutOfBounds) => false,
        },
{
    let key: String = "memory".to_owned();
    let n = vmctx.exports.len();
    let mut i: usize = 0;
    proof {
        assert(vmctx.exports@.skip(0) =~= vmctx.exports@);
    }
    while i < n
        invariant
            0 <= i <= n,
            n == vmctx.exports@.len(),
            key@ == "memory"@,
            lookup_export(vmctx.exports@, "memory"@) == lookup_export(
                vmctx.exports@.skip(i as int),
                "memory"@,
            ),
            forall|j: int| 0 <= j < i ==> vmctx.exports@[j].0@ != "memory"@,
        decreases n - i,
    {
        proof {
            assert(vmctx.exports@.skip(i as int)[0] == vmctx.exports@[i as int]);
        }
        if vmctx.exports[i].0 == key {
            match &vmctx.exports[i].1 {
                GuestExport::Memory(m) => {
                    return Ok(m);
                },
                _ => {
                    return Err(MemoryError::ExportNotMemory);
                },
            }
        }
        proof {
            assert(vmctx.exports@.skip(i as int).drop_first() =~= vmctx.exports@.skip(
                i as int + 1,
            ));
        }
        i = i + 1;
    }
    proof {
        assert(vmctx.exports@.skip(n as int) =~= Seq::<(String, GuestExport)>::empty());
    }
    Err(MemoryError::MissingMemoryExport)
}

} // verus!
