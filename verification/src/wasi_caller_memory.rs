//! A handle on the caller's linear memory, acquired at the start of a
//! capability call and valid only for its duration: the guest may grow
//! or move its memory between calls, so no view is ever cached. Reads of
//! guest-supplied (offset, length) ranges are bounds-checked here; a
//! range past the end of memory fails rather than reading out of bounds.

use vstd::prelude::*;
use vstd::slice::{slice_subrange, slice_to_vec};
use crate::guest::{GuestContext, GuestExport, MemoryError, lookup_export};

verus! {

/// A non-owning view of the caller's linear memory, or of no memory at
/// all when the caller exports none under the reserved name. Obtained
/// fresh for each capability call and dropped with it.
pub struct WasiCallerMemory<'a> {
    pub mem: Option<&'a Vec<u8>>,
}

impl<'a> WasiCallerMemory<'a> {
    /// The bytes this view covers, when the caller had a memory.
    pub open spec fn mem_spec(self) -> Option<Seq<u8>> {
        match self.mem {
            Some(m) => Some(m@),
            None => None,
        }
    }

    /// Acquires a view of the caller context's linear memory. A caller
    /// without a well-kinded `memory` export yields the empty handle,
    /// never an error: whether that is tolerable is the capability's
    /// decision, made when it calls `get`.
    pub fn from_context(vmctx: &'a GuestContext) -> (r: WasiCallerMemory<'a>)
        ensures
            r.mem_spec() == vmctx.memory_of(),
    {
        match crate::guest::get_memory(vmctx) {
            Ok(m) => WasiCallerMemory { mem: Some(m) },
            Err(_) => WasiCallerMemory { mem: None },
        }
    }

    /// The caller's memory bytes, or `None` for a caller that exported
    /// no memory.
    pub fn get(&self) -> (r: Option<&'a Vec<u8>>)
        ensures
            match r {
                Some(m) => self.mem_spec() == Some(m@),
                None => self.mem_spec() is None,
            },
    {
        self.mem
    }
}

/// Reads the guest-supplied byte range `[src, src + length)` out of the
/// caller's heap, after validating it against the heap's current length:
/// exactly the bytes the guest wrote there are returned, and a range
/// that reaches past the end of memory fails instead of being read.
pub fn read_guest_bytes(heap: &[u8], src: u32, length: u32) -> (r: Result<Vec<u8>, MemoryError>)
    ensures
        src + length <= heap@.len() ==> (r matches Ok(b) && b@ == heap@.subrange(
            src as int,
            src + length,
        )),
        src + length > heap@.len() ==> r == Err::<Vec<u8>, MemoryError>(MemoryError::OutOfBounds),
{
    if (length as usize) > heap.len() || (src as usize) > heap.len() - (length as usize) {
        return Err(MemoryError::OutOfBounds);
    }
    let start = src as usize;
    let end = start + length as usize;
    Ok(slice_to_vec(slice_subrange(heap, start, end)))
}

} // verus!
