//! A host-function bridging layer: a native process exposes a set of typed,
//! named capabilities ("syscalls") to code running inside an isolated guest
//! execution environment, and the guest invokes them across the trust
//! boundary through calling-convention-correct trampolines.
//!
//! The guest engine itself (bytecode compilation and execution) is an
//! external collaborator: this crate models only the bridging mechanism —
//! the ABI word mapping, capability declaration, host module construction,
//! import resolution by qualified name, and bounds-checked access to the
//! guest's linear memory.

pub mod abi;
pub mod guest;
pub mod host_module;
pub mod linker;
pub mod system_api;
pub mod wasi_caller_memory;
