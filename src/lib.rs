//! Host-side core for running toolchain-compiled guest modules in a sandboxed
//! virtual machine: the address-space planner, the sandbox bootstrap, the
//! import table, the program launch protocol and the nonlocal-jump state.

pub mod globals;
pub mod imports;
pub mod jmp;
pub mod launch;
pub mod layout;
