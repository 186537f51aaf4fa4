//! Static interpreter for a register-based code virtualizer: register-role
//! discovery at the VM entry, emulation of the per-handler rolling-key cipher,
//! and classification of handlers into virtual opcodes.
pub mod code;
pub mod error;
pub mod image;
pub mod instruction;
pub mod match_assembly;
pub mod transforms;
pub mod vm_handler;
pub mod vm_matchers;
