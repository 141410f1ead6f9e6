//! Translation of PTX kernel modules into SPIR-V, together with the pure
//! host-side helpers that surround such a translator: structural comparison
//! of SPIR-V modules modulo id renaming, kernel-argument metadata
//! extraction, bounds-checked unpacking of multi-architecture containers,
//! and the decision logic of the loader, dump and injection shims.

pub mod ast;
pub mod device;
pub mod dump;
pub mod equiv;
pub mod fatbin;
pub mod inject;
pub mod parser;
pub mod codegen;
pub mod pool;
pub mod redirect;
pub mod spirv;
