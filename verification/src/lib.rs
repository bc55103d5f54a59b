//! Core of a small virtual machine monitor: guest memory, image loading,
//! vCPU start-up state, VM-exit dispatch and the serial console.

pub mod args;
pub mod asm_code;
pub mod error;
pub mod hex;
pub mod serial;
pub mod ram;
pub mod image;
pub mod vcpu;
pub mod mem_inspection;
pub mod vm;
pub mod vm_builder;
