//! Linux device layer: the kernel input ABI and keyboard detection.
pub mod abi;
pub mod input;
