//! Device layer: the platform-neutral pointer and keyboard output, the Linux
//! input ABI and keyboard detection, and the Windows key mapping.
pub mod linux;
pub mod pointer;
pub mod windows;
