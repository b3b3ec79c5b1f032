//! The decisions of a UEFI boot loader, apart from the firmware calls that carry them out.
//!
//! * [`edera`]: the boot of the Edera hypervisor, as a machine that says which outside work
//!   comes next and takes the answer to it.
//! * [`boot_laws`]: what holds of every such boot.
//! * [`tpm`]: access to the platform TPM and the measurements made through it.
//! * [`hook`]: the security hook that lets the shim vouch for images.
//! * [`status`]: UEFI status codes as plain numbers.
//!
//! Nothing here performs input or output. Each machine names the outside work that it waits for;
//! the caller performs it and hands the answer back.
pub mod boot_laws;
pub mod edera;
pub mod hook;
pub mod status;
pub mod tpm;
