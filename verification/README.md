# sprout

The decisions of a UEFI boot loader, verified with Verus: the boot of the Edera hypervisor, the
measurements into the platform TPM, and the security hook that lets the shim vouch for images.

* `src/` is the library. It performs no input or output. Its machines (`Edera`, `PayloadRead`,
  `LoaderRegistration`, `TpmAccess`, `BankQuery`, `EventLog`, `HookAccess`, `Authentication`) name
  the outside work that they wait for and take the answer to it. The contracts say how each machine
  goes on; the public proof functions named `law_*` say what follows for whole runs: that everything
  is measured, in a fixed order, before it is used, that uninstalling the hook restores what
  installing it replaced, and so on.
* `app/` performs the outside work through the `uefi` crate. What the rest of the boot loader
  provides (stamping, media loaders, files, the shim) stands in `app/surroundings.rs` as traits.
* `tests/` runs the machines on concrete values.

The calls into `uefi` and `uefi-raw` that only compute stand in `src/` behind small functions with
contracts that are believed, not proved: the status codes in `src/status.rs`, and the events, event
type and flags in `src/tpm.rs`.
