//! The security hook: it stands in for the firmware's authentication of files, so that images
//! that the shim vouches for can be started.
//!
//! While the hook is installed, the firmware calls it in place of its own two functions.
//! [`Authentication`] is what such a call does, [`HookAccess`] the way to the two protocols that
//! hold the functions, and [`SecurityHook::install`] and [`SecurityHook::uninstall`] are the
//! exchange of the functions itself.
use crate::status::{
    access_denied, access_denied_status, invalid_parameter, invalid_parameter_status, is_success,
    load_error, load_error_status, not_found, not_found_status, success, success_status, Status,
};
use vstd::prelude::*;

verus! {

/// EFI_SECURITY_ARCH protocol definition. `F` is the type of its function.
#[derive(Debug)]
pub struct SecurityArchProtocol<F> {
    /// Determines the file authentication state.
    pub file_authentication_state: F,
}

/// EFI_SECURITY_ARCH2 protocol definition. `G` is the type of its function.
#[derive(Debug)]
pub struct SecurityArch2Protocol<G> {
    /// Determines the file authentication.
    pub file_authentication: G,
}

/// State of an installed security hook: the functions that it stands in for.
#[derive(Debug)]
pub struct SecurityHookState<F, G> {
    /// What the EFI_SECURITY_ARCH protocol held.
    pub original_hook: SecurityArchProtocol<F>,
    /// What the EFI_SECURITY_ARCH2 protocol held.
    pub original_hook2: SecurityArch2Protocol<G>,
}

/// What the shim made of the data that it was to verify.
#[derive(Clone, Copy, Debug, PartialEq, Eq, Structural)]
pub enum ShimVerificationOutput {
    /// The verification failed, with a status.
    VerificationFailed(Status),
    /// The data is verified, and was not loaded.
    VerifiedDataNotLoaded,
    /// The data is verified, and was loaded into a buffer.
    VerifiedDataBuffer,
}

/// Whether the shim vouches for the data: it was asked, and did not report a failure.
pub open spec fn shim_accepts<E>(outcome: Result<ShimVerificationOutput, E>) -> bool {
    match outcome {
        Ok(ShimVerificationOutput::VerificationFailed(status)) => status.succeeds(),
        Ok(_) => true,
        Err(_) => false,
    }
}

/// The arguments of a call of the EFI_SECURITY_ARCH function. `T` and `P` are the types of
/// pointers that are not null.
#[derive(Debug)]
pub struct ArchArguments<T, P> {
    /// The protocol that was called.
    pub this: T,
    /// The authentication status that the caller passes.
    pub status: u32,
    /// The path of the file, unless it is null.
    pub path: Option<P>,
}

/// The arguments of a call of the EFI_SECURITY_ARCH2 function. `T`, `P` and `B` are the types of
/// pointers that are not null.
#[derive(Debug)]
pub struct Arch2Arguments<T, P, B> {
    /// The protocol that was called.
    pub this: T,
    /// The path of the file, unless it is null.
    pub path: Option<P>,
    /// The start of the file's contents, unless it is null.
    pub file_buffer: Option<B>,
    /// The number of bytes of the file's contents.
    pub file_size: usize,
    /// Whether the boot policy asks for the file.
    pub boot_policy: bool,
}

/// A buffer for the shim to verify: the `file_size` bytes at `file_buffer`, which came from `path`.
#[derive(Debug)]
pub struct SecurityHookBuffer<P, B> {
    /// The path of the file.
    pub path: P,
    /// The start of the file's contents.
    pub file_buffer: B,
    /// The number of bytes of the file's contents.
    pub file_size: usize,
}

/// What a call of the hook does. Each state but the last names the outside work that it waits
/// for. `F` is the type of the function that the hook stands in for and `A` that of the arguments
/// of the call. `P` is a path and `D` the data that the shim is asked about.
#[derive(Debug)]
pub enum Authentication<F, A, P, D> {
    /// Read the data to be authenticated from its path.
    ReadData { arguments: A, path: P },
    /// Have the shim verify the data.
    Verify { arguments: A, data: D },
    /// Look up the original function in the state of the hook.
    LookUpOriginal { arguments: A },
    /// Call the original function with the arguments of the call.
    CallOriginal { function: F, arguments: A },
    /// Return the status.
    Reply { status: Status },
}

/// The answer to the outside work that an [`Authentication`] waits for.
#[derive(Debug)]
pub enum AuthenticationAnswer<F, D, E> {
    /// The data, if it could be read.
    DataRead(Option<D>),
    /// What the shim made of the data.
    Verified(Result<ShimVerificationOutput, E>),
    /// The original function, if the state of the hook holds it.
    Original(Option<F>),
    /// What the original function returned.
    Returned(Status),
}

/// The start of a call of the EFI_SECURITY_ARCH hook: a null path is refused, and the data at any
/// other is to be read.
pub open spec fn arch_start<F, T, P, D>(arguments: ArchArguments<T, P>) -> Authentication<
    F,
    ArchArguments<T, P>,
    P,
    D,
> {
    match arguments.path {
        Some(path) => Authentication::ReadData { arguments, path },
        None => Authentication::Reply { status: invalid_parameter_status() },
    }
}

/// The start of a call of the EFI_SECURITY_ARCH2 hook: a null path, a null buffer and a boot
/// policy are refused, and the shim is to be asked about the buffer otherwise.
pub open spec fn arch2_start<G, T, P, B>(arguments: Arch2Arguments<T, P, B>) -> Authentication<
    G,
    Arch2Arguments<T, P, B>,
    P,
    SecurityHookBuffer<P, B>,
> {
    match (arguments.path, arguments.file_buffer) {
        (Some(path), Some(file_buffer)) => if arguments.boot_policy {
            Authentication::Reply { status: invalid_parameter_status() }
        } else {
            Authentication::Verify {
                arguments,
                data: SecurityHookBuffer { path, file_buffer, file_size: arguments.file_size },
            }
        },
        _ => Authentication::Reply { status: invalid_parameter_status() },
    }
}

impl<F, A, P, D> Authentication<F, A, P, D> {
    /// The state after `answer`. An answer to other work than the state waits for changes nothing.
    pub open spec fn next<E>(self, answer: AuthenticationAnswer<F, D, E>) -> Self {
        match (self, answer) {
            (
                Authentication::ReadData { arguments, path },
                AuthenticationAnswer::DataRead(read),
            ) => match read {
                Some(data) => Authentication::Verify { arguments, data },
                None => Authentication::Reply { status: not_found_status() },
            },
            (
                Authentication::Verify { arguments, data },
                AuthenticationAnswer::Verified(outcome),
            ) => if shim_accepts(outcome) {
                Authentication::Reply { status: success_status() }
            } else {
                Authentication::LookUpOriginal { arguments }
            },
            (
                Authentication::LookUpOriginal { arguments },
                AuthenticationAnswer::Original(original),
            ) => match original {
                Some(function) => Authentication::CallOriginal { function, arguments },
                None => Authentication::Reply { status: load_error_status() },
            },
            (
                Authentication::CallOriginal { .. },
                AuthenticationAnswer::Returned(status),
            ) => Authentication::Reply { status },
            _ => self,
        }
    }

    /// Take the answer to the outside work that this state waits for.
    pub fn step<E>(self, answer: AuthenticationAnswer<F, D, E>) -> (authentication: Self)
        ensures
            authentication == self.next(answer),
    {
        match (self, answer) {
            (
                Authentication::ReadData { arguments, .. },
                AuthenticationAnswer::DataRead(read),
            ) => match read {
                Some(data) => Authentication::Verify { arguments, data },
                None => Authentication::Reply { status: not_found() },
            },
            // If the shim does not vouch for the data, the original function decides.
            (
                Authentication::Verify { arguments, .. },
                AuthenticationAnswer::Verified(outcome),
            ) => if SecurityHook::verify(&outcome) {
                Authentication::Reply { status: success() }
            } else {
                Authentication::LookUpOriginal { arguments }
            },
            (
                Authentication::LookUpOriginal { arguments },
                AuthenticationAnswer::Original(original),
            ) => match original {
                Some(function) => Authentication::CallOriginal { function, arguments },
                None => Authentication::Reply { status: load_error() },
            },
            (
                Authentication::CallOriginal { .. },
                AuthenticationAnswer::Returned(status),
            ) => Authentication::Reply { status },
            (authentication, _) => authentication,
        }
    }
}

/// Why the security hook could not be installed or uninstalled. `E` is the cause that the outside
/// work reported.
#[derive(Debug)]
pub enum HookError<E> {
    /// The EFI_SECURITY_ARCH protocol could not be looked for.
    FindArch(E),
    /// The EFI_SECURITY_ARCH2 protocol could not be looked for.
    FindArch2(E),
    /// The EFI_SECURITY_ARCH protocol could not be opened.
    OpenArch(E),
    /// The EFI_SECURITY_ARCH2 protocol could not be opened.
    OpenArch2(E),
}

impl<E> HookError<E> {
    /// The text that describes the failed step.
    pub open spec fn context_text(self) -> Seq<char> {
        match self {
            HookError::FindArch(_) => "unable to check security arch existence"@,
            HookError::FindArch2(_) => "unable to check security arch2 existence"@,
            HookError::OpenArch(_) => "unable to open security arch protocol"@,
            HookError::OpenArch2(_) => "unable to open security arch2 protocol"@,
        }
    }

    /// Describe the failed step.
    pub fn context(&self) -> (text: &'static str)
        ensures
            text@ == self.context_text(),
    {
        match self {
            HookError::FindArch(_) => "unable to check security arch existence",
            HookError::FindArch2(_) => "unable to check security arch2 existence",
            HookError::OpenArch(_) => "unable to open security arch protocol",
            HookError::OpenArch2(_) => "unable to open security arch2 protocol",
        }
    }
}

/// What the two open protocols hold.
#[derive(Debug)]
pub struct SecurityProtocols<F, G> {
    /// The EFI_SECURITY_ARCH protocol.
    pub arch: SecurityArchProtocol<F>,
    /// The EFI_SECURITY_ARCH2 protocol.
    pub arch2: SecurityArch2Protocol<G>,
}

/// The way to the two protocols. Each state but the last names the outside work that it waits for.
/// `H` is a firmware handle and `E` the cause of a failure.
#[derive(Debug)]
pub enum HookAccess<H, F, G, E> {
    /// Look for a handle that implements the EFI_SECURITY_ARCH protocol.
    FindArch,
    /// Look for a handle that implements the EFI_SECURITY_ARCH2 protocol.
    FindArch2 { arch: H },
    /// Open the EFI_SECURITY_ARCH protocol of the handle `arch`.
    OpenArch { arch: H, arch2: H },
    /// Open the EFI_SECURITY_ARCH2 protocol of the handle `arch2`.
    OpenArch2 { opened: SecurityArchProtocol<F>, arch2: H },
    /// The protocols are open, one of them does not exist, or they could not be opened.
    Finished { found: Result<Option<SecurityProtocols<F, G>>, HookError<E>> },
}

/// The answer to the outside work that a [`HookAccess`] waits for.
#[derive(Debug)]
pub enum HookAnswer<H, F, G, E> {
    /// What the search for a handle brought.
    Found(Result<Option<H>, E>),
    /// What opening the EFI_SECURITY_ARCH protocol brought.
    OpenedArch(Result<SecurityArchProtocol<F>, E>),
    /// What opening the EFI_SECURITY_ARCH2 protocol brought.
    OpenedArch2(Result<SecurityArch2Protocol<G>, E>),
}

impl<H, F, G, E> HookAccess<H, F, G, E> {
    /// The state after `answer`. An answer to other work than the state waits for changes nothing.
    pub open spec fn next(self, answer: HookAnswer<H, F, G, E>) -> Self {
        match (self, answer) {
            (HookAccess::FindArch, HookAnswer::Found(found)) => match found {
                Ok(Some(arch)) => HookAccess::FindArch2 { arch },
                Ok(None) => HookAccess::Finished { found: Ok(None) },
                Err(cause) => HookAccess::Finished { found: Err(HookError::FindArch(cause)) },
            },
            (HookAccess::FindArch2 { arch }, HookAnswer::Found(found)) => match found {
                Ok(Some(arch2)) => HookAccess::OpenArch { arch, arch2 },
                Ok(None) => HookAccess::Finished { found: Ok(None) },
                Err(cause) => HookAccess::Finished { found: Err(HookError::FindArch2(cause)) },
            },
            (
                HookAccess::OpenArch { arch, arch2 },
                HookAnswer::OpenedArch(opened),
            ) => match opened {
                Ok(opened) => HookAccess::OpenArch2 { opened, arch2 },
                Err(cause) => HookAccess::Finished { found: Err(HookError::OpenArch(cause)) },
            },
            (
                HookAccess::OpenArch2 { opened, arch2 },
                HookAnswer::OpenedArch2(opened2),
            ) => match opened2 {
                Ok(opened2) => HookAccess::Finished {
                    found: Ok(Some(SecurityProtocols { arch: opened, arch2: opened2 })),
                },
                Err(cause) => HookAccess::Finished { found: Err(HookError::OpenArch2(cause)) },
            },
            _ => self,
        }
    }

    /// Take the answer to the outside work that this state waits for.
    pub fn step(self, answer: HookAnswer<H, F, G, E>) -> (access: Self)
        ensures
            access == self.next(answer),
    {
        match (self, answer) {
            (HookAccess::FindArch, HookAnswer::Found(found)) => match found {
                Ok(Some(arch)) => HookAccess::FindArch2 { arch },
                Ok(None) => HookAccess::Finished { found: Ok(None) },
                Err(cause) => HookAccess::Finished { found: Err(HookError::FindArch(cause)) },
            },
            (HookAccess::FindArch2 { arch }, HookAnswer::Found(found)) => match found {
                Ok(Some(arch2)) => HookAccess::OpenArch { arch, arch2 },
                Ok(None) => HookAccess::Finished { found: Ok(None) },
                Err(cause) => HookAccess::Finished { found: Err(HookError::FindArch2(cause)) },
            },
            (
                HookAccess::OpenArch { arch2, .. },
                HookAnswer::OpenedArch(opened),
            ) => match opened {
                Ok(opened) => HookAccess::OpenArch2 { opened, arch2 },
                Err(cause) => HookAccess::Finished { found: Err(HookError::OpenArch(cause)) },
            },
            (
                HookAccess::OpenArch2 { opened, .. },
                HookAnswer::OpenedArch2(opened2),
            ) => match opened2 {
                Ok(opened2) => HookAccess::Finished {
                    found: Ok(Some(SecurityProtocols { arch: opened, arch2: opened2 })),
                },
                Err(cause) => HookAccess::Finished { found: Err(HookError::OpenArch2(cause)) },
            },
            (access, _) => access,
        }
    }
}

/// Which of the two protocols hold the hook's own function already.
#[derive(Clone, Copy, Debug, PartialEq, Eq, Structural)]
pub struct HookedSlots {
    /// Whether the EFI_SECURITY_ARCH protocol does.
    pub arch: bool,
    /// Whether the EFI_SECURITY_ARCH2 protocol does.
    pub arch2: bool,
}

/// What is to be written into the protocols to install the hook, and the state of the hook then:
/// the functions that the protocols held. Where a protocol holds the hook already, an installed
/// hook keeps the function that it stands in for there.
pub open spec fn installed<F, G, E>(
    found: Result<Option<SecurityProtocols<F, G>>, HookError<E>>,
    state: Option<SecurityHookState<F, G>>,
    hook: F,
    hook2: G,
    slots: HookedSlots,
) -> (Result<Option<SecurityProtocols<F, G>>, HookError<E>>, Option<SecurityHookState<F, G>>) {
    match found {
        Ok(Some(protocols)) => (
            Ok(
                Some(
                    SecurityProtocols {
                        arch: SecurityArchProtocol { file_authentication_state: hook },
                        arch2: SecurityArch2Protocol { file_authentication: hook2 },
                    },
                ),
            ),
            Some(
                SecurityHookState {
                    original_hook: if slots.arch && state is Some {
                        state->0.original_hook
                    } else {
                        protocols.arch
                    },
                    original_hook2: if slots.arch2 && state is Some {
                        state->0.original_hook2
                    } else {
                        protocols.arch2
                    },
                },
            ),
        ),
        Ok(None) => (Ok(None), state),
        Err(error) => (Err(error), state),
    }
}

/// What is to be written into the protocols to uninstall the hook, and the state of the hook then.
pub open spec fn uninstalled<F, G, E>(
    found: Result<Option<SecurityProtocols<F, G>>, HookError<E>>,
    state: Option<SecurityHookState<F, G>>,
) -> (Result<Option<SecurityProtocols<F, G>>, HookError<E>>, Option<SecurityHookState<F, G>>) {
    match found {
        Ok(Some(_)) => match state {
            Some(hooked) => (
                Ok(
                    Some(
                        SecurityProtocols {
                            arch: hooked.original_hook,
                            arch2: hooked.original_hook2,
                        },
                    ),
                ),
                None,
            ),
            None => (Ok(None), None),
        },
        Ok(None) => (Ok(None), state),
        Err(error) => (Err(error), state),
    }
}

/// The function that the hook stands in for in the EFI_SECURITY_ARCH protocol, while it is
/// installed.
pub open spec fn stood_in_for<F, G>(state: Option<SecurityHookState<F, G>>) -> Option<F> {
    match state {
        Some(hooked) => Some(hooked.original_hook.file_authentication_state),
        None => None,
    }
}

/// The function that the hook stands in for in the EFI_SECURITY_ARCH2 protocol, while it is
/// installed.
pub open spec fn stood_in_for2<F, G>(state: Option<SecurityHookState<F, G>>) -> Option<G> {
    match state {
        Some(hooked) => Some(hooked.original_hook2.file_authentication),
        None => None,
    }
}

/// Security hook helper.
pub struct SecurityHook;

impl SecurityHook {
    /// The status that the shim's verdict comes down to.
    pub fn verification_status<E>(outcome: &Result<ShimVerificationOutput, E>) -> (status: Status)
        ensures
            status == (match outcome {
                Ok(ShimVerificationOutput::VerificationFailed(status)) => *status,
                Ok(_) => success_status(),
                Err(_) => access_denied_status(),
            }),
            match outcome {
                Ok(ShimVerificationOutput::VerificationFailed(reported)) => status.code
                    == reported.code,
                Ok(_) => status.code == 0,
                Err(_) => status.code == usize::MAX / 2 + 1 + 15,
            },
    {
        match outcome {
            Ok(output) => match output {
                ShimVerificationOutput::VerificationFailed(status) => *status,
                ShimVerificationOutput::VerifiedDataNotLoaded => success(),
                ShimVerificationOutput::VerifiedDataBuffer => success(),
            },
            // A shim that cannot be asked vouches for nothing.
            Err(_) => access_denied(),
        }
    }

    /// Shared verifier logic for both hook types: whether the shim vouches for the data.
    #[must_use]
    pub fn verify<E>(outcome: &Result<ShimVerificationOutput, E>) -> (verified: bool)
        ensures
            verified == shim_accepts(*outcome),
            match outcome {
                Ok(ShimVerificationOutput::VerificationFailed(status)) => verified <==> status.code
                    == 0,
                Ok(_) => verified,
                Err(_) => !verified,
            },
    {
        is_success(SecurityHook::verification_status(outcome))
    }

    /// File authentication state verifier for the EFI_SECURITY_ARCH protocol. Takes the
    /// arguments of the call, and goes on to read the data at the path.
    pub fn arch_file_authentication_state<F, T, P: Copy, D>(
        arguments: ArchArguments<T, P>,
    ) -> (authentication: Authentication<F, ArchArguments<T, P>, P, D>)
        ensures
            authentication == arch_start::<F, T, P, D>(arguments),
            match arguments.path {
                Some(path) => authentication == (Authentication::<
                    F,
                    ArchArguments<T, P>,
                    P,
                    D,
                >::ReadData { arguments, path }),
                None => authentication matches Authentication::Reply { status } && status
                    == invalid_parameter_status(),
            },
    {
        match arguments.path {
            Some(path) => Authentication::ReadData { arguments, path },
            None => Authentication::Reply { status: invalid_parameter() },
        }
    }

    /// File authentication verifier for the EFI_SECURITY_ARCH2 protocol. Takes the arguments of
    /// the call, and goes on to verify the file buffer. A boot policy is not supported.
    pub fn arch2_file_authentication<G, T, P: Copy, B: Copy>(
        arguments: Arch2Arguments<T, P, B>,
    ) -> (authentication: Authentication<
        G,
        Arch2Arguments<T, P, B>,
        P,
        SecurityHookBuffer<P, B>,
    >)
        ensures
            authentication == arch2_start::<G, T, P, B>(arguments),
            arguments.path is Some && arguments.file_buffer is Some && !arguments.boot_policy
                ==> authentication == (Authentication::<
                G,
                Arch2Arguments<T, P, B>,
                P,
                SecurityHookBuffer<P, B>,
            >::Verify {
                arguments,
                data: SecurityHookBuffer {
                    path: arguments.path->0,
                    file_buffer: arguments.file_buffer->0,
                    file_size: arguments.file_size,
                },
            }),
            arguments.path is None || arguments.file_buffer is None || arguments.boot_policy
                ==> (authentication matches Authentication::Reply { status } && status
                == invalid_parameter_status()),
    {
        let (path, file_buffer) = match (arguments.path, arguments.file_buffer) {
            (Some(path), Some(file_buffer)) => (path, file_buffer),
            _ => return Authentication::Reply { status: invalid_parameter() },
        };
        if arguments.boot_policy {
            return Authentication::Reply { status: invalid_parameter() };
        }
        let data = SecurityHookBuffer { path, file_buffer, file_size: arguments.file_size };
        Authentication::Verify { arguments, data }
    }

    /// The function that the hook stands in for in the EFI_SECURITY_ARCH protocol.
    pub fn original_hook<F: Copy, G>(state: &Option<SecurityHookState<F, G>>) -> (function: Option<
        F,
    >)
        ensures
            function == stood_in_for(*state),
            match state {
                Some(hooked) => function == Some(hooked.original_hook.file_authentication_state),
                None => function is None,
            },
    {
        match state {
            Some(hooked) => Some(hooked.original_hook.file_authentication_state),
            None => None,
        }
    }

    /// The function that the hook stands in for in the EFI_SECURITY_ARCH2 protocol.
    pub fn original_hook2<F, G: Copy>(state: &Option<SecurityHookState<F, G>>) -> (function: Option<
        G,
    >)
        ensures
            function == stood_in_for2(*state),
            match state {
                Some(hooked) => function == Some(hooked.original_hook2.file_authentication),
                None => function is None,
            },
    {
        match state {
            Some(hooked) => Some(hooked.original_hook2.file_authentication),
            None => None,
        }
    }

    /// Start on the way to the two protocols.
    pub fn access<H, F, G, E>() -> (access: HookAccess<H, F, G, E>)
        ensures
            access == HookAccess::<H, F, G, E>::FindArch,
    {
        HookAccess::FindArch
    }

    /// Install the security hook if needed, given what the way to the protocols ended in. The
    /// `state` takes the functions that the protocols held; in the `slots` that hold the hook
    /// already, it keeps what it has. The result is what to write into the protocols, or nothing
    /// where one of them does not exist.
    pub fn install<F, G, E>(
        found: Result<Option<SecurityProtocols<F, G>>, HookError<E>>,
        state: &mut Option<SecurityHookState<F, G>>,
        hook: F,
        hook2: G,
        slots: HookedSlots,
    ) -> (written: Result<Option<SecurityProtocols<F, G>>, HookError<E>>)
        ensures
            (written, *final(state)) == installed(found, *old(state), hook, hook2, slots),
    {
        let protocols = match found {
            Ok(Some(protocols)) => protocols,
            Ok(None) => return Ok(None),
            Err(error) => return Err(error),
        };
        // A protocol that holds the hook itself has no function to fall back on or to restore.
        let saved = match state.take() {
            Some(hooked) => SecurityHookState {
                original_hook: if slots.arch {
                    hooked.original_hook
                } else {
                    protocols.arch
                },
                original_hook2: if slots.arch2 {
                    hooked.original_hook2
                } else {
                    protocols.arch2
                },
            },
            None => SecurityHookState {
                original_hook: protocols.arch,
                original_hook2: protocols.arch2,
            },
        };
        *state = Some(saved);
        Ok(
            Some(
                SecurityProtocols {
                    arch: SecurityArchProtocol { file_authentication_state: hook },
                    arch2: SecurityArch2Protocol { file_authentication: hook2 },
                },
            ),
        )
    }

    /// Uninstalls the security hook, if installed, given what the way to the protocols ended in.
    /// The result is what to write into the protocols, or nothing where one of them does not exist
    /// or the hook is not installed.
    pub fn uninstall<F, G, E>(
        found: Result<Option<SecurityProtocols<F, G>>, HookError<E>>,
        state: &mut Option<SecurityHookState<F, G>>,
    ) -> (written: Result<Option<SecurityProtocols<F, G>>, HookError<E>>)
        ensures
            (written, *final(state)) == uninstalled(found, *old(state)),
    {
        match found {
            Ok(Some(_)) => {},
            Ok(None) => return Ok(None),
            Err(error) => return Err(error),
        }
        match state.take() {
            Some(hooked) => Ok(
                Some(
                    SecurityProtocols {
                        arch: hooked.original_hook,
                        arch2: hooked.original_hook2,
                    },
                ),
            ),
            None => Ok(None),
        }
    }
}

/// What the way to the protocols ends in, given what each piece of outside work would bring.
pub open spec fn hook_found<H, F, G, E>(
    found: Result<Option<H>, E>,
    found2: Result<Option<H>, E>,
    opened: Result<SecurityArchProtocol<F>, E>,
    opened2: Result<SecurityArch2Protocol<G>, E>,
) -> Result<Option<SecurityProtocols<F, G>>, HookError<E>> {
    if found is Err {
        Err(HookError::FindArch(found->Err_0))
    } else if found->Ok_0 is None {
        Ok(None)
    } else if found2 is Err {
        Err(HookError::FindArch2(found2->Err_0))
    } else if found2->Ok_0 is None {
        Ok(None)
    } else if opened is Err {
        Err(HookError::OpenArch(opened->Err_0))
    } else if opened2 is Err {
        Err(HookError::OpenArch2(opened2->Err_0))
    } else {
        Ok(Some(SecurityProtocols { arch: opened->Ok_0, arch2: opened2->Ok_0 }))
    }
}

/// Whatever the outside work brings, the way to the protocols ends after at most four answers. It
/// opens nothing before both protocols are found, and it ends in both open protocols or in none.
pub proof fn law_hook_access<H, F, G, E>(
    found: Result<Option<H>, E>,
    found2: Result<Option<H>, E>,
    opened: Result<SecurityArchProtocol<F>, E>,
    opened2: Result<SecurityArch2Protocol<G>, E>,
)
    ensures
        ({
            let start = HookAccess::<H, F, G, E>::FindArch;
            let searched = start.next(HookAnswer::Found(found)).next(HookAnswer::Found(found2));
            &&& (searched is OpenArch) <==> (found matches Ok(Some(_))) && (found2 matches Ok(
                Some(_),
            ))
            &&& searched is OpenArch || searched is Finished
            &&& searched.next(HookAnswer::OpenedArch(opened)).next(HookAnswer::OpenedArch2(opened2))
                == (HookAccess::<H, F, G, E>::Finished {
                found: hook_found(found, found2, opened, opened2),
            })
        }),
{
}

/// The outside work on the way to the protocols, and what each piece of it leads to: the handles
/// that were found are the ones that are opened, each for its own protocol, and what they hold then
/// is what is found. A protocol that does not exist ends the way with nothing, and each failure is
/// handed on with its cause, as the failure of the step in which it happened.
pub proof fn law_hook_access_answers<H, F, G, E>(
    arch: H,
    arch2: H,
    opened: SecurityArchProtocol<F>,
    opened2: SecurityArch2Protocol<G>,
    cause: E,
)
    ensures
        ({
            let find = HookAccess::<H, F, G, E>::FindArch;
            let find2 = find.next(HookAnswer::Found(Ok(Some(arch))));
            let open = find2.next(HookAnswer::Found(Ok(Some(arch2))));
            let open2 = open.next(HookAnswer::OpenedArch(Ok(opened)));
            let nothing = HookAccess::<H, F, G, E>::Finished { found: Ok(None) };
            &&& find2 == (HookAccess::<H, F, G, E>::FindArch2 { arch })
            &&& open == (HookAccess::<H, F, G, E>::OpenArch { arch, arch2 })
            &&& open2 == (HookAccess::<H, F, G, E>::OpenArch2 { opened, arch2 })
            &&& open2.next(HookAnswer::OpenedArch2(Ok(opened2))) == (HookAccess::<
                H,
                F,
                G,
                E,
            >::Finished { found: Ok(Some(SecurityProtocols { arch: opened, arch2: opened2 })) })
            &&& find.next(HookAnswer::Found(Ok(None))) == nothing
            &&& find2.next(HookAnswer::Found(Ok(None))) == nothing
            &&& find.next(HookAnswer::Found(Err(cause))) == (HookAccess::<H, F, G, E>::Finished {
                found: Err(HookError::FindArch(cause)),
            })
            &&& find2.next(HookAnswer::Found(Err(cause))) == (HookAccess::<H, F, G, E>::Finished {
                found: Err(HookError::FindArch2(cause)),
            })
            &&& open.next(HookAnswer::OpenedArch(Err(cause))) == (HookAccess::<
                H,
                F,
                G,
                E,
            >::Finished { found: Err(HookError::OpenArch(cause)) })
            &&& open2.next(HookAnswer::OpenedArch2(Err(cause))) == (HookAccess::<
                H,
                F,
                G,
                E,
            >::Finished { found: Err(HookError::OpenArch2(cause)) })
        }),
{
}

/// An answer to other work than the way to the protocols waits for changes nothing.
pub proof fn law_hook_access_other_answers<H, F, G, E>(
    access: HookAccess<H, F, G, E>,
    answer: HookAnswer<H, F, G, E>,
)
    requires
        !((access is FindArch || access is FindArch2) && answer is Found),
        !(access is OpenArch && answer is OpenedArch),
        !(access is OpenArch2 && answer is OpenedArch2),
    ensures
        access.next(answer) == access,
{
}

/// Uninstalling undoes installing: it writes back exactly the functions that the protocols held
/// when the hook was installed, whatever they hold now, and leaves the hook without a state. So it
/// is unless the hook was installed already and a protocol held it.
pub proof fn law_uninstall_restores<F, G, E>(
    before: SecurityProtocols<F, G>,
    now: SecurityProtocols<F, G>,
    state: Option<SecurityHookState<F, G>>,
    hook: F,
    hook2: G,
    slots: HookedSlots,
)
    requires
        state is None || (!slots.arch && !slots.arch2),
    ensures
        ({
            let (written, hooked) = installed::<F, G, E>(
                Ok(Some(before)),
                state,
                hook,
                hook2,
                slots,
            );
            &&& written matches Ok(Some(protocols)) && protocols.arch.file_authentication_state
                == hook && protocols.arch2.file_authentication == hook2
            &&& uninstalled::<F, G, E>(Ok(Some(now)), hooked) == (
                Ok::<Option<SecurityProtocols<F, G>>, HookError<E>>(Some(before)),
                None::<SecurityHookState<F, G>>,
            )
        }),
{
}

/// Installing a hook again writes the hook again. Each protocol is taken for itself: where it still
/// holds the hook, what the hook stands in for is kept, so that uninstalling writes back what the
/// protocol held before the first time; where another function was written meanwhile, uninstalling
/// writes back that. So it is whatever the protocols hold then.
pub proof fn law_install_again<F, G, E>(
    before: SecurityProtocols<F, G>,
    between: SecurityProtocols<F, G>,
    now: SecurityProtocols<F, G>,
    hook: F,
    hook2: G,
    slots: HookedSlots,
    kept: HookedSlots,
)
    ensures
        ({
            let (first, hooked) = installed::<F, G, E>(Ok(Some(before)), None, hook, hook2, slots);
            let (second, again) = installed::<F, G, E>(
                Ok(Some(between)),
                hooked,
                hook,
                hook2,
                kept,
            );
            let restored = SecurityProtocols {
                arch: if kept.arch {
                    before.arch
                } else {
                    between.arch
                },
                arch2: if kept.arch2 {
                    before.arch2
                } else {
                    between.arch2
                },
            };
            &&& second == first
            &&& kept.arch && kept.arch2 ==> again == hooked
            &&& uninstalled::<F, G, E>(Ok(Some(now)), again) == (
                Ok::<Option<SecurityProtocols<F, G>>, HookError<E>>(Some(restored)),
                None::<SecurityHookState<F, G>>,
            )
        }),
{
}

/// An installed hook falls back on exactly the functions that it replaced. So it is, of each
/// protocol, unless the hook was installed already and the protocol held it.
pub proof fn law_fallback_is_replaced<F, G, E>(
    before: SecurityProtocols<F, G>,
    state: Option<SecurityHookState<F, G>>,
    hook: F,
    hook2: G,
    slots: HookedSlots,
)
    ensures
        ({
            let (_, hooked) = installed::<F, G, E>(Ok(Some(before)), state, hook, hook2, slots);
            &&& state is None || !slots.arch ==> stood_in_for(hooked) == Some(
                before.arch.file_authentication_state,
            )
            &&& state is None || !slots.arch2 ==> stood_in_for2(hooked) == Some(
                before.arch2.file_authentication,
            )
        }),
{
}

/// Uninstalling a hook that is not installed, or that is uninstalled already, writes nothing.
pub proof fn law_uninstall_once<F, G, E>(
    first: SecurityProtocols<F, G>,
    second: SecurityProtocols<F, G>,
    state: Option<SecurityHookState<F, G>>,
)
    ensures
        ({
            let (_, bare) = uninstalled::<F, G, E>(Ok(Some(first)), state);
            uninstalled::<F, G, E>(Ok(Some(second)), bare) == (
                Ok::<Option<SecurityProtocols<F, G>>, HookError<E>>(None),
                None::<SecurityHookState<F, G>>,
            )
        }),
{
}

/// Where the protocols are not to be had, neither installing nor uninstalling writes anything or
/// touches the state of the hook, and a failure is handed on as it is.
pub proof fn law_no_protocols_no_change<F, G, E>(
    found: Result<Option<SecurityProtocols<F, G>>, HookError<E>>,
    state: Option<SecurityHookState<F, G>>,
    hook: F,
    hook2: G,
    slots: HookedSlots,
)
    requires
        !(found matches Ok(Some(_))),
    ensures
        installed(found, state, hook, hook2, slots) == (found, state),
        uninstalled(found, state) == (found, state),
{
}

/// What a call of the hook returns from the verdict on, given what each piece of outside work
/// would bring: the shim's word is enough, and otherwise the original function has the say.
pub open spec fn verdict<F, E>(
    outcome: Result<ShimVerificationOutput, E>,
    original: Option<F>,
    returned: Status,
) -> Status {
    if shim_accepts(outcome) {
        success_status()
    } else if original is Some {
        returned
    } else {
        load_error_status()
    }
}

/// Whatever the outside work brings, a call of the EFI_SECURITY_ARCH hook returns: an invalid
/// parameter on a null path, not found where the data cannot be read, and the verdict otherwise.
pub proof fn law_arch_reply<F, T, P, D, E>(
    arguments: ArchArguments<T, P>,
    read: Option<D>,
    outcome: Result<ShimVerificationOutput, E>,
    original: Option<F>,
    returned: Status,
)
    ensures
        ({
            let start = arch_start::<F, T, P, D>(arguments);
            let end = start.next(AuthenticationAnswer::<F, D, E>::DataRead(read)).next(
                AuthenticationAnswer::<F, D, E>::Verified(outcome),
            ).next(AuthenticationAnswer::<F, D, E>::Original(original)).next(
                AuthenticationAnswer::<F, D, E>::Returned(returned),
            );
            end == (Authentication::<F, ArchArguments<T, P>, P, D>::Reply {
                status: if arguments.path is None {
                    invalid_parameter_status()
                } else if read is None {
                    not_found_status()
                } else {
                    verdict(outcome, original, returned)
                },
            })
        }),
{
}

/// A call of the EFI_SECURITY_ARCH hook on a path reads the data at that path, asks the shim about
/// exactly the data that was read, and where the shim does not vouch for it and there is an
/// original function, calls that with the arguments of the call, unchanged.
pub proof fn law_arch_hands_on<F, T, P, D, E>(
    arguments: ArchArguments<T, P>,
    data: D,
    outcome: Result<ShimVerificationOutput, E>,
    function: F,
)
    requires
        arguments.path is Some,
    ensures
        ({
            let start = arch_start::<F, T, P, D>(arguments);
            let asked = start.next(AuthenticationAnswer::<F, D, E>::DataRead(Some(data)));
            let last = asked.next(AuthenticationAnswer::<F, D, E>::Verified(outcome)).next(
                AuthenticationAnswer::<F, D, E>::Original(Some(function)),
            );
            &&& start matches Authentication::ReadData { path, .. } && path == arguments.path->0
            &&& asked matches Authentication::Verify { data: about, .. } && about == data
            &&& !shim_accepts(outcome) ==> last == (Authentication::<
                F,
                ArchArguments<T, P>,
                P,
                D,
            >::CallOriginal { function, arguments })
        }),
{
}

/// Whatever the outside work brings, a call of the EFI_SECURITY_ARCH2 hook returns: an invalid
/// parameter on a null path, a null buffer or a boot policy, and the verdict otherwise.
pub proof fn law_arch2_reply<G, T, P, B, E>(
    arguments: Arch2Arguments<T, P, B>,
    outcome: Result<ShimVerificationOutput, E>,
    original: Option<G>,
    returned: Status,
)
    ensures
        ({
            let start = arch2_start::<G, T, P, B>(arguments);
            let end = start.next(
                AuthenticationAnswer::<G, SecurityHookBuffer<P, B>, E>::Verified(outcome),
            ).next(
                AuthenticationAnswer::<G, SecurityHookBuffer<P, B>, E>::Original(original),
            ).next(AuthenticationAnswer::<G, SecurityHookBuffer<P, B>, E>::Returned(returned));
            end == (Authentication::<
                G,
                Arch2Arguments<T, P, B>,
                P,
                SecurityHookBuffer<P, B>,
            >::Reply {
                status: if arguments.path is None || arguments.file_buffer is None
                    || arguments.boot_policy {
                    invalid_parameter_status()
                } else {
                    verdict(outcome, original, returned)
                },
            })
        }),
{
}

/// A call of the EFI_SECURITY_ARCH2 hook that is not refused asks the shim about exactly the path
/// and the buffer of the call, and where the shim does not vouch for them and there is an original
/// function, calls that with the arguments of the call, unchanged.
pub proof fn law_arch2_hands_on<G, T, P, B, E>(
    arguments: Arch2Arguments<T, P, B>,
    outcome: Result<ShimVerificationOutput, E>,
    function: G,
)
    requires
        arguments.path is Some,
        arguments.file_buffer is Some,
        !arguments.boot_policy,
    ensures
        ({
            let start = arch2_start::<G, T, P, B>(arguments);
            let last = start.next(
                AuthenticationAnswer::<G, SecurityHookBuffer<P, B>, E>::Verified(outcome),
            ).next(
                AuthenticationAnswer::<G, SecurityHookBuffer<P, B>, E>::Original(Some(function)),
            );
            &&& start matches Authentication::Verify { data, .. } && data == (SecurityHookBuffer {
                path: arguments.path->0,
                file_buffer: arguments.file_buffer->0,
                file_size: arguments.file_size,
            })
            &&& !shim_accepts(outcome) ==> last == (Authentication::<
                G,
                Arch2Arguments<T, P, B>,
                P,
                SecurityHookBuffer<P, B>,
            >::CallOriginal { function, arguments })
        }),
{
}

/// The shim vouches for data exactly where it was asked and reports no failure, or reports one whose
/// code is zero: then the call replies with success, and otherwise the original function is looked
/// up, with the arguments of the call. No warning and no other failure counts as vouched for.
pub proof fn law_shim_decides<F, A, P, D, E>(
    arguments: A,
    data: D,
    outcome: Result<ShimVerificationOutput, E>,
)
    ensures
        ({
            let after = (Authentication::<F, A, P, D>::Verify { arguments, data }).next(
                AuthenticationAnswer::Verified(outcome),
            );
            let vouched = match outcome {
                Ok(ShimVerificationOutput::VerificationFailed(status)) => status.code == 0,
                Ok(ShimVerificationOutput::VerifiedDataNotLoaded) => true,
                Ok(ShimVerificationOutput::VerifiedDataBuffer) => true,
                Err(_) => false,
            };
            &&& vouched ==> (after matches Authentication::Reply { status } && status.code == 0)
            &&& !vouched ==> after == (Authentication::<F, A, P, D>::LookUpOriginal { arguments })
        }),
{
}

/// What the original function returns is what the call replies with, success, warning or error:
/// nothing of it is changed. So it is in whatever call the original function is looked up.
pub proof fn law_original_has_the_say<F, A, P, D, E>(
    arguments: A,
    function: F,
    returned: Status,
)
    ensures
        ({
            let call = (Authentication::<F, A, P, D>::LookUpOriginal { arguments }).next(
                AuthenticationAnswer::<F, D, E>::Original(Some(function)),
            );
            &&& call == (Authentication::<F, A, P, D>::CallOriginal { function, arguments })
            &&& call.next(AuthenticationAnswer::<F, D, E>::Returned(returned)) == (Authentication::<
                F,
                A,
                P,
                D,
            >::Reply { status: returned })
        }),
{
}

/// A call of either hook in which the shim cannot be asked, or reports a failure whose code is not
/// zero, replies with exactly what the original function returns, and where there is no original
/// function, with a load error.
pub proof fn law_unvouched_call<F, A, P, D, E>(
    arguments: A,
    data: D,
    outcome: Result<ShimVerificationOutput, E>,
    function: F,
    returned: Status,
)
    requires
        outcome is Err || (outcome matches Ok(ShimVerificationOutput::VerificationFailed(status))
            && status.code != 0),
    ensures
        ({
            let looked_up = (Authentication::<F, A, P, D>::Verify { arguments, data }).next(
                AuthenticationAnswer::Verified(outcome),
            );
            &&& looked_up.next(AuthenticationAnswer::<F, D, E>::Original(Some(function))).next(
                AuthenticationAnswer::<F, D, E>::Returned(returned),
            ) == (Authentication::<F, A, P, D>::Reply { status: returned })
            &&& looked_up.next(
                AuthenticationAnswer::<F, D, E>::Original(None),
            ) matches Authentication::Reply { status } && status == load_error_status()
        }),
{
}

/// The data that was read is the data that the shim is asked about, whatever it is, and where none
/// could be read, the call replies that it was not found.
pub proof fn law_read_data_is_asked_about<F, A, P, D, E>(arguments: A, path: P, data: D)
    ensures
        ({
            let reading = Authentication::<F, A, P, D>::ReadData { arguments, path };
            &&& reading.next(AuthenticationAnswer::<F, D, E>::DataRead(Some(data)))
                == (Authentication::<F, A, P, D>::Verify { arguments, data })
            &&& reading.next(
                AuthenticationAnswer::<F, D, E>::DataRead(None),
            ) matches Authentication::Reply { status } && status == not_found_status()
        }),
{
}

/// An answer to other work than a call of the hook waits for changes nothing, and a reply stands.
pub proof fn law_authentication_other_answers<F, A, P, D, E>(
    authentication: Authentication<F, A, P, D>,
    answer: AuthenticationAnswer<F, D, E>,
)
    requires
        !(authentication is ReadData && answer is DataRead),
        !(authentication is Verify && answer is Verified),
        !(authentication is LookUpOriginal && answer is Original),
        !(authentication is CallOriginal && answer is Returned),
    ensures
        authentication.next(answer) == authentication,
{
}

/// The hook never lets data pass of its own accord: where the shim does not vouch for the data, a
/// success is the original function's.
pub proof fn law_no_success_unvouched<F, E>(
    outcome: Result<ShimVerificationOutput, E>,
    original: Option<F>,
    returned: Status,
)
    requires
        !shim_accepts(outcome),
    ensures
        verdict(outcome, original, returned).succeeds() ==> original is Some
            && returned.succeeds(),
{
}

} // verus!
