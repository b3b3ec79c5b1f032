use sprout::hook::{
    Arch2Arguments, ArchArguments, Authentication, AuthenticationAnswer, HookAccess, HookAnswer,
    HookError, HookedSlots, SecurityArch2Protocol, SecurityArchProtocol, SecurityHook,
    SecurityHookBuffer, SecurityHookState, SecurityProtocols, ShimVerificationOutput,
};
use sprout::status::Status;

type Access = HookAccess<u32, &'static str, &'static str, &'static str>;
type Found = Result<Option<SecurityProtocols<&'static str, &'static str>>, HookError<&'static str>>;
type State = Option<SecurityHookState<&'static str, &'static str>>;
type Arguments = ArchArguments<&'static str, u64>;
type Arguments2 = Arch2Arguments<&'static str, u64, u64>;
type Buffer = SecurityHookBuffer<u64, u64>;
type Arch = Authentication<&'static str, Arguments, u64, Vec<u8>>;
type Arch2 = Authentication<&'static str, Arguments2, u64, Buffer>;
type Answer = AuthenticationAnswer<&'static str, Vec<u8>, &'static str>;
type Answer2 = AuthenticationAnswer<&'static str, Buffer, &'static str>;
type Outcome = Result<ShimVerificationOutput, &'static str>;

fn status(status: uefi_raw::Status) -> Status {
    Status { code: status.0 }
}

fn arch(function: &'static str) -> SecurityArchProtocol<&'static str> {
    SecurityArchProtocol { file_authentication_state: function }
}

fn arch2(function: &'static str) -> SecurityArch2Protocol<&'static str> {
    SecurityArch2Protocol { file_authentication: function }
}

fn protocols(function: &'static str, function2: &'static str) -> Found {
    Ok(Some(SecurityProtocols { arch: arch(function), arch2: arch2(function2) }))
}

fn functions(found: Found) -> (&'static str, &'static str) {
    let protocols = found.unwrap().unwrap();
    (protocols.arch.file_authentication_state, protocols.arch2.file_authentication)
}

fn reply<A: std::fmt::Debug, D: std::fmt::Debug>(
    authentication: Authentication<&'static str, A, u64, D>,
) -> Status {
    match authentication {
        Authentication::Reply { status } => status,
        other => panic!("no reply yet: {:?}", other),
    }
}

/// A call of the EFI_SECURITY_ARCH hook.
fn call(path: Option<u64>) -> Arch {
    SecurityHook::arch_file_authentication_state(ArchArguments { this: "this", status: 6, path })
}

/// A call of the EFI_SECURITY_ARCH2 hook.
fn call2(path: Option<u64>, file_buffer: Option<u64>, boot_policy: bool) -> Arch2 {
    SecurityHook::arch2_file_authentication(Arch2Arguments {
        this: "this",
        path,
        file_buffer,
        file_size: 30,
        boot_policy,
    })
}

const NEITHER: HookedSlots = HookedSlots { arch: false, arch2: false };
const BOTH: HookedSlots = HookedSlots { arch: true, arch2: true };

const FAILED: Outcome =
    Ok(ShimVerificationOutput::VerificationFailed(Status { code: usize::MAX / 2 + 27 }));

#[test]
fn shim_verdicts() {
    let denied: Outcome = Err("no shim");
    assert_eq!(
        SecurityHook::verification_status(&denied),
        status(uefi_raw::Status::ACCESS_DENIED)
    );
    assert!(!SecurityHook::verify(&denied));

    assert_eq!(
        SecurityHook::verification_status(&FAILED),
        status(uefi_raw::Status::SECURITY_VIOLATION)
    );
    assert!(!SecurityHook::verify(&FAILED));

    // A warning is not a success, and a failure with the success status is one.
    let warned: Outcome = Ok(ShimVerificationOutput::VerificationFailed(Status { code: 1 }));
    assert!(!SecurityHook::verify(&warned));
    let odd: Outcome = Ok(ShimVerificationOutput::VerificationFailed(Status { code: 0 }));
    assert!(SecurityHook::verify(&odd));

    let not_loaded: Outcome = Ok(ShimVerificationOutput::VerifiedDataNotLoaded);
    assert_eq!(SecurityHook::verification_status(&not_loaded), status(uefi_raw::Status::SUCCESS));
    assert!(SecurityHook::verify(&not_loaded));
    let loaded: Outcome = Ok(ShimVerificationOutput::VerifiedDataBuffer);
    assert!(SecurityHook::verify(&loaded));
}

#[test]
fn arch_refuses_null_path() {
    assert_eq!(reply(call(None)), status(uefi_raw::Status::INVALID_PARAMETER));
}

#[test]
fn arch_reports_unreadable_data() {
    let authentication = call(Some(10));
    assert!(matches!(authentication, Authentication::ReadData { path: 10, .. }));
    let authentication = authentication.step(Answer::DataRead(None));
    assert_eq!(reply(authentication), status(uefi_raw::Status::NOT_FOUND));
}

#[test]
fn arch_lets_verified_data_pass() {
    let authentication = call(Some(10)).step(Answer::DataRead(Some(vec![1, 2])));
    assert!(matches!(&authentication, Authentication::Verify { data, .. } if *data == [1, 2]));
    let authentication =
        authentication.step(Answer::Verified(Ok(ShimVerificationOutput::VerifiedDataBuffer)));
    assert_eq!(reply(authentication), status(uefi_raw::Status::SUCCESS));
}

#[test]
fn arch_falls_back_on_original() {
    let authentication =
        call(Some(10)).step(Answer::DataRead(Some(vec![]))).step(Answer::Verified(FAILED));
    assert!(matches!(authentication, Authentication::LookUpOriginal { .. }));
    let authentication = authentication.step(Answer::Original(Some("firmware")));
    match &authentication {
        Authentication::CallOriginal { function, arguments } => {
            assert_eq!(*function, "firmware");
            assert_eq!(arguments.this, "this");
            assert_eq!(arguments.status, 6);
            assert_eq!(arguments.path, Some(10));
        }
        other => panic!("no call: {:?}", other),
    }
    let authentication = authentication.step(Answer::Returned(Status { code: 42 }));
    assert_eq!(reply(authentication), Status { code: 42 });
}

#[test]
fn arch_without_original_is_a_load_error() {
    let authentication = call(Some(10))
        .step(Answer::DataRead(Some(vec![])))
        .step(Answer::Verified(Err("no shim")))
        .step(Answer::Original(None));
    assert_eq!(reply(authentication), status(uefi_raw::Status::LOAD_ERROR));
}

#[test]
fn arch2_refusals() {
    for (path, buffer, policy) in [
        (None, Some(20), false),
        (Some(10), None, false),
        (Some(10), Some(20), true),
        (None, None, true),
    ] {
        let authentication = call2(path, buffer, policy);
        assert_eq!(reply(authentication), status(uefi_raw::Status::INVALID_PARAMETER));
    }
}

#[test]
fn arch2_asks_about_the_buffer() {
    let authentication = call2(Some(10), Some(20), false);
    match &authentication {
        Authentication::Verify { data, .. } => {
            assert_eq!((data.path, data.file_buffer, data.file_size), (10, 20, 30));
        }
        other => panic!("not asked: {:?}", other),
    }
    let passed = authentication
        .step(Answer2::Verified(Ok(ShimVerificationOutput::VerifiedDataNotLoaded)));
    assert_eq!(reply(passed), status(uefi_raw::Status::SUCCESS));
}

#[test]
fn arch2_falls_back_on_original() {
    let authentication = call2(Some(10), Some(20), false)
        .step(Answer2::Verified(FAILED))
        .step(Answer2::Original(Some("firmware")));
    match &authentication {
        Authentication::CallOriginal { function, arguments } => {
            assert_eq!(*function, "firmware");
            assert_eq!(arguments.this, "this");
            assert_eq!(arguments.path, Some(10));
            assert_eq!(arguments.file_buffer, Some(20));
            assert_eq!(arguments.file_size, 30);
            assert!(!arguments.boot_policy);
        }
        other => panic!("no call: {:?}", other),
    }
    let failed = authentication
        .step(Answer2::Returned(status(uefi_raw::Status::SECURITY_VIOLATION)));
    assert_eq!(reply(failed), status(uefi_raw::Status::SECURITY_VIOLATION));

    let lost = call2(Some(10), Some(20), false)
        .step(Answer2::Verified(FAILED))
        .step(Answer2::Original(None));
    assert_eq!(reply(lost), status(uefi_raw::Status::LOAD_ERROR));
}

#[test]
fn authentication_ignores_other_answers() {
    let authentication = call(Some(10))
        .step(Answer::Returned(status(uefi_raw::Status::SUCCESS)))
        .step(Answer::Verified(Ok(ShimVerificationOutput::VerifiedDataBuffer)));
    assert!(matches!(authentication, Authentication::ReadData { .. }));
}

#[test]
fn hook_access_opens_both_protocols() {
    let access: Access = SecurityHook::access();
    let access = access.step(HookAnswer::Found(Ok(Some(1))));
    assert!(matches!(access, HookAccess::FindArch2 { arch: 1 }));
    let access = access.step(HookAnswer::Found(Ok(Some(2))));
    assert!(matches!(access, HookAccess::OpenArch { arch: 1, arch2: 2 }));
    let access = access.step(HookAnswer::OpenedArch(Ok(arch("a"))));
    assert!(matches!(access, HookAccess::OpenArch2 { arch2: 2, .. }));
    let access = access.step(HookAnswer::OpenedArch2(Ok(arch2("b"))));
    match access {
        HookAccess::Finished { found } => assert_eq!(functions(found), ("a", "b")),
        other => panic!("not finished: {:?}", other),
    }
}

#[test]
fn hook_access_without_protocols() {
    let access: Access = SecurityHook::access();
    let access = access.step(HookAnswer::Found(Ok(None)));
    assert!(matches!(access, HookAccess::Finished { found: Ok(None) }));
    let access: Access = SecurityHook::access();
    let access = access.step(HookAnswer::Found(Ok(Some(1)))).step(HookAnswer::Found(Ok(None)));
    assert!(matches!(access, HookAccess::Finished { found: Ok(None) }));
}

#[test]
fn hook_access_failures() {
    let found = HookAnswer::Found(Err("e"));
    let starts: [(Access, HookAnswer<u32, &str, &str, &str>, &str); 4] = [
        (HookAccess::FindArch, found, "unable to check security arch existence"),
        (
            HookAccess::FindArch2 { arch: 1 },
            HookAnswer::Found(Err("e")),
            "unable to check security arch2 existence",
        ),
        (
            HookAccess::OpenArch { arch: 1, arch2: 2 },
            HookAnswer::OpenedArch(Err("e")),
            "unable to open security arch protocol",
        ),
        (
            HookAccess::OpenArch2 { opened: arch("a"), arch2: 2 },
            HookAnswer::OpenedArch2(Err("e")),
            "unable to open security arch2 protocol",
        ),
    ];
    for (access, answer, context) in starts {
        match access.step(answer) {
            HookAccess::Finished { found: Err(error) } => assert_eq!(error.context(), context),
            other => panic!("not failed: {:?}", other),
        }
    }
}

#[test]
fn install_then_uninstall_restores() {
    let mut state: State = None;
    let written = SecurityHook::install(protocols("a", "b"), &mut state, "hook", "hook2", NEITHER);
    assert_eq!(functions(written), ("hook", "hook2"));
    assert_eq!(SecurityHook::original_hook(&state), Some("a"));
    assert_eq!(SecurityHook::original_hook2(&state), Some("b"));

    let written = SecurityHook::uninstall(protocols("hook", "hook2"), &mut state);
    assert_eq!(functions(written), ("a", "b"));
    assert!(state.is_none());
    assert_eq!(SecurityHook::original_hook(&state), None);
    assert_eq!(SecurityHook::original_hook2(&state), None);

    let written = SecurityHook::uninstall(protocols("a", "b"), &mut state);
    assert!(matches!(written, Ok(None)));
}

#[test]
fn install_again_keeps_the_first() {
    let mut state: State = None;
    let written = SecurityHook::install(protocols("a", "b"), &mut state, "hook", "hook2", NEITHER);
    assert_eq!(functions(written), ("hook", "hook2"));
    let written = SecurityHook::install(protocols("hook", "hook2"), &mut state, "hook", "hook2", BOTH);
    assert_eq!(functions(written), ("hook", "hook2"));
    assert_eq!(SecurityHook::original_hook(&state), Some("a"));
    assert_eq!(SecurityHook::original_hook2(&state), Some("b"));
    let written = SecurityHook::uninstall(protocols("hook", "hook2"), &mut state);
    assert_eq!(functions(written), ("a", "b"));
    assert!(state.is_none());
    // Once uninstalled, the next installation saves anew.
    let _ = SecurityHook::install(protocols("c", "d"), &mut state, "hook", "hook2", NEITHER);
    assert_eq!(SecurityHook::original_hook(&state), Some("c"));
    assert_eq!(SecurityHook::original_hook2(&state), Some("d"));
}

#[test]
fn install_again_saves_what_another_wrote() {
    let mut state: State = None;
    let _ = SecurityHook::install(protocols("a", "b"), &mut state, "hook", "hook2", NEITHER);
    let _ = SecurityHook::install(protocols("x", "y"), &mut state, "hook", "hook2", NEITHER);
    let written = SecurityHook::uninstall(protocols("hook", "hook2"), &mut state);
    assert_eq!(functions(written), ("x", "y"));

    // Each protocol is taken for itself.
    let _ = SecurityHook::install(protocols("a", "b"), &mut state, "hook", "hook2", NEITHER);
    let slots = HookedSlots { arch: true, arch2: false };
    let _ = SecurityHook::install(protocols("hook", "y"), &mut state, "hook", "hook2", slots);
    let written = SecurityHook::uninstall(protocols("hook", "hook2"), &mut state);
    assert_eq!(functions(written), ("a", "y"));
}

#[test]
fn missing_protocols_change_nothing() {
    let mut state: State = None;
    let _ = SecurityHook::install(protocols("a", "b"), &mut state, "hook", "hook2", NEITHER);
    let missing: Found = Ok(None);
    assert!(matches!(SecurityHook::install(missing, &mut state, "x", "y", BOTH), Ok(None)));
    let failed: Found = Err(HookError::OpenArch("e"));
    let written = SecurityHook::install(failed, &mut state, "x", "y", BOTH);
    assert!(matches!(written, Err(HookError::OpenArch("e"))));
    let missing: Found = Ok(None);
    assert!(matches!(SecurityHook::uninstall(missing, &mut state), Ok(None)));
    let failed: Found = Err(HookError::FindArch2("e"));
    let written = SecurityHook::uninstall(failed, &mut state);
    assert!(matches!(written, Err(HookError::FindArch2("e"))));
    assert_eq!(SecurityHook::original_hook(&state), Some("a"));
    assert_eq!(SecurityHook::original_hook2(&state), Some("b"));
}
