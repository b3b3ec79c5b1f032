use sprout::status::Status;
use sprout::tpm::{
    count_banks, BankQuery, EventLog, PlatformTpm, Tcg2Version, TpmAccess, TpmAnswer,
    TpmCapability, TpmError, TpmProtocolHandle,
};
use uefi::proto::tcg::v2::PcrEventInputs;
use uefi::proto::tcg::PcrIndex;
use uefi_raw::protocol::tcg::EventType;

type Access = TpmAccess<u32, &'static str, &'static str>;
type Found = Result<Option<TpmProtocolHandle<&'static str>>, TpmError<&'static str>>;

fn version(major: u8, minor: u8) -> Tcg2Version {
    Tcg2Version { major, minor }
}

fn capability(tpm_present: bool) -> TpmCapability {
    TpmCapability { protocol_version: version(1, 1), tpm_present }
}

fn handle(major: u8, minor: u8) -> Found {
    Ok(Some(TpmProtocolHandle::new(version(major, minor), "tcg2")))
}

fn finished(access: Access) -> Found {
    match access {
        TpmAccess::Finished { found } => found,
        other => panic!("not finished: {:?}", other),
    }
}

#[test]
fn access_reaches_the_tpm() {
    let access: Access = PlatformTpm::protocol();
    assert!(matches!(access, TpmAccess::FindHandle));
    let access = access.step(TpmAnswer::Found(Ok(Some(7))));
    assert!(matches!(access, TpmAccess::OpenProtocol { handle: 7 }));
    let access = access.step(TpmAnswer::Opened(Ok("tcg2")));
    assert!(matches!(access, TpmAccess::GetCapability { protocol: "tcg2" }));
    let access = access.step(TpmAnswer::Capability(Ok(capability(true))));
    let handle = finished(access).unwrap().unwrap();
    assert_eq!(handle.version(), version(1, 1));
    assert_eq!(handle.protocol, "tcg2");
}

#[test]
fn access_without_handle_or_device() {
    let access: Access = PlatformTpm::protocol();
    assert!(finished(access.step(TpmAnswer::Found(Ok(None)))).unwrap().is_none());

    let access: Access = PlatformTpm::protocol();
    let access = access
        .step(TpmAnswer::Found(Ok(Some(7))))
        .step(TpmAnswer::Opened(Ok("tcg2")))
        .step(TpmAnswer::Capability(Ok(capability(false))));
    assert!(finished(access).unwrap().is_none());
}

#[test]
fn access_failures() {
    let access: Access = PlatformTpm::protocol();
    let error = finished(access.step(TpmAnswer::Found(Err("e1")))).unwrap_err();
    assert!(matches!(error, TpmError::Presence("e1")));
    assert_eq!(error.context(), "unable to determine tpm presence");

    let access: Access = TpmAccess::OpenProtocol { handle: 7 };
    let error = finished(access.step(TpmAnswer::Opened(Err("e2")))).unwrap_err();
    assert!(matches!(error, TpmError::Open("e2")));
    assert_eq!(error.context(), "unable to open tcg2 protocol");

    let access: Access = TpmAccess::GetCapability { protocol: "tcg2" };
    let error = finished(access.step(TpmAnswer::Capability(Err("e3")))).unwrap_err();
    assert!(matches!(error, TpmError::Capability("e3")));
    assert_eq!(error.context(), "unable to get tcg2 boot service capability");
}

#[test]
fn access_ignores_other_answers() {
    let access: Access = PlatformTpm::protocol();
    let access = access.step(TpmAnswer::Opened(Ok("tcg2")));
    assert!(matches!(access, TpmAccess::FindHandle));
    let access = access.step(TpmAnswer::Found(Ok(None))).step(TpmAnswer::Found(Ok(Some(7))));
    assert!(finished(access).unwrap().is_none());
}

#[test]
fn handle_gives_out_its_protocol() {
    let mut handle = TpmProtocolHandle::new(version(1, 0), 4u32);
    *handle.protocol() += 1;
    assert_eq!(handle.protocol, 5);
    assert_eq!(handle.version(), version(1, 0));
}

#[test]
fn presence() {
    assert!(PlatformTpm::present(handle(1, 1)).unwrap());
    let none: Found = Ok(None);
    assert!(!PlatformTpm::present(none).unwrap());
    let failed: Found = Err(TpmError::Open("e"));
    assert!(matches!(PlatformTpm::present(failed), Err(TpmError::Open("e"))));
}

#[test]
fn bank_query_depends_on_version() {
    for (major, minor, asks) in
        [(0, 0, false), (0, 9, false), (1, 0, false), (1, 1, true), (1, 2, true), (2, 0, true)]
    {
        match PlatformTpm::active_pcr_banks(handle(major, minor)) {
            BankQuery::GetActivePcrBanks { .. } => assert!(asks),
            BankQuery::Finished { banks } => {
                assert!(!asks);
                assert_eq!(banks.unwrap(), 0);
            }
        }
    }
}

#[test]
fn bank_query_counts_banks() {
    let query = PlatformTpm::active_pcr_banks(handle(1, 1)).step(Ok(0b1_0110));
    match query {
        BankQuery::Finished { banks } => assert_eq!(banks.unwrap(), 3),
        other => panic!("not finished: {:?}", other),
    }
    assert_eq!(count_banks(0), 0);
    assert_eq!(count_banks(1), 1);
    assert_eq!(count_banks(0x8000_0000), 1);
    assert_eq!(count_banks(u32::MAX), 32);
}

#[test]
fn bank_query_without_tpm_and_failures() {
    let none: Found = Ok(None);
    match PlatformTpm::active_pcr_banks(none) {
        BankQuery::Finished { banks } => assert_eq!(banks.unwrap(), 0),
        other => panic!("not finished: {:?}", other),
    }
    let failed: Found = Err(TpmError::Presence("e"));
    match PlatformTpm::active_pcr_banks(failed).step(Ok(3)) {
        BankQuery::Finished { banks } => assert!(matches!(banks, Err(TpmError::Presence("e")))),
        other => panic!("not finished: {:?}", other),
    }
    match PlatformTpm::active_pcr_banks(handle(1, 1)).step(Err("e")) {
        BankQuery::Finished { banks: Err(error) } => {
            assert!(matches!(error, TpmError::ActiveBanks("e")));
            assert_eq!(error.context(), "unable to get active pcr banks");
        }
        other => panic!("not failed: {:?}", other),
    }
}

#[test]
fn logged_event_holds_its_arguments() {
    let log = PlatformTpm::log_event(
        handle(1, 1),
        PlatformTpm::PCR_KERNEL_PARAMETERS,
        b"console=hvc0",
        "sprout: dom0 cmdline \u{e9}",
    );
    match log {
        EventLog::HashLogExtendEvent { handle, flags, buffer, event } => {
            assert_eq!(handle.protocol, "tcg2");
            assert_eq!(flags, 0);
            assert_eq!(buffer, b"console=hvc0");
            let description = "sprout: dom0 cmdline \u{e9}".as_bytes();
            assert_eq!(core::mem::size_of_val(&*event), 18 + description.len());
            let same =
                PcrEventInputs::new_in_box(PcrIndex(12), EventType(0x0d), description).unwrap();
            assert!(*event == *same);
            for (pcr, kind, data) in [
                (11, 0x0d, description),
                (12, 0x0e, description),
                (12, 0x0d, &description[1..]),
            ] {
                let other = PcrEventInputs::new_in_box(PcrIndex(pcr), EventType(kind), data);
                assert!(*event != *other.unwrap());
            }
            let shown = format!("{:?}", event);
            assert!(shown.contains(&format!("size: {}", 18 + description.len())));
            assert!(shown.contains("header_size: 14"));
            assert!(shown.contains("header_version: 1"));
        }
        other => panic!("nothing to log: {:?}", other),
    }
}

#[test]
fn log_event_without_tpm_does_nothing() {
    let none: Found = Ok(None);
    let log = PlatformTpm::log_event(none, 5, b"data", "description");
    match log.step(Err("unused")) {
        EventLog::Finished { result } => assert!(result.is_ok()),
        other => panic!("not finished: {:?}", other),
    }
}

#[test]
fn log_event_failures() {
    let failed: Found = Err(TpmError::Capability("e"));
    match PlatformTpm::log_event(failed, 5, b"data", "description") {
        EventLog::Finished { result } => {
            assert!(matches!(result, Err(TpmError::Capability("e"))))
        }
        other => panic!("not finished: {:?}", other),
    }
    match PlatformTpm::log_event(handle(1, 1), 5, b"data", "description").step(Err("e")) {
        EventLog::Finished { result: Err(error) } => {
            assert!(matches!(error, TpmError::Log("e")));
            assert_eq!(error.context(), "unable to log event to tpm");
        }
        other => panic!("not failed: {:?}", other),
    }
    match PlatformTpm::log_event(handle(1, 1), 5, b"data", "description").step(Ok(())) {
        EventLog::Finished { result } => assert!(result.is_ok()),
        other => panic!("not finished: {:?}", other),
    }
    let log: EventLog<&str, &str> = EventLog::with_event(
        TpmProtocolHandle::new(version(1, 1), "tcg2"),
        b"data",
        Err(Status { code: 9 }),
    );
    match log {
        EventLog::Finished { result: Err(error) } => {
            assert!(matches!(error, TpmError::EventInputs(Status { code: 9 })));
            assert_eq!(error.context(), "unable to construct pcr event inputs");
        }
        other => panic!("not failed: {:?}", other),
    }
}

#[test]
fn pcr_numbers() {
    assert_eq!(PlatformTpm::PCR_BOOT_LOADER_CONFIG, 5);
    assert_eq!(PlatformTpm::PCR_INITRD, 9);
    assert_eq!(PlatformTpm::PCR_KERNEL, 11);
    assert_eq!(PlatformTpm::PCR_KERNEL_PARAMETERS, 12);
}
