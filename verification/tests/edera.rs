use sprout::edera::{
    edera, empty_is_none, read_loader_payload, register_media_loader_bytes, Edera, EderaAction,
    EderaAnswer, EderaConfiguration, LoaderRegistration, Media, PayloadAnswer, PayloadError, PayloadRead, Phase,
};

type Boot<'a> = Edera<'a, u32, &'static str>;
type Answer = EderaAnswer<u32, &'static str>;

fn configuration(initrd: Option<&str>) -> EderaConfiguration {
    EderaConfiguration {
        xen: "\\xen.efi".to_string(),
        xen_options: vec!["console=com1".to_string(), "dom0_mem=2G".to_string()],
        kernel: "\\vmlinuz".to_string(),
        kernel_options: vec!["root=/dev/sda".to_string()],
        initrd: initrd.map(|path| path.to_string()),
    }
}

/// A line that shows an action.
fn shown(action: &EderaAction) -> String {
    match action {
        EderaAction::CombineOptions { options } => format!("combine {}", options.join("|")),
        EderaAction::Measure { pcr_index, data, description } => {
            format!("measure {} {:?} {}", pcr_index, data, description)
        }
        EderaAction::BuildConfig { xen_opts, dom0_args } => {
            format!("build {}|{}", xen_opts, dom0_args)
        }
        EderaAction::RegisterLoader { media, data } => {
            format!("register {} {:?}", media.what(), data)
        }
        EderaAction::ReadPayload { what, path } => format!("read {} {}", what, path),
        EderaAction::Chainload { configuration } => format!(
            "chainload {} {} {:?}",
            configuration.path,
            configuration.options.len(),
            configuration.linux_initrd
        ),
        EderaAction::Finished => "finished".to_string(),
    }
}

/// The answer to an action where nothing fails.
fn answer(action: &EderaAction, initrd: &[u8]) -> Answer {
    match action {
        EderaAction::CombineOptions { options } => EderaAnswer::Text(options.join(" ")),
        EderaAction::Measure { .. } => EderaAnswer::Done,
        EderaAction::BuildConfig { .. } => EderaAnswer::Text("cfg".to_string()),
        EderaAction::RegisterLoader { media, .. } => EderaAnswer::Registered(match media {
            Media::Config => 1,
            Media::Kernel => 2,
            Media::Ramdisk => 3,
        }),
        EderaAction::ReadPayload { what: "kernel", .. } => EderaAnswer::Payload(vec![7, 8]),
        EderaAction::ReadPayload { .. } => EderaAnswer::Payload(initrd.to_vec()),
        EderaAction::Chainload { .. } => EderaAnswer::Done,
        EderaAction::Finished => panic!("nothing to answer"),
    }
}

/// Run a boot until the action with the given number, or to its end.
fn run<'a>(
    configuration: &'a EderaConfiguration,
    initrd: &[u8],
    until: usize,
) -> (Boot<'a>, Vec<String>) {
    let mut boot: Boot = edera(configuration);
    let mut lines = vec![];
    loop {
        let reply = {
            let action = boot.action();
            lines.push(shown(&action));
            if matches!(action, EderaAction::Finished) || lines.len() > until {
                break;
            }
            answer(&action, initrd)
        };
        boot.step(reply);
    }
    (boot, lines)
}

#[test]
fn boot_with_initrd() {
    let configuration = configuration(Some("\\initrd"));
    let (boot, lines) = run(&configuration, &[9], 100);
    assert_eq!(
        lines,
        vec![
            "combine console=com1|dom0_mem=2G".to_string(),
            "combine root=/dev/sda".to_string(),
            format!("measure 12 {:?} sprout: xen options", b"console=com1 dom0_mem=2G"),
            format!("measure 12 {:?} sprout: dom0 cmdline", b"root=/dev/sda"),
            "build console=com1 dom0_mem=2G|root=/dev/sda".to_string(),
            format!("register config {:?}", b"cfg"),
            "read kernel \\vmlinuz".to_string(),
            "measure 11 [7, 8] sprout: dom0 kernel".to_string(),
            "register kernel [7, 8]".to_string(),
            "read initrd \\initrd".to_string(),
            "measure 9 [9] sprout: dom0 initrd".to_string(),
            "register initrd [9]".to_string(),
            "chainload \\xen.efi 0 None".to_string(),
            "finished".to_string(),
        ]
    );
    assert!(boot.outcome().0.unwrap().is_ok());
}

#[test]
fn boot_without_initrd_measures_nothing_for_it() {
    for initrd in [None, Some("")] {
        let configuration = configuration(initrd);
        let (boot, lines) = run(&configuration, &[9], 100);
        assert_eq!(
            lines[9..].to_vec(),
            vec!["measure 9 [] sprout: dom0 initrd", "chainload \\xen.efi 0 None", "finished"]
        );
        assert!(boot.outcome().0.unwrap().is_ok());
    }
}

#[test]
fn boot_with_empty_initrd_file_does_not_register_it() {
    let configuration = configuration(Some("\\initrd"));
    let (boot, lines) = run(&configuration, &[], 100);
    assert_eq!(
        lines[9..].to_vec(),
        vec![
            "read initrd \\initrd",
            "measure 9 [] sprout: dom0 initrd",
            "chainload \\xen.efi 0 None",
            "finished"
        ]
    );
    assert!(boot.outcome().0.unwrap().is_ok());
}

#[test]
fn boot_failures_stop_at_once() {
    let contexts = [
        (2, Phase::MeasureXenOptions, Some("unable to measure xen options into the TPM")),
        (3, Phase::MeasureDom0Cmdline, Some("unable to measure dom0 cmdline into the TPM")),
        (5, Phase::RegisterConfig, Some("unable to register config media loader")),
        (6, Phase::ReadKernel, None),
        (7, Phase::MeasureKernel, Some("unable to measure dom0 kernel into the TPM")),
        (8, Phase::RegisterKernel, Some("unable to register kernel media loader")),
        (9, Phase::ReadInitrd, None),
        (10, Phase::MeasureInitrd, Some("unable to measure dom0 initrd into the TPM")),
        (11, Phase::RegisterInitrd, Some("unable to register initrd media loader")),
        (12, Phase::Chainload, Some("unable to chainload to xen")),
    ];
    let configuration = configuration(Some("\\initrd"));
    for (number, phase, context) in contexts {
        let (mut boot, _) = run(&configuration, &[9], number);
        boot.step(EderaAnswer::Failed("cause"));
        assert!(matches!(boot.action(), EderaAction::Finished));
        boot.step(EderaAnswer::Done);
        let error = boot.outcome().0.unwrap().unwrap_err();
        assert_eq!(error.phase, phase);
        assert_eq!(error.cause, "cause");
        assert_eq!(error.context(), context);
    }
}

#[test]
fn boot_ignores_answers_that_do_not_fit() {
    let configuration = configuration(None);
    for number in [0, 1, 4] {
        let (mut boot, lines) = run(&configuration, &[], number);
        boot.step(EderaAnswer::Failed("cause"));
        assert_eq!(shown(&boot.action()), lines[number]);
    }
    let (mut boot, lines) = run(&configuration, &[], 7);
    boot.step(EderaAnswer::Registered(5));
    assert_eq!(shown(&boot.action()), lines[7]);
    assert!(boot.outcome().0.is_none());
}

/// A media loader that notes its own dropping.
struct Loader<'a>(u32, &'a std::cell::RefCell<Vec<u32>>);

impl<'a> Drop for Loader<'a> {
    fn drop(&mut self) {
        self.1.borrow_mut().push(self.0);
    }
}

#[test]
fn loaders_are_held_until_the_boot_is_over() {
    let dropped = std::cell::RefCell::new(vec![]);
    let configuration = configuration(Some("\\initrd"));
    let mut boot: Edera<Loader, &str> = edera(&configuration);
    boot.step(EderaAnswer::Text("x".to_string()));
    boot.step(EderaAnswer::Text("d".to_string()));
    boot.step(EderaAnswer::Done);
    boot.step(EderaAnswer::Done);
    boot.step(EderaAnswer::Text("cfg".to_string()));
    boot.step(EderaAnswer::Registered(Loader(1, &dropped)));
    boot.step(EderaAnswer::Payload(vec![1]));
    boot.step(EderaAnswer::Done);
    boot.step(EderaAnswer::Registered(Loader(2, &dropped)));
    boot.step(EderaAnswer::Payload(vec![2]));
    boot.step(EderaAnswer::Done);
    boot.step(EderaAnswer::Registered(Loader(3, &dropped)));
    assert!(matches!(boot.action(), EderaAction::Chainload { .. }));
    boot.step(EderaAnswer::Done);
    let (outcome, loaders) = boot.outcome();
    assert!(outcome.unwrap().is_ok());
    assert!(dropped.borrow().is_empty());
    drop(loaders);
    assert_eq!(*dropped.borrow(), vec![1, 2, 3]);
}

#[test]
fn loaders_are_released_in_order() {
    let released: [(usize, Vec<u32>); 9] = [
        (3, vec![]),
        (5, vec![]),
        (6, vec![1]),
        (7, vec![1]),
        (8, vec![1]),
        // The latest goes first where the initrd could not be read or measured.
        (9, vec![2, 1]),
        (10, vec![2, 1]),
        (11, vec![1, 2]),
        (12, vec![1, 2, 3]),
    ];
    let configuration = configuration(Some("\\initrd"));
    for (number, expected) in released {
        let (mut boot, _) = run(&configuration, &[9], number);
        boot.step(EderaAnswer::Failed("cause"));
        let (outcome, loaders) = boot.outcome();
        assert!(outcome.unwrap().is_err());
        assert_eq!(loaders, expected);
    }
    let (boot, _) = run(&configuration, &[9], 100);
    assert_eq!(boot.outcome().1, vec![1, 2, 3]);
    let (boot, _) = run(&configuration, &[], 100);
    assert_eq!(boot.outcome().1, vec![1, 2]);
}

#[test]
fn payload_is_moved_out_for_registration_only() {
    let configuration = configuration(None);
    let (mut boot, _) = run(&configuration, &[], 7);
    assert_eq!(boot.take_payload(), Vec::<u8>::new());
    assert_eq!(shown(&boot.action()), "measure 11 [7, 8] sprout: dom0 kernel");
    boot.step(EderaAnswer::Done);
    assert_eq!(boot.take_payload(), vec![7, 8]);
    boot.step(EderaAnswer::Registered(2));
    assert_eq!(shown(&boot.action()), "measure 9 [] sprout: dom0 initrd");
}

#[test]
fn text_is_measured_as_utf8() {
    let configuration = configuration(None);
    let mut boot: Boot = edera(&configuration);
    boot.step(EderaAnswer::Text("\u{e9}\u{20ac}".to_string()));
    boot.step(EderaAnswer::Text(String::new()));
    match boot.action() {
        EderaAction::Measure { data, .. } => {
            assert_eq!(data, [0xc3, 0xa9, 0xe2, 0x82, 0xac]);
        }
        other => panic!("not a measurement: {:?}", other),
    }
}

#[test]
fn empty_text_is_none() {
    assert_eq!(empty_is_none(None), None);
    assert_eq!(empty_is_none(Some("")), None);
    assert_eq!(empty_is_none(Some(" ")), Some(" "));
    assert_eq!(empty_is_none(Some("a")), Some("a"));
}

#[test]
fn registration_hands_on_guid_and_bytes() {
    let registration: LoaderRegistration<u128, u32, &str> =
        register_media_loader_bytes(77, "kernel", vec![1, 2]);
    match registration {
        LoaderRegistration::Register { guid, what, bytes } => {
            assert_eq!((guid, what, bytes), (77, "kernel", vec![1, 2]));
        }
        other => panic!("nothing to register: {:?}", other),
    }
}

#[test]
fn registration_results() {
    let registration: LoaderRegistration<u128, u32, &str> =
        register_media_loader_bytes(77, "kernel", vec![1, 2]);
    // The first answer is the end of it.
    match registration.step(Ok(4)).step(Err("late")) {
        LoaderRegistration::Finished { loader } => assert_eq!(loader.unwrap(), 4),
        other => panic!("not finished: {:?}", other),
    }
    let registration: LoaderRegistration<u128, u32, &str> =
        register_media_loader_bytes(77, "kernel", vec![]);
    match registration.step(Err("cause")) {
        LoaderRegistration::Finished { loader: Err(error) } => {
            assert_eq!(error.cause, "cause");
            assert_eq!(error.context(), "unable to register kernel media loader");
        }
        other => panic!("not failed: {:?}", other),
    }
}

#[test]
fn payload_read_in_order() {
    let read: PayloadRead<u32, &str> = read_loader_payload("initrd", "\\$name");
    assert!(matches!(read, PayloadRead::StampPath { what: "initrd", unstamped: "\\$name" }));
    let read = read.step(PayloadAnswer::Stamped("\\initrd".to_string()));
    assert!(matches!(&read, PayloadRead::GetImagePath { path, .. } if path == "\\initrd"));
    let read = read.step(PayloadAnswer::ImagePath(Ok(3)));
    assert!(matches!(&read, PayloadRead::ReadFile { image: 3, path, .. } if path == "\\initrd"));
    match read.step(PayloadAnswer::Contents(Ok(vec![1, 2]))) {
        PayloadRead::Finished { contents } => assert_eq!(contents.unwrap(), vec![1, 2]),
        other => panic!("not finished: {:?}", other),
    }
}

#[test]
fn payload_read_failures() {
    let read: PayloadRead<u32, &str> =
        PayloadRead::GetImagePath { what: "kernel", path: "p".to_string() };
    match read.step(PayloadAnswer::ImagePath(Err("cause"))) {
        PayloadRead::Finished { contents: Err(error) } => {
            assert!(matches!(error, PayloadError::ImagePath { cause: "cause" }));
            assert_eq!(error.context(), None);
        }
        other => panic!("not failed: {:?}", other),
    }
    let read: PayloadRead<u32, &str> =
        PayloadRead::ReadFile { what: "kernel", image: 3, path: "p".to_string() };
    match read.step(PayloadAnswer::Contents(Err("cause"))) {
        PayloadRead::Finished { contents: Err(error) } => {
            assert!(matches!(error, PayloadError::Read { what: "kernel", cause: "cause" }));
            assert_eq!(error.context(), Some("unable to read kernel file".to_string()));
        }
        other => panic!("not failed: {:?}", other),
    }
    let read: PayloadRead<u32, &str> = read_loader_payload("kernel", "p");
    assert!(matches!(
        read.step(PayloadAnswer::Contents(Ok(vec![]))),
        PayloadRead::StampPath { .. }
    ));
}
