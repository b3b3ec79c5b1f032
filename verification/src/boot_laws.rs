//! What holds of every boot of the Edera hypervisor.
use crate::edera::{
    nonempty, released_in_reverse, ConfigurationView, EderaAnswer, EderaConfiguration, EderaError,
    EderaRequest, EderaState, LoaderRegistration, Media, PayloadAnswer, PayloadError, PayloadRead,
    Phase, RegisterError,
};
use crate::tpm::PlatformTpm;
use vstd::prelude::*;
use vstd::utf8::encode_utf8;

verus! {

/// The state of a boot after a sequence of answers.
pub open spec fn play<L, E>(
    state: EderaState<L, E>,
    answers: Seq<EderaAnswer<L, E>>,
) -> EderaState<L, E>
    decreases answers.len(),
{
    if answers.len() == 0 {
        state
    } else {
        play(state, answers.drop_last()).next(answers.last())
    }
}

/// What the outside work of a boot brings where nothing fails.
pub struct Replies<L> {
    pub xen_opts: String,
    pub dom0_args: String,
    pub config: String,
    pub config_loader: L,
    pub kernel: Vec<u8>,
    pub kernel_loader: L,
    pub initrd: Vec<u8>,
    pub initrd_loader: L,
}

/// The initrd of a boot: the contents of the file, and no bytes where none is configured.
pub open spec fn initrd_bytes<L>(configuration: ConfigurationView, replies: Replies<L>) -> Seq<u8> {
    if nonempty(configuration.initrd) is Some {
        replies.initrd@
    } else {
        Seq::empty()
    }
}

/// The part of a session up to the dom0 kernel.
pub open spec fn kernel_session<L, E>(
    configuration: ConfigurationView,
    replies: Replies<L>,
) -> Seq<(EderaRequest, EderaAnswer<L, E>)> {
    seq![
        (
            EderaRequest::CombineOptions { options: configuration.xen_options },
            EderaAnswer::Text(replies.xen_opts),
        ),
        (
            EderaRequest::CombineOptions { options: configuration.kernel_options },
            EderaAnswer::Text(replies.dom0_args),
        ),
        (
            EderaRequest::Measure {
                pcr_index: PlatformTpm::PCR_KERNEL_PARAMETERS,
                data: encode_utf8(replies.xen_opts@),
                description: "sprout: xen options"@,
            },
            EderaAnswer::Done,
        ),
        (
            EderaRequest::Measure {
                pcr_index: PlatformTpm::PCR_KERNEL_PARAMETERS,
                data: encode_utf8(replies.dom0_args@),
                description: "sprout: dom0 cmdline"@,
            },
            EderaAnswer::Done,
        ),
        (
            EderaRequest::BuildConfig {
                xen_opts: replies.xen_opts@,
                dom0_args: replies.dom0_args@,
            },
            EderaAnswer::Text(replies.config),
        ),
        (
            EderaRequest::RegisterLoader {
                media: Media::Config,
                data: encode_utf8(replies.config@),
            },
            EderaAnswer::Registered(replies.config_loader),
        ),
        (
            EderaRequest::ReadPayload { what: "kernel"@, path: configuration.kernel },
            EderaAnswer::Payload(replies.kernel),
        ),
        (
            EderaRequest::Measure {
                pcr_index: PlatformTpm::PCR_KERNEL,
                data: replies.kernel@,
                description: "sprout: dom0 kernel"@,
            },
            EderaAnswer::Done,
        ),
        (
            EderaRequest::RegisterLoader { media: Media::Kernel, data: replies.kernel@ },
            EderaAnswer::Registered(replies.kernel_loader),
        ),
    ]
}

/// The reading of the initrd, where one is configured.
pub open spec fn initrd_read_session<L, E>(
    configuration: ConfigurationView,
    replies: Replies<L>,
) -> Seq<(EderaRequest, EderaAnswer<L, E>)> {
    match nonempty(configuration.initrd) {
        Some(path) => seq![
            (
                EderaRequest::ReadPayload { what: "initrd"@, path },
                EderaAnswer::Payload(replies.initrd),
            ),
        ],
        None => Seq::empty(),
    }
}

/// The measurement of the initrd, which is made with or without one.
pub open spec fn initrd_measure_session<L, E>(
    configuration: ConfigurationView,
    replies: Replies<L>,
) -> Seq<(EderaRequest, EderaAnswer<L, E>)> {
    seq![
        (
            EderaRequest::Measure {
                pcr_index: PlatformTpm::PCR_INITRD,
                data: initrd_bytes(configuration, replies),
                description: "sprout: dom0 initrd"@,
            },
            EderaAnswer::Done,
        ),
    ]
}

/// The registration of the initrd, where there is something in it.
pub open spec fn initrd_register_session<L, E>(
    configuration: ConfigurationView,
    replies: Replies<L>,
) -> Seq<(EderaRequest, EderaAnswer<L, E>)> {
    if initrd_bytes(configuration, replies).len() > 0 {
        seq![
            (
                EderaRequest::RegisterLoader {
                    media: Media::Ramdisk,
                    data: initrd_bytes(configuration, replies),
                },
                EderaAnswer::Registered(replies.initrd_loader),
            ),
        ]
    } else {
        Seq::empty()
    }
}

/// The chainload to the Xen EFI stub, which is given neither options nor an initrd.
pub open spec fn chainload_session<L, E>(configuration: ConfigurationView) -> Seq<
    (EderaRequest, EderaAnswer<L, E>),
> {
    seq![
        (
            EderaRequest::Chainload {
                path: configuration.xen,
                options: Seq::empty(),
                linux_initrd: None,
            },
            EderaAnswer::Done,
        ),
    ]
}

/// A whole boot in which nothing fails: the outside work that is asked for, in its order, each
/// with its answer.
pub open spec fn session<L, E>(configuration: ConfigurationView, replies: Replies<L>) -> Seq<
    (EderaRequest, EderaAnswer<L, E>),
> {
    kernel_session(configuration, replies) + initrd_read_session(configuration, replies)
        + initrd_measure_session(configuration, replies) + initrd_register_session(
        configuration,
        replies,
    ) + chainload_session(configuration)
}

/// The media loaders that the Xen EFI stub finds when it is chainloaded to.
pub open spec fn session_loaders<L>(configuration: ConfigurationView, replies: Replies<L>) -> Seq<
    L,
> {
    if initrd_bytes(configuration, replies).len() > 0 {
        seq![replies.config_loader, replies.kernel_loader, replies.initrd_loader]
    } else {
        seq![replies.config_loader, replies.kernel_loader]
    }
}

/// The state of a boot after the first `count` answers of a session.
pub open spec fn session_state<L, E>(
    configuration: ConfigurationView,
    replies: Replies<L>,
    count: int,
) -> EderaState<L, E> {
    play(
        EderaState::start(configuration),
        session(configuration, replies).take(count).map_values(
            |entry: (EderaRequest, EderaAnswer<L, E>)| entry.1,
        ),
    )
}

/// One more answer of a session is one more step.
proof fn lemma_session_step<L, E>(
    configuration: ConfigurationView,
    replies: Replies<L>,
    count: int,
)
    requires
        0 <= count < session::<L, E>(configuration, replies).len(),
    ensures
        session_state::<L, E>(configuration, replies, count + 1) == session_state::<L, E>(
            configuration,
            replies,
            count,
        ).next(session::<L, E>(configuration, replies)[count].1),
{
    let answer = |entry: (EderaRequest, EderaAnswer<L, E>)| entry.1;
    let talk = session::<L, E>(configuration, replies);
    let longer = talk.take(count + 1).map_values(answer);
    assert(longer.drop_last() =~= talk.take(count).map_values(answer));
    assert(longer.last() == talk[count].1);
}

/// The state in which the dom0 kernel is registered and the initrd comes next.
proof fn lemma_kernel_session<L, E>(configuration: ConfigurationView, replies: Replies<L>)
    ensures
        forall|count: int|
            0 <= count < 9 ==> (#[trigger] session_state::<L, E>(
                configuration,
                replies,
                count,
            )).request() == Some(session::<L, E>(configuration, replies)[count].0),
        session_state::<L, E>(configuration, replies, 9) == (EderaState::<L, E> {
            configuration,
            phase: if nonempty(configuration.initrd) is Some {
                Phase::ReadInitrd
            } else {
                Phase::MeasureInitrd
            },
            xen_opts: replies.xen_opts@,
            dom0_args: replies.dom0_args@,
            payload: Seq::empty(),
            loaders: seq![replies.config_loader, replies.kernel_loader],
            released: Seq::empty(),
            outcome: None,
        }),
{
    let talk = session::<L, E>(configuration, replies);
    let head = kernel_session::<L, E>(configuration, replies);
    assert(forall|i: int| 0 <= i < 9 ==> talk[i] == head[i]);
    lemma_session_step::<L, E>(configuration, replies, 0);
    lemma_session_step::<L, E>(configuration, replies, 1);
    lemma_session_step::<L, E>(configuration, replies, 2);
    lemma_session_step::<L, E>(configuration, replies, 3);
    lemma_session_step::<L, E>(configuration, replies, 4);
    lemma_session_step::<L, E>(configuration, replies, 5);
    lemma_session_step::<L, E>(configuration, replies, 6);
    lemma_session_step::<L, E>(configuration, replies, 7);
    lemma_session_step::<L, E>(configuration, replies, 8);
    let loaders = session_state::<L, E>(configuration, replies, 9).loaders;
    assert(loaders =~= seq![replies.config_loader, replies.kernel_loader]);
}

/// A boot in which nothing fails asks for the outside work of its session, all of it, in that
/// order and no more, and ends well. While the Xen EFI stub runs, the media loaders of the
/// configuration, the kernel and a nonempty initrd are registered; afterwards they are unregistered,
/// in the order in which they were registered.
pub proof fn law_boot<L, E>(configuration: ConfigurationView, replies: Replies<L>)
    ensures
        ({
            let talk = session::<L, E>(configuration, replies);
            &&& forall|count: int|
                0 <= count < talk.len() ==> (#[trigger] session_state::<L, E>(
                    configuration,
                    replies,
                    count,
                )).request() == Some(talk[count].0)
            &&& session_state::<L, E>(configuration, replies, talk.len() - 1).loaders
                == session_loaders(configuration, replies)
            &&& session_state::<L, E>(configuration, replies, talk.len() as int).request() is None
            &&& session_state::<L, E>(configuration, replies, talk.len() as int).outcome == Some(
                Ok::<(), EderaError<E>>(()),
            )
            &&& session_state::<L, E>(configuration, replies, talk.len() as int).loaders
                == Seq::<L>::empty()
            &&& session_state::<L, E>(configuration, replies, talk.len() as int).released
                == session_loaders(configuration, replies)
        }),
{
    let talk = session::<L, E>(configuration, replies);
    let read = initrd_read_session::<L, E>(configuration, replies).len() as int;
    let register = initrd_register_session::<L, E>(configuration, replies).len() as int;
    assert(talk.len() == 11 + read + register);
    lemma_kernel_session::<L, E>(configuration, replies);
    if read == 1 {
        assert(talk[9] == initrd_read_session::<L, E>(configuration, replies)[0]);
        lemma_session_step::<L, E>(configuration, replies, 9);
    }
    assert(talk[9 + read] == initrd_measure_session::<L, E>(configuration, replies)[0]);
    lemma_session_step::<L, E>(configuration, replies, 9 + read);
    if register == 1 {
        assert(talk[10 + read] == initrd_register_session::<L, E>(configuration, replies)[0]);
        lemma_session_step::<L, E>(configuration, replies, 10 + read);
    }
    assert(talk[10 + read + register] == chainload_session::<L, E>(configuration)[0]);
    lemma_session_step::<L, E>(configuration, replies, 10 + read + register);
    let before = session_state::<L, E>(configuration, replies, 10 + read + register);
    assert(before.loaders =~= session_loaders(configuration, replies));
    assert forall|count: int| 0 <= count < talk.len() implies (#[trigger] session_state::<L, E>(
        configuration,
        replies,
        count,
    )).request() == Some(talk[count].0) by {
        if count >= 9 {
            assert(count == 9 || count == 10 || count == 11 || count == 12);
        }
    }
}

/// A boot of any configuration, up to the registration of the dom0 kernel, where nothing fails:
/// * the options to combine are those of the configuration, one for one;
/// * the two combined texts are measured into PCR 12, the Xen options first;
/// * the Xen configuration is built from the same two texts, and registered as it was built;
/// * the kernel at the path of the configuration is read, and the bytes that were read are measured
///   into PCR 11 and then registered.
pub proof fn law_kernel_is_handed_to_xen<L, E>(
    configuration: EderaConfiguration,
    xen_opts: String,
    dom0_args: String,
    config: String,
    config_loader: L,
    kernel: Vec<u8>,
)
    ensures
        ({
            let combine = EderaState::<L, E>::start(configuration@);
            let combine2 = combine.next(EderaAnswer::Text(xen_opts));
            let measure = combine2.next(EderaAnswer::Text(dom0_args));
            let measure2 = measure.next(EderaAnswer::Done);
            let build = measure2.next(EderaAnswer::Done);
            let register = build.next(EderaAnswer::Text(config));
            let read = register.next(EderaAnswer::Registered(config_loader));
            let measure3 = read.next(EderaAnswer::Payload(kernel));
            let register2 = measure3.next(EderaAnswer::Done);
            &&& combine.request() matches Some(EderaRequest::CombineOptions { options })
                && options.len() == configuration.xen_options@.len() && forall|i: int|
                0 <= i < options.len() ==> #[trigger] options[i] == configuration.xen_options@[i]@
            &&& combine2.request() matches Some(EderaRequest::CombineOptions { options })
                && options.len() == configuration.kernel_options@.len() && forall|i: int|
                0 <= i < options.len() ==> #[trigger] options[i]
                    == configuration.kernel_options@[i]@
            &&& measure.request() == Some(
                EderaRequest::Measure {
                    pcr_index: 12,
                    data: encode_utf8(xen_opts@),
                    description: "sprout: xen options"@,
                },
            )
            &&& measure2.request() == Some(
                EderaRequest::Measure {
                    pcr_index: 12,
                    data: encode_utf8(dom0_args@),
                    description: "sprout: dom0 cmdline"@,
                },
            )
            &&& build.request() == Some(
                EderaRequest::BuildConfig { xen_opts: xen_opts@, dom0_args: dom0_args@ },
            )
            &&& register.request() == Some(
                EderaRequest::RegisterLoader { media: Media::Config, data: encode_utf8(config@) },
            )
            &&& read.request() == Some(
                EderaRequest::ReadPayload { what: "kernel"@, path: configuration.kernel@ },
            )
            &&& measure3.request() == Some(
                EderaRequest::Measure {
                    pcr_index: 11,
                    data: kernel@,
                    description: "sprout: dom0 kernel"@,
                },
            )
            &&& register2.request() == Some(
                EderaRequest::RegisterLoader { media: Media::Kernel, data: kernel@ },
            )
            &&& measure.phase is MeasureXenOptions
            &&& measure2.phase is MeasureDom0Cmdline
            &&& register.phase is RegisterConfig
            &&& read.phase is ReadKernel
            &&& measure3.phase is MeasureKernel
            &&& register2.phase is RegisterKernel
            &&& register2.configuration == configuration@
            &&& register2.loaders == seq![config_loader]
            &&& register2.outcome is None
        }),
{
    let start = EderaState::<L, E>::start(configuration@);
    let loaders = start.loaders.push(config_loader);
    assert(loaders =~= seq![config_loader]);
}

/// Where the configuration has a path for the initrd, of any length but zero, then once the kernel is
/// registered, the file at that path is read. The bytes that were read, whatever they are, are
/// measured into PCR 9 and, where there are any, registered for Xen before the chainload.
pub proof fn law_configured_initrd_is_handed_to_xen<L, E>(
    configuration: EderaConfiguration,
    state: EderaState<L, E>,
    kernel_loader: L,
    initrd: Vec<u8>,
    initrd_loader: L,
)
    requires
        configuration.initrd matches Some(path) && path@.len() > 0,
        state.configuration == configuration@,
        state.request() matches Some(EderaRequest::RegisterLoader { media: Media::Kernel, .. }),
    ensures
        ({
            let read = state.next(EderaAnswer::Registered(kernel_loader));
            let measure = read.next(EderaAnswer::Payload(initrd));
            let measured = measure.next(EderaAnswer::Done);
            let chainload = if initrd@.len() > 0 {
                measured.next(EderaAnswer::Registered(initrd_loader))
            } else {
                measured
            };
            &&& read.request() == Some(
                EderaRequest::ReadPayload { what: "initrd"@, path: configuration.initrd->0@ },
            )
            &&& measure.request() == Some(
                EderaRequest::Measure {
                    pcr_index: 9,
                    data: initrd@,
                    description: "sprout: dom0 initrd"@,
                },
            )
            &&& initrd@.len() > 0 ==> measured.request() == Some(
                EderaRequest::RegisterLoader { media: Media::Ramdisk, data: initrd@ },
            )
            &&& chainload.request() matches Some(
                EderaRequest::Chainload { path, options, linux_initrd },
            ) && path == configuration.xen@ && options.len() == 0 && linux_initrd is None
            &&& read.phase is ReadInitrd
            &&& measure.phase is MeasureInitrd
            &&& initrd@.len() > 0 ==> measured.phase is RegisterInitrd
            &&& chainload.phase is Chainload
            &&& read.loaders == state.loaders.push(kernel_loader)
            &&& chainload.loaders == if initrd@.len() > 0 {
                state.loaders.push(kernel_loader).push(initrd_loader)
            } else {
                state.loaders.push(kernel_loader)
            }
        }),
{
}

/// Where the configuration has no path for the initrd, or an empty one, then once the kernel is
/// registered, no bytes at all are measured into PCR 9, nothing is read or registered, and the
/// chainload comes next.
pub proof fn law_no_initrd_configured<L, E>(
    configuration: EderaConfiguration,
    state: EderaState<L, E>,
    kernel_loader: L,
)
    requires
        configuration.initrd matches Some(path) ==> path@.len() == 0,
        state.configuration == configuration@,
        state.request() matches Some(EderaRequest::RegisterLoader { media: Media::Kernel, .. }),
    ensures
        ({
            let measure = state.next(EderaAnswer::Registered(kernel_loader));
            let chainload = measure.next(EderaAnswer::Done);
            &&& measure.request() == Some(
                EderaRequest::Measure {
                    pcr_index: 9,
                    data: Seq::<u8>::empty(),
                    description: "sprout: dom0 initrd"@,
                },
            )
            &&& chainload.request() matches Some(
                EderaRequest::Chainload { path, options, linux_initrd },
            ) && path == configuration.xen@ && options.len() == 0 && linux_initrd is None
            &&& measure.phase is MeasureInitrd
            &&& chainload.phase is Chainload
            &&& chainload.loaders == state.loaders.push(kernel_loader)
        }),
{
}

/// Once the chainloaded image has returned, the boot is over and went well, nothing more is asked
/// for, and the media loaders are unregistered in the order in which they were registered.
pub proof fn law_chainload_ends_boot<L, E>(state: EderaState<L, E>)
    requires
        state.request() matches Some(EderaRequest::Chainload { .. }),
    ensures
        state.next(EderaAnswer::Done).request() is None,
        state.next(EderaAnswer::Done).outcome == Some(Ok::<(), EderaError<E>>(())),
        state.next(EderaAnswer::Done).loaders == Seq::<L>::empty(),
        state.next(EderaAnswer::Done).released == state.loaders,
{
}

/// Every measurement, registration, reading and chainload can fail, and its failure ends the boot at
/// once: nothing more is asked for, the outcome names the stage and the cause, and the media loaders
/// are unregistered, the latest first where the initrd could not be read or measured, and the
/// earliest first otherwise. Combining options and building the configuration cannot fail.
pub proof fn law_every_failure_ends_boot<L, E>(state: EderaState<L, E>, cause: E)
    ensures
        ({
            let after = state.next(EderaAnswer::Failed(cause));
            match state.request() {
                Some(EderaRequest::CombineOptions { .. }) => after == state,
                Some(EderaRequest::BuildConfig { .. }) => after == state,
                None => after == state,
                Some(_) => {
                    &&& after.request() is None
                    &&& after.outcome == Some(
                        Err::<(), EderaError<E>>(EderaError { phase: state.phase, cause }),
                    )
                    &&& after.loaders == Seq::<L>::empty()
                    &&& after.released.len() == state.loaders.len()
                    &&& forall|i: int|
                        0 <= i < state.loaders.len() ==> #[trigger] after.released[i] == if (
                        state.phase is ReadInitrd || state.phase is MeasureInitrd) {
                            state.loaders[state.loaders.len() - 1 - i]
                        } else {
                            state.loaders[i]
                        }
                },
            }
        }),
{
}

/// An answer that does not fit the work that a boot waits for changes nothing.
pub proof fn law_other_answers_change_nothing<L, E>(
    state: EderaState<L, E>,
    answer: EderaAnswer<L, E>,
)
    requires
        !(answer is Failed),
        !(answer is Text && (state.request() matches Some(EderaRequest::CombineOptions { .. }))),
        !(answer is Text && (state.request() matches Some(EderaRequest::BuildConfig { .. }))),
        !(answer is Done && (state.request() matches Some(EderaRequest::Measure { .. }))),
        !(answer is Done && (state.request() matches Some(EderaRequest::Chainload { .. }))),
        !(answer is Registered && (state.request() matches Some(
            EderaRequest::RegisterLoader { .. },
        ))),
        !(answer is Payload && (state.request() matches Some(EderaRequest::ReadPayload { .. }))),
    ensures
        state.next(answer) == state,
{
}

/// The measurements that are made in a run, in their order: the PCR and the data of each.
pub open spec fn measured<L, E>(
    state: EderaState<L, E>,
    answers: Seq<EderaAnswer<L, E>>,
) -> Seq<(u32, Seq<u8>)>
    decreases answers.len(),
{
    if answers.len() == 0 {
        Seq::empty()
    } else {
        let earlier = measured(state, answers.drop_last());
        match (play(state, answers.drop_last()).request(), answers.last()) {
            (
                Some(EderaRequest::Measure { pcr_index, data, .. }),
                EderaAnswer::Done,
            ) => earlier.push((pcr_index, data)),
            _ => earlier,
        }
    }
}

/// The registrations of media loaders that are made in a run, in their order: the file and the
/// data of each.
pub open spec fn registered<L, E>(
    state: EderaState<L, E>,
    answers: Seq<EderaAnswer<L, E>>,
) -> Seq<(Media, Seq<u8>)>
    decreases answers.len(),
{
    if answers.len() == 0 {
        Seq::empty()
    } else {
        let earlier = registered(state, answers.drop_last());
        match (play(state, answers.drop_last()).request(), answers.last()) {
            (
                Some(EderaRequest::RegisterLoader { media, data }),
                EderaAnswer::Registered(_),
            ) => earlier.push((media, data)),
            _ => earlier,
        }
    }
}

/// The descriptions of the measurements that are made in a run, in their order.
pub open spec fn described<L, E>(
    state: EderaState<L, E>,
    answers: Seq<EderaAnswer<L, E>>,
) -> Seq<Seq<char>>
    decreases answers.len(),
{
    if answers.len() == 0 {
        Seq::empty()
    } else {
        let earlier = described(state, answers.drop_last());
        match (play(state, answers.drop_last()).request(), answers.last()) {
            (
                Some(EderaRequest::Measure { description, .. }),
                EderaAnswer::Done,
            ) => earlier.push(description),
            _ => earlier,
        }
    }
}

/// The media loaders that are handed in by the registrations of a run, in their order.
pub open spec fn handed_loaders<L, E>(
    state: EderaState<L, E>,
    answers: Seq<EderaAnswer<L, E>>,
) -> Seq<L>
    decreases answers.len(),
{
    if answers.len() == 0 {
        Seq::empty()
    } else {
        let earlier = handed_loaders(state, answers.drop_last());
        match (play(state, answers.drop_last()).request(), answers.last()) {
            (
                Some(EderaRequest::RegisterLoader { .. }),
                EderaAnswer::Registered(loader),
            ) => earlier.push(loader),
            _ => earlier,
        }
    }
}

/// The texts that are handed in by combining options and building the configuration in a run, in
/// their order: the Xen options, the dom0 command line, the Xen configuration.
pub open spec fn handed_texts<L, E>(
    state: EderaState<L, E>,
    answers: Seq<EderaAnswer<L, E>>,
) -> Seq<Seq<char>>
    decreases answers.len(),
{
    if answers.len() == 0 {
        Seq::empty()
    } else {
        let earlier = handed_texts(state, answers.drop_last());
        match (play(state, answers.drop_last()).request(), answers.last()) {
            (
                Some(EderaRequest::CombineOptions { .. }),
                EderaAnswer::Text(text),
            ) => earlier.push(text@),
            (Some(EderaRequest::BuildConfig { .. }), EderaAnswer::Text(text)) => earlier.push(
                text@,
            ),
            _ => earlier,
        }
    }
}

/// The contents of the files that are read in a run, in their order: the kernel, the initrd.
pub open spec fn handed_payloads<L, E>(
    state: EderaState<L, E>,
    answers: Seq<EderaAnswer<L, E>>,
) -> Seq<Seq<u8>>
    decreases answers.len(),
{
    if answers.len() == 0 {
        Seq::empty()
    } else {
        let earlier = handed_payloads(state, answers.drop_last());
        match (play(state, answers.drop_last()).request(), answers.last()) {
            (
                Some(EderaRequest::ReadPayload { .. }),
                EderaAnswer::Payload(bytes),
            ) => earlier.push(bytes@),
            _ => earlier,
        }
    }
}

/// The descriptions of the measurements of a whole boot.
pub open spec fn measurement_descriptions() -> Seq<Seq<char>> {
    seq![
        "sprout: xen options"@,
        "sprout: dom0 cmdline"@,
        "sprout: dom0 kernel"@,
        "sprout: dom0 initrd"@,
    ]
}

/// The measurements so far stand in the fixed order: the Xen options and the dom0 command line as
/// they were combined, the kernel as it was read, and the initrd as it was read, or no bytes
/// where none is configured.
pub open spec fn measured_in_order(
    configuration: ConfigurationView,
    measured: Seq<(u32, Seq<u8>)>,
    texts: Seq<Seq<char>>,
    payloads: Seq<Seq<u8>>,
) -> bool {
    &&& measured.len() <= 4
    &&& measured.len() > 0 ==> texts.len() >= 2 && measured[0] == (
        PlatformTpm::PCR_KERNEL_PARAMETERS,
        encode_utf8(texts[0]),
    )
    &&& measured.len() > 1 ==> measured[1] == (
        PlatformTpm::PCR_KERNEL_PARAMETERS,
        encode_utf8(texts[1]),
    )
    &&& measured.len() > 2 ==> payloads.len() >= 1 && measured[2] == (
        PlatformTpm::PCR_KERNEL,
        payloads[0],
    )
    &&& measured.len() > 3 ==> measured[3] == (
        PlatformTpm::PCR_INITRD,
        if nonempty(configuration.initrd) is Some {
            payloads[1]
        } else {
            Seq::empty()
        },
    )
    &&& measured.len() > 3 && nonempty(configuration.initrd) is Some ==> payloads.len() == 2
}

/// The registrations so far stand in the fixed order: the configuration as it was built, and of
/// the kernel and the initrd exactly those bytes that were measured before. An empty initrd is
/// not registered.
pub open spec fn registered_as_measured(
    registered: Seq<(Media, Seq<u8>)>,
    measured: Seq<(u32, Seq<u8>)>,
    texts: Seq<Seq<char>>,
) -> bool {
    &&& registered.len() <= 3
    &&& registered.len() > 0 ==> measured.len() >= 2 && texts.len() == 3 && registered[0] == (
        Media::Config,
        encode_utf8(texts[2]),
    )
    &&& registered.len() > 1 ==> measured.len() >= 3 && registered[1] == (
        Media::Kernel,
        measured[2].1,
    )
    &&& registered.len() > 2 ==> measured.len() >= 4 && registered[2] == (
        Media::Ramdisk,
        measured[3].1,
    ) && measured[3].1.len() > 0
}

/// Everything that the Xen EFI stub is to find is measured and registered.
pub open spec fn ready_for_xen(
    registered: Seq<(Media, Seq<u8>)>,
    measured: Seq<(u32, Seq<u8>)>,
) -> bool {
    &&& measured.len() == 4
    &&& registered.len() == if measured[3].1.len() > 0 {
        3int
    } else {
        2int
    }
}

/// The number of measurements that are made before a stage.
spec fn measured_before(phase: Phase) -> int {
    match phase {
        Phase::CombineXenOptions | Phase::CombineKernelOptions | Phase::MeasureXenOptions => 0,
        Phase::MeasureDom0Cmdline => 1,
        Phase::BuildConfig | Phase::RegisterConfig | Phase::ReadKernel | Phase::MeasureKernel => 2,
        Phase::RegisterKernel | Phase::ReadInitrd | Phase::MeasureInitrd => 3,
        Phase::RegisterInitrd | Phase::Chainload | Phase::Finished => 4,
    }
}

/// The number of registrations that are made before a stage, but for the chainload.
spec fn registered_before(phase: Phase) -> int {
    match phase {
        Phase::ReadKernel | Phase::MeasureKernel | Phase::RegisterKernel => 1,
        Phase::ReadInitrd | Phase::MeasureInitrd | Phase::RegisterInitrd => 2,
        _ => 0,
    }
}

/// The number of texts that are handed in before a stage.
spec fn texts_before(phase: Phase) -> int {
    match phase {
        Phase::CombineXenOptions => 0,
        Phase::CombineKernelOptions => 1,
        Phase::MeasureXenOptions | Phase::MeasureDom0Cmdline | Phase::BuildConfig => 2,
        _ => 3,
    }
}

/// The number of files that are read before a stage.
spec fn payloads_before(configuration: ConfigurationView, phase: Phase) -> int {
    match phase {
        Phase::MeasureKernel | Phase::RegisterKernel | Phase::ReadInitrd => 1,
        Phase::MeasureInitrd | Phase::RegisterInitrd | Phase::Chainload => if nonempty(
            configuration.initrd,
        ) is Some {
            2
        } else {
            1
        },
        _ => 0,
    }
}

/// What relates the state of a run to what was done in it.
spec fn run_invariant<L, E>(
    configuration: ConfigurationView,
    answers: Seq<EderaAnswer<L, E>>,
) -> bool {
    let start = EderaState::<L, E>::start(configuration);
    let state = play(start, answers);
    let measured = measured(start, answers);
    let described = described(start, answers);
    let registered = registered(start, answers);
    let loaders = handed_loaders(start, answers);
    let texts = handed_texts(start, answers);
    let payloads = handed_payloads(start, answers);
    &&& state.configuration == configuration
    &&& measured_in_order(configuration, measured, texts, payloads)
    &&& registered_as_measured(registered, measured, texts)
    &&& described.len() == measured.len()
    &&& forall|i: int|
        0 <= i < described.len() ==> #[trigger] described[i] == measurement_descriptions()[i]
    &&& loaders.len() == registered.len()
    &&& state.outcome is Some <==> state.phase is Finished
    &&& texts.len() > 0 ==> state.xen_opts == texts[0]
    &&& texts.len() > 1 ==> state.dom0_args == texts[1]
    &&& state.phase is Finished ==> state.loaders.len() == 0 && state.released == if
        released_in_reverse(state.outcome->0) {
        loaders.reverse()
    } else {
        loaders
    }
    &&& !(state.phase is Finished) ==> {
        &&& state.loaders == loaders
        &&& state.released.len() == 0
        &&& measured.len() == measured_before(state.phase)
        &&& texts.len() == texts_before(state.phase)
        &&& payloads.len() == payloads_before(configuration, state.phase)
    }
    &&& !(state.phase is Finished || state.phase is Chainload) ==> registered.len()
        == registered_before(state.phase)
    &&& state.phase is RegisterConfig ==> state.payload == encode_utf8(texts[2])
    &&& (state.phase is MeasureKernel || state.phase is RegisterKernel) ==> state.payload
        == payloads[0]
    &&& state.phase is ReadInitrd ==> nonempty(configuration.initrd) is Some
    &&& state.phase is MeasureInitrd && nonempty(configuration.initrd) is Some ==> state.payload
        == payloads[1]
    &&& state.phase is MeasureInitrd && nonempty(configuration.initrd) is None ==> state.payload
        == Seq::<u8>::empty()
    &&& state.phase is RegisterInitrd ==> state.payload == measured[3].1 && state.payload.len() > 0
    &&& (state.phase is Chainload || state.outcome matches Some(Ok(_))) ==> ready_for_xen(
        registered,
        measured,
    )
}

proof fn lemma_run_invariant<L, E>(
    configuration: ConfigurationView,
    answers: Seq<EderaAnswer<L, E>>,
)
    ensures
        run_invariant(configuration, answers),
    decreases answers.len(),
{
    if answers.len() > 0 {
        lemma_run_invariant(configuration, answers.drop_last());
    }
}

/// Whatever answers a boot is given, also where some of them fail or do not fit:
/// * it measures what it was handed, in the fixed order and under the fixed descriptions;
/// * it builds the Xen configuration from the two texts that it measured;
/// * it registers the configuration as it was built, and the kernel and the initrd only as the
///   bytes that it measured before;
/// * it chainloads to Xen, or ends well, only once everything is measured and registered;
/// * it has an outcome exactly when it is over, and until then it holds on to every media loader
///   that was handed in;
/// * then it releases each of them once: the earliest first, or the latest first where the initrd
///   could not be read or measured.
pub proof fn law_measured_before_use<L, E>(
    configuration: ConfigurationView,
    answers: Seq<EderaAnswer<L, E>>,
)
    ensures
        ({
            let start = EderaState::<L, E>::start(configuration);
            let state = play(start, answers);
            let measured = measured(start, answers);
            let registered = registered(start, answers);
            let texts = handed_texts(start, answers);
            let payloads = handed_payloads(start, answers);
            &&& state.configuration == configuration
            &&& measured_in_order(configuration, measured, texts, payloads)
            &&& described(start, answers) == measurement_descriptions().take(measured.len() as int)
            &&& registered_as_measured(registered, measured, texts)
            &&& state.request() matches Some(EderaRequest::BuildConfig { xen_opts, dom0_args }) ==> {
                &&& texts == seq![xen_opts, dom0_args]
                &&& measured == seq![
                    (PlatformTpm::PCR_KERNEL_PARAMETERS, encode_utf8(xen_opts)),
                    (PlatformTpm::PCR_KERNEL_PARAMETERS, encode_utf8(dom0_args)),
                ]
            }
            &&& state.request() matches Some(EderaRequest::RegisterLoader { media, data }) ==> {
                &&& media is Config ==> texts.len() == 3 && data == encode_utf8(texts[2])
                &&& media is Kernel ==> measured.last() == (PlatformTpm::PCR_KERNEL, data)
                &&& media is Ramdisk ==> measured.last() == (PlatformTpm::PCR_INITRD, data)
            }
            &&& (state.request() matches Some(EderaRequest::Chainload { .. })) ==> ready_for_xen(
                registered,
                measured,
            )
            &&& (state.outcome matches Some(Ok(_))) ==> ready_for_xen(registered, measured)
            &&& state.outcome is Some <==> state.request() is None
            &&& state.outcome is None ==> {
                &&& state.loaders == handed_loaders(start, answers)
                &&& state.released == Seq::<L>::empty()
            }
            &&& state.outcome matches Some(outcome) ==> {
                &&& state.loaders == Seq::<L>::empty()
                &&& state.released == if released_in_reverse(outcome) {
                    handed_loaders(start, answers).reverse()
                } else {
                    handed_loaders(start, answers)
                }
            }
            &&& handed_loaders(start, answers).len() == registered.len()
        }),
{
    lemma_run_invariant(configuration, answers);
    let start = EderaState::<L, E>::start(configuration);
    let state = play(start, answers);
    let measured = measured(start, answers);
    assert(described(start, answers) =~= measurement_descriptions().take(measured.len() as int));
    if state.phase is BuildConfig {
        assert(handed_texts(start, answers) =~= seq![state.xen_opts, state.dom0_args]);
        assert(measured =~= seq![
            (PlatformTpm::PCR_KERNEL_PARAMETERS, encode_utf8(state.xen_opts)),
            (PlatformTpm::PCR_KERNEL_PARAMETERS, encode_utf8(state.dom0_args)),
        ]);
    }
    if state.phase is Finished {
        assert(state.loaders =~= Seq::empty());
    } else {
        assert(state.released =~= Seq::empty());
    }
}

/// A failure of the outside work ends a boot at once, in whatever stage it happens: nothing more
/// is asked for, the outcome names the stage and the cause, and the media loaders are released: the
/// latest first where the initrd could not be read or measured, and the earliest first otherwise.
pub proof fn law_failure_ends_boot<L, E>(state: EderaState<L, E>, cause: E)
    requires
        state.phase.fallible(),
    ensures
        state.next(EderaAnswer::Failed(cause)).request() is None,
        state.next(EderaAnswer::Failed(cause)).outcome == Some(
            Err::<(), EderaError<E>>(EderaError { phase: state.phase, cause }),
        ),
        state.next(EderaAnswer::Failed(cause)).loaders == Seq::<L>::empty(),
        state.next(EderaAnswer::Failed(cause)).released == if state.phase is ReadInitrd
            || state.phase is MeasureInitrd {
            state.loaders.reverse()
        } else {
            state.loaders
        },
{
}

/// Moving the payload out for its registration does not change how the boot goes on: whatever
/// answer takes the boot on from there leads to the same state, and any other changes nothing.
pub proof fn law_taken_payload_is_not_missed<L, E>(
    state: EderaState<L, E>,
    answer: EderaAnswer<L, E>,
)
    requires
        state.request() matches Some(EderaRequest::RegisterLoader { .. }),
    ensures
        ({
            let taken = EderaState { payload: Seq::empty(), ..state };
            if state.next(answer) == state {
                taken.next(answer) == taken
            } else {
                taken.next(answer) == state.next(answer)
            }
        }),
{
}

/// A boot that is over stays over, with the outcome that it has.
pub proof fn law_finished_is_final<L, E>(
    state: EderaState<L, E>,
    answers: Seq<EderaAnswer<L, E>>,
)
    requires
        state.phase is Finished,
    ensures
        play(state, answers) == state,
    decreases answers.len(),
{
    if answers.len() > 0 {
        law_finished_is_final(state, answers.drop_last());
    }
}

/// What the reading of a file brings, given what each piece of outside work would bring.
pub open spec fn payload_contents<'a, I, E>(
    what: &'a str,
    image: Result<I, E>,
    contents: Result<Vec<u8>, E>,
) -> Result<Vec<u8>, PayloadError<'a, E>> {
    match (image, contents) {
        (Err(cause), _) => Err(PayloadError::ImagePath { cause }),
        (Ok(_), Err(cause)) => Err(PayloadError::Read { what, cause }),
        (Ok(_), Ok(contents)) => Ok(contents),
    }
}

/// The reading of a file asks for the stamp of its path, for the path of the loaded image and for
/// the contents, in this order. It brings the contents exactly where the image path is to be had
/// and the file can be read, and the failure of the first of the two that fails otherwise.
pub proof fn law_payload_read<'a, I, E>(
    what: &'a str,
    unstamped: &'a str,
    stamped: String,
    image: Result<I, E>,
    contents: Result<Vec<u8>, E>,
)
    ensures
        ({
            let read = PayloadRead::StampPath { what, unstamped }.next(
                PayloadAnswer::<I, E>::Stamped(stamped),
            );
            let end = read.next(PayloadAnswer::ImagePath(image)).next(
                PayloadAnswer::Contents(contents),
            );
            &&& read matches PayloadRead::GetImagePath { what: word, path } && word == what && path
                == stamped
            &&& image matches Ok(image) ==> (read.next(
                PayloadAnswer::ImagePath(Ok(image)),
            ) matches PayloadRead::ReadFile { what: word, image: base, path } && word == what
                && base == image && path == stamped)
            &&& end matches PayloadRead::Finished { contents: result } && result
                == payload_contents(what, image, contents)
        }),
{
}

/// The contents that were read are what the reading of a file brings, whatever they are; a failure to
/// get the path of the loaded image or to read the file is handed on with its cause, and only the
/// latter names the file.
pub proof fn law_payload_is_what_was_read<'a, I, E>(
    what: &'a str,
    unstamped: &'a str,
    stamped: String,
    image: I,
    contents: Vec<u8>,
    cause: E,
)
    ensures
        ({
            let stamp: PayloadRead<'a, I, E> = PayloadRead::StampPath { what, unstamped };
            let ask = stamp.next(PayloadAnswer::Stamped(stamped));
            let read = ask.next(PayloadAnswer::ImagePath(Ok(image)));
            &&& ask matches PayloadRead::GetImagePath { what: word, path } && word == what && path
                == stamped
            &&& read matches PayloadRead::ReadFile { what: word, image: base, path } && word == what
                && base == image && path == stamped
            &&& read.next(PayloadAnswer::Contents(Ok(contents))) matches PayloadRead::Finished {
                contents: Ok(result),
            } && result == contents
            &&& read.next(PayloadAnswer::Contents(Err(cause))) matches PayloadRead::Finished {
                contents: Err(PayloadError::Read { what: word, cause: reported }),
            } && word == what && reported == cause
            &&& ask.next(PayloadAnswer::ImagePath(Err(cause))) matches PayloadRead::Finished {
                contents: Err(PayloadError::ImagePath { cause: reported }),
            } && reported == cause
        }),
{
}

/// An answer to other work than the reading of a file waits for changes nothing.
pub proof fn law_payload_other_answers<'a, I, E>(
    read: PayloadRead<'a, I, E>,
    answer: PayloadAnswer<I, E>,
)
    requires
        !(read is StampPath && answer is Stamped),
        !(read is GetImagePath && answer is ImagePath),
        !(read is ReadFile && answer is Contents),
    ensures
        read.next(answer) == read,
{
}

/// The registration of a media loader is tried once: whatever it brings is the end of it, the media
/// loader where it succeeds and the cause with the word for the file where it fails.
pub proof fn law_loader_registration<'a, K, L, E>(
    guid: K,
    what: &'a str,
    bytes: Vec<u8>,
    registered: Result<L, E>,
    later: Result<L, E>,
)
    ensures
        ({
            let start: LoaderRegistration<'a, K, L, E> = LoaderRegistration::Register {
                guid,
                what,
                bytes,
            };
            let end = start.next(registered);
            &&& end matches LoaderRegistration::Finished { loader } && match registered {
                Ok(registered) => loader == Ok::<L, RegisterError<'a, E>>(registered),
                Err(cause) => loader == Err::<L, RegisterError<'a, E>>(
                    RegisterError { what, cause },
                ),
            }
            &&& end.next(later) == end
        }),
{
}

} // verus!
