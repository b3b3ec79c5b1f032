//! The boot of the Edera hypervisor.
//!
//! [`edera`] starts an [`Edera`] machine on a configuration. The machine says by
//! [`Edera::action`] which outside work comes next, and takes the answer by [`Edera::step`],
//! until the boot is over. The work is measuring what is about to be booted into the TPM,
//! handing the Xen EFI stub its files through media loaders, and chainloading to the stub.
use crate::tpm::PlatformTpm;
use vstd::prelude::*;
use vstd::string::StringExecFns;
use vstd::utf8::encode_utf8;

verus! {

/// The configuration of the edera action.
#[derive(Debug)]
pub struct EderaConfiguration {
    /// The path to the Xen EFI stub.
    pub xen: String,
    /// The options for Xen.
    pub xen_options: Vec<String>,
    /// The path to the dom0 kernel.
    pub kernel: String,
    /// The options for the dom0 kernel.
    pub kernel_options: Vec<String>,
    /// The path to the dom0 initrd, where there is one.
    pub initrd: Option<String>,
}

/// The text of each string of a sequence.
pub open spec fn texts(strings: Seq<String>) -> Seq<Seq<char>> {
    strings.map_values(|string: String| string@)
}

/// An [`EderaConfiguration`] as plain text.
pub struct ConfigurationView {
    pub xen: Seq<char>,
    pub xen_options: Seq<Seq<char>>,
    pub kernel: Seq<char>,
    pub kernel_options: Seq<Seq<char>>,
    pub initrd: Option<Seq<char>>,
}

impl View for EderaConfiguration {
    type V = ConfigurationView;

    open spec fn view(&self) -> ConfigurationView {
        ConfigurationView {
            xen: self.xen@,
            xen_options: texts(self.xen_options@),
            kernel: self.kernel@,
            kernel_options: texts(self.kernel_options@),
            initrd: match self.initrd {
                Some(path) => Some(path@),
                None => None,
            },
        }
    }
}

/// The configuration of a chainload.
#[derive(Debug)]
pub struct ChainloadConfiguration {
    /// The path to the image to chainload to.
    pub path: String,
    /// The options to pass to the image.
    pub options: Vec<String>,
    /// The path to a Linux initrd, where there is one.
    pub linux_initrd: Option<String>,
}

/// The files that the Xen EFI stub takes from media loaders.
#[derive(Clone, Copy, Debug, PartialEq, Eq, Structural)]
pub enum Media {
    /// The Xen configuration.
    Config,
    /// The dom0 kernel.
    Kernel,
    /// The dom0 initrd.
    Ramdisk,
}

impl Media {
    /// The word for the file in messages.
    pub open spec fn word(self) -> Seq<char> {
        match self {
            Media::Config => "config"@,
            Media::Kernel => "kernel"@,
            Media::Ramdisk => "initrd"@,
        }
    }

    /// Name the file in messages.
    pub fn what(self) -> (what: &'static str)
        ensures
            what@ == self.word(),
            self is Config ==> what@ == "config"@,
            self is Kernel ==> what@ == "kernel"@,
            self is Ramdisk ==> what@ == "initrd"@,
    {
        match self {
            Media::Config => "config",
            Media::Kernel => "kernel",
            Media::Ramdisk => "initrd",
        }
    }
}

/// The stages of a boot, in their order.
#[derive(Clone, Copy, Debug, PartialEq, Eq, Structural)]
pub enum Phase {
    /// Stamp the Xen options and combine them.
    CombineXenOptions,
    /// Stamp the dom0 kernel options and combine them.
    CombineKernelOptions,
    /// Measure the Xen options.
    MeasureXenOptions,
    /// Measure the dom0 command line.
    MeasureDom0Cmdline,
    /// Build the text of the Xen configuration.
    BuildConfig,
    /// Register the media loader of the Xen configuration.
    RegisterConfig,
    /// Read the dom0 kernel.
    ReadKernel,
    /// Measure the dom0 kernel.
    MeasureKernel,
    /// Register the media loader of the dom0 kernel.
    RegisterKernel,
    /// Read the dom0 initrd.
    ReadInitrd,
    /// Measure the dom0 initrd.
    MeasureInitrd,
    /// Register the media loader of the dom0 initrd.
    RegisterInitrd,
    /// Chainload to the Xen EFI stub.
    Chainload,
    /// Nothing is left to do.
    Finished,
}

impl Phase {
    /// Whether the outside work of the stage can fail.
    pub open spec fn fallible(self) -> bool {
        !(self is CombineXenOptions || self is CombineKernelOptions || self is BuildConfig
            || self is Finished)
    }
}

/// Why a boot failed: the stage in which it did, and the cause that the outside work reported.
#[derive(Debug)]
pub struct EderaError<E> {
    /// The stage that failed.
    pub phase: Phase,
    /// What the outside work reported.
    pub cause: E,
}

impl<E> EderaError<E> {
    /// The text that describes the failed stage. Reading a file describes its failure itself.
    pub open spec fn context_text(self) -> Option<Seq<char>> {
        match self.phase {
            Phase::MeasureXenOptions => Some("unable to measure xen options into the TPM"@),
            Phase::MeasureDom0Cmdline => Some("unable to measure dom0 cmdline into the TPM"@),
            Phase::RegisterConfig => Some("unable to register config media loader"@),
            Phase::MeasureKernel => Some("unable to measure dom0 kernel into the TPM"@),
            Phase::RegisterKernel => Some("unable to register kernel media loader"@),
            Phase::MeasureInitrd => Some("unable to measure dom0 initrd into the TPM"@),
            Phase::RegisterInitrd => Some("unable to register initrd media loader"@),
            Phase::Chainload => Some("unable to chainload to xen"@),
            _ => None,
        }
    }

    /// Describe the failed stage, where the cause does not do so itself.
    pub fn context(&self) -> (text: Option<&'static str>)
        ensures
            match text {
                Some(text) => self.context_text() == Some(text@),
                None => self.context_text() is None,
            },
    {
        match self.phase {
            Phase::MeasureXenOptions => Some("unable to measure xen options into the TPM"),
            Phase::MeasureDom0Cmdline => Some("unable to measure dom0 cmdline into the TPM"),
            Phase::RegisterConfig => Some("unable to register config media loader"),
            Phase::MeasureKernel => Some("unable to measure dom0 kernel into the TPM"),
            Phase::RegisterKernel => Some("unable to register kernel media loader"),
            Phase::MeasureInitrd => Some("unable to measure dom0 initrd into the TPM"),
            Phase::RegisterInitrd => Some("unable to register initrd media loader"),
            Phase::Chainload => Some("unable to chainload to xen"),
            _ => None,
        }
    }
}

/// The outside work that a boot waits for.
pub enum EderaRequest {
    /// Stamp each of the options, in their order, and combine them into one text.
    CombineOptions { options: Seq<Seq<char>> },
    /// Log an event into the TPM.
    Measure { pcr_index: u32, data: Seq<u8>, description: Seq<char> },
    /// Build the text of the Xen configuration.
    BuildConfig { xen_opts: Seq<char>, dom0_args: Seq<char> },
    /// Register a media loader.
    RegisterLoader { media: Media, data: Seq<u8> },
    /// Read the contents of a file, whose path is still to be stamped.
    ReadPayload { what: Seq<char>, path: Seq<char> },
    /// Chainload to an image.
    Chainload { path: Seq<char>, options: Seq<Seq<char>>, linux_initrd: Option<Seq<char>> },
}

/// The outside work that an [`Edera`] waits for, with what it needs.
#[derive(Debug)]
pub enum EderaAction<'a> {
    /// Stamp each of the options, in their order, and combine them into one text.
    CombineOptions { options: &'a Vec<String> },
    /// Log an event into the TPM.
    Measure { pcr_index: u32, data: &'a [u8], description: &'static str },
    /// Build the text of the Xen configuration.
    BuildConfig { xen_opts: &'a str, dom0_args: &'a str },
    /// Register a media loader for the bytes that [`Edera::take_payload`] gives out.
    RegisterLoader { media: Media, data: &'a [u8] },
    /// Read the contents of a file, whose path is still to be stamped.
    ReadPayload { what: &'static str, path: &'a str },
    /// Chainload to an image.
    Chainload { configuration: ChainloadConfiguration },
    /// Nothing: the boot is over, and [`Edera::outcome`] says how it went and which media loaders
    /// are to be unregistered.
    Finished,
}

impl<'a> EderaAction<'a> {
    /// The action as plain values, where there is something left to do.
    pub open spec fn request(self) -> Option<EderaRequest> {
        match self {
            EderaAction::CombineOptions { options } => Some(
                EderaRequest::CombineOptions { options: texts(options@) },
            ),
            EderaAction::Measure { pcr_index, data, description } => Some(
                EderaRequest::Measure { pcr_index, data: data@, description: description@ },
            ),
            EderaAction::BuildConfig { xen_opts, dom0_args } => Some(
                EderaRequest::BuildConfig { xen_opts: xen_opts@, dom0_args: dom0_args@ },
            ),
            EderaAction::RegisterLoader { media, data } => Some(
                EderaRequest::RegisterLoader { media, data: data@ },
            ),
            EderaAction::ReadPayload { what, path } => Some(
                EderaRequest::ReadPayload { what: what@, path: path@ },
            ),
            EderaAction::Chainload { configuration } => Some(
                EderaRequest::Chainload {
                    path: configuration.path@,
                    options: texts(configuration.options@),
                    linux_initrd: match configuration.linux_initrd {
                        Some(path) => Some(path@),
                        None => None,
                    },
                },
            ),
            EderaAction::Finished => None,
        }
    }
}

/// The answer to the outside work that a boot waits for. `L` is a registered media loader, which
/// unregisters itself when it is dropped, and `E` the cause of a failure.
#[derive(Debug)]
pub enum EderaAnswer<L, E> {
    /// The text that was combined or built.
    Text(String),
    /// The event was logged, or the chainloaded image returned.
    Done,
    /// The media loader was registered.
    Registered(L),
    /// The contents of the file.
    Payload(Vec<u8>),
    /// The work failed.
    Failed(E),
}

/// `input`, where it holds any text: empty text counts as none.
pub open spec fn nonempty(input: Option<Seq<char>>) -> Option<Seq<char>> {
    match input {
        Some(text) => if text.len() == 0 {
            None
        } else {
            Some(text)
        },
        None => None,
    }
}

/// Treat empty text as none.
pub fn empty_is_none<'a>(input: Option<&'a str>) -> (output: Option<&'a str>)
    ensures
        output == (match input {
            Some(text) => if text@.len() == 0 {
                None
            } else {
                Some(text)
            },
            None => None,
        }),
{
    match input {
        Some(text) => if text.is_empty() {
            None
        } else {
            Some(text)
        },
        None => None,
    }
}

/// Whether the media loaders are unregistered latest first: so it is where the initrd could not be
/// read or measured. Otherwise the earliest goes first.
pub open spec fn released_in_reverse<E>(outcome: Result<(), EderaError<E>>) -> bool {
    match outcome {
        Ok(_) => false,
        Err(error) => error.phase is ReadInitrd || error.phase is MeasureInitrd,
    }
}

/// The state of a boot.
pub struct EderaState<L, E> {
    /// What is booted.
    pub configuration: ConfigurationView,
    /// The stage that the boot is in.
    pub phase: Phase,
    /// The combined Xen options, once they are known.
    pub xen_opts: Seq<char>,
    /// The dom0 command line, once it is known.
    pub dom0_args: Seq<char>,
    /// The file that is being measured and registered.
    pub payload: Seq<u8>,
    /// The media loaders that are registered, in the order in which they were.
    pub loaders: Seq<L>,
    /// The media loaders to unregister, in the order in which they are to be, once the boot is
    /// over.
    pub released: Seq<L>,
    /// How the boot went, once it is over.
    pub outcome: Option<Result<(), EderaError<E>>>,
}

impl<L, E> EderaState<L, E> {
    /// The state in which a boot of `configuration` starts.
    pub open spec fn start(configuration: ConfigurationView) -> Self {
        EderaState {
            configuration,
            phase: Phase::CombineXenOptions,
            xen_opts: Seq::empty(),
            dom0_args: Seq::empty(),
            payload: Seq::empty(),
            loaders: Seq::empty(),
            released: Seq::empty(),
            outcome: None,
        }
    }

    /// The outside work that the state waits for.
    pub open spec fn request(self) -> Option<EderaRequest> {
        match self.phase {
            Phase::CombineXenOptions => Some(
                EderaRequest::CombineOptions { options: self.configuration.xen_options },
            ),
            Phase::CombineKernelOptions => Some(
                EderaRequest::CombineOptions { options: self.configuration.kernel_options },
            ),
            Phase::MeasureXenOptions => Some(
                EderaRequest::Measure {
                    pcr_index: PlatformTpm::PCR_KERNEL_PARAMETERS,
                    data: encode_utf8(self.xen_opts),
                    description: "sprout: xen options"@,
                },
            ),
            Phase::MeasureDom0Cmdline => Some(
                EderaRequest::Measure {
                    pcr_index: PlatformTpm::PCR_KERNEL_PARAMETERS,
                    data: encode_utf8(self.dom0_args),
                    description: "sprout: dom0 cmdline"@,
                },
            ),
            Phase::BuildConfig => Some(
                EderaRequest::BuildConfig { xen_opts: self.xen_opts, dom0_args: self.dom0_args },
            ),
            Phase::RegisterConfig => Some(
                EderaRequest::RegisterLoader { media: Media::Config, data: self.payload },
            ),
            Phase::ReadKernel => Some(
                EderaRequest::ReadPayload { what: "kernel"@, path: self.configuration.kernel },
            ),
            Phase::MeasureKernel => Some(
                EderaRequest::Measure {
                    pcr_index: PlatformTpm::PCR_KERNEL,
                    data: self.payload,
                    description: "sprout: dom0 kernel"@,
                },
            ),
            Phase::RegisterKernel => Some(
                EderaRequest::RegisterLoader { media: Media::Kernel, data: self.payload },
            ),
            Phase::ReadInitrd => Some(
                EderaRequest::ReadPayload {
                    what: "initrd"@,
                    path: match self.configuration.initrd {
                        Some(path) => path,
                        None => Seq::empty(),
                    },
                },
            ),
            Phase::MeasureInitrd => Some(
                EderaRequest::Measure {
                    pcr_index: PlatformTpm::PCR_INITRD,
                    data: self.payload,
                    description: "sprout: dom0 initrd"@,
                },
            ),
            Phase::RegisterInitrd => Some(
                EderaRequest::RegisterLoader { media: Media::Ramdisk, data: self.payload },
            ),
            Phase::Chainload => Some(
                EderaRequest::Chainload {
                    path: self.configuration.xen,
                    options: Seq::empty(),
                    linux_initrd: None,
                },
            ),
            Phase::Finished => None,
        }
    }

    /// The state once the boot is over, with the media loaders released in the order in which
    /// they were registered, or the other way round.
    pub open spec fn finish(self, outcome: Result<(), EderaError<E>>) -> Self {
        EderaState {
            phase: Phase::Finished,
            payload: Seq::empty(),
            loaders: Seq::empty(),
            released: if released_in_reverse(outcome) {
                self.loaders.reverse()
            } else {
                self.loaders
            },
            outcome: Some(outcome),
            ..self
        }
    }

    /// The state after `answer`. An answer that does not fit the work that the state waits for
    /// changes nothing.
    pub open spec fn next(self, answer: EderaAnswer<L, E>) -> Self {
        match (self.phase, answer) {
            (Phase::CombineXenOptions, EderaAnswer::Text(text)) => EderaState {
                phase: Phase::CombineKernelOptions,
                xen_opts: text@,
                ..self
            },
            (Phase::CombineKernelOptions, EderaAnswer::Text(text)) => EderaState {
                phase: Phase::MeasureXenOptions,
                dom0_args: text@,
                ..self
            },
            (Phase::MeasureXenOptions, EderaAnswer::Done) => EderaState {
                phase: Phase::MeasureDom0Cmdline,
                ..self
            },
            (Phase::MeasureDom0Cmdline, EderaAnswer::Done) => EderaState {
                phase: Phase::BuildConfig,
                ..self
            },
            (Phase::BuildConfig, EderaAnswer::Text(text)) => EderaState {
                phase: Phase::RegisterConfig,
                payload: encode_utf8(text@),
                ..self
            },
            (Phase::RegisterConfig, EderaAnswer::Registered(loader)) => EderaState {
                phase: Phase::ReadKernel,
                payload: Seq::empty(),
                loaders: self.loaders.push(loader),
                ..self
            },
            (Phase::ReadKernel, EderaAnswer::Payload(bytes)) => EderaState {
                phase: Phase::MeasureKernel,
                payload: bytes@,
                ..self
            },
            (Phase::MeasureKernel, EderaAnswer::Done) => EderaState {
                phase: Phase::RegisterKernel,
                ..self
            },
            (Phase::RegisterKernel, EderaAnswer::Registered(loader)) => EderaState {
                phase: if nonempty(self.configuration.initrd) is Some {
                    Phase::ReadInitrd
                } else {
                    Phase::MeasureInitrd
                },
                payload: Seq::empty(),
                loaders: self.loaders.push(loader),
                ..self
            },
            (Phase::ReadInitrd, EderaAnswer::Payload(bytes)) => EderaState {
                phase: Phase::MeasureInitrd,
                payload: bytes@,
                ..self
            },
            (Phase::MeasureInitrd, EderaAnswer::Done) => EderaState {
                phase: if self.payload.len() > 0 {
                    Phase::RegisterInitrd
                } else {
                    Phase::Chainload
                },
                ..self
            },
            (Phase::RegisterInitrd, EderaAnswer::Registered(loader)) => EderaState {
                phase: Phase::Chainload,
                payload: Seq::empty(),
                loaders: self.loaders.push(loader),
                ..self
            },
            (Phase::Chainload, EderaAnswer::Done) => self.finish(Ok(())),
            (phase, EderaAnswer::Failed(cause)) => if phase.fallible() {
                self.finish(Err(EderaError { phase, cause }))
            } else {
                self
            },
            _ => self,
        }
    }
}

/// A boot of the Edera hypervisor.
pub struct Edera<'a, L, E> {
    configuration: &'a EderaConfiguration,
    phase: Phase,
    xen_opts: String,
    dom0_args: String,
    payload: Vec<u8>,
    // The media loaders are kept until the boot is over: dropping one unregisters it.
    loaders: Vec<L>,
    released: Vec<L>,
    outcome: Option<Result<(), EderaError<E>>>,
}

impl<'a, L, E> View for Edera<'a, L, E> {
    type V = EderaState<L, E>;

    closed spec fn view(&self) -> EderaState<L, E> {
        EderaState {
            configuration: self.configuration@,
            phase: self.phase,
            xen_opts: self.xen_opts@,
            dom0_args: self.dom0_args@,
            payload: self.payload@,
            loaders: self.loaders@,
            released: self.released@,
            outcome: self.outcome,
        }
    }
}

/// Executes the edera action which will boot the Edera hypervisor with the specified
/// `configuration`. This action uses Edera-specific Xen EFI stub functionality.
pub fn edera<'a, L, E>(configuration: &'a EderaConfiguration) -> (boot: Edera<'a, L, E>)
    ensures
        boot@ == EderaState::<L, E>::start(configuration@),
        boot@.configuration.xen == configuration.xen@,
        boot@.configuration.kernel == configuration.kernel@,
        boot@.configuration.xen_options.len() == configuration.xen_options@.len(),
        forall|i: int|
            0 <= i < configuration.xen_options@.len() ==> #[trigger]
            boot@.configuration.xen_options[i] == configuration.xen_options@[i]@,
        boot@.configuration.kernel_options.len() == configuration.kernel_options@.len(),
        forall|i: int|
            0 <= i < configuration.kernel_options@.len() ==> #[trigger]
            boot@.configuration.kernel_options[i] == configuration.kernel_options@[i]@,
        match configuration.initrd {
            Some(path) => boot@.configuration.initrd == Some(path@),
            None => boot@.configuration.initrd is None,
        },
{
    Edera {
        configuration,
        phase: Phase::CombineXenOptions,
        xen_opts: String::new(),
        dom0_args: String::new(),
        payload: Vec::new(),
        loaders: Vec::new(),
        released: Vec::new(),
        outcome: None,
    }
}

impl<'a, L, E> Edera<'a, L, E> {
    /// The outside work that comes next.
    pub fn action<'b>(&'b self) -> (action: EderaAction<'b>)
        ensures
            action.request() == self@.request(),
            match action {
                EderaAction::CombineOptions { options } => {
                    &&& self@.request() matches Some(EderaRequest::CombineOptions { options: asked })
                    &&& asked.len() == options@.len()
                    &&& forall|i: int|
                        0 <= i < options@.len() ==> #[trigger] asked[i] == options@[i]@
                },
                EderaAction::Measure { pcr_index, data, description } => self@.request() == Some(
                    EderaRequest::Measure { pcr_index, data: data@, description: description@ },
                ),
                EderaAction::BuildConfig { xen_opts, dom0_args } => self@.request() == Some(
                    EderaRequest::BuildConfig { xen_opts: xen_opts@, dom0_args: dom0_args@ },
                ),
                EderaAction::RegisterLoader { media, data } => self@.request() == Some(
                    EderaRequest::RegisterLoader { media, data: data@ },
                ),
                EderaAction::ReadPayload { what, path } => self@.request() == Some(
                    EderaRequest::ReadPayload { what: what@, path: path@ },
                ),
                EderaAction::Chainload { configuration } => {
                    &&& self@.request() matches Some(
                        EderaRequest::Chainload { path, options, linux_initrd },
                    )
                    &&& path == configuration.path@
                    &&& options.len() == configuration.options@.len()
                    &&& forall|i: int|
                        0 <= i < options.len() ==> #[trigger] options[i]
                            == configuration.options@[i]@
                    &&& match configuration.linux_initrd {
                        Some(initrd) => linux_initrd == Some(initrd@),
                        None => linux_initrd is None,
                    }
                },
                EderaAction::Finished => self@.request() is None,
            },
    {
        match self.phase {
            Phase::CombineXenOptions => EderaAction::CombineOptions {
                options: &self.configuration.xen_options,
            },
            Phase::CombineKernelOptions => EderaAction::CombineOptions {
                options: &self.configuration.kernel_options,
            },
            // The xen options and the dom0 command line go into the same PCR, in this order.
            Phase::MeasureXenOptions => EderaAction::Measure {
                pcr_index: PlatformTpm::PCR_KERNEL_PARAMETERS,
                data: self.xen_opts.as_str().as_bytes(),
                description: "sprout: xen options",
            },
            Phase::MeasureDom0Cmdline => EderaAction::Measure {
                pcr_index: PlatformTpm::PCR_KERNEL_PARAMETERS,
                data: self.dom0_args.as_str().as_bytes(),
                description: "sprout: dom0 cmdline",
            },
            // The text of the configuration is derived from what was measured, and is
            // intentionally not measured itself.
            Phase::BuildConfig => EderaAction::BuildConfig {
                xen_opts: self.xen_opts.as_str(),
                dom0_args: self.dom0_args.as_str(),
            },
            Phase::RegisterConfig => EderaAction::RegisterLoader {
                media: Media::Config,
                data: self.payload.as_slice(),
            },
            Phase::ReadKernel => EderaAction::ReadPayload {
                what: Media::Kernel.what(),
                path: self.configuration.kernel.as_str(),
            },
            Phase::MeasureKernel => EderaAction::Measure {
                pcr_index: PlatformTpm::PCR_KERNEL,
                data: self.payload.as_slice(),
                description: "sprout: dom0 kernel",
            },
            Phase::RegisterKernel => EderaAction::RegisterLoader {
                media: Media::Kernel,
                data: self.payload.as_slice(),
            },
            // This stage is reached only where a path is configured.
            Phase::ReadInitrd => EderaAction::ReadPayload {
                what: Media::Ramdisk.what(),
                path: match &self.configuration.initrd {
                    Some(path) => path.as_str(),
                    None => {
                        proof {
                            reveal_strlit("");
                            assert(""@ =~= Seq::<char>::empty());
                        }
                        ""
                    },
                },
            },
            // Without an initrd, the measurement is of no bytes at all.
            Phase::MeasureInitrd => EderaAction::Measure {
                pcr_index: PlatformTpm::PCR_INITRD,
                data: self.payload.as_slice(),
                description: "sprout: dom0 initrd",
            },
            Phase::RegisterInitrd => EderaAction::RegisterLoader {
                media: Media::Ramdisk,
                data: self.payload.as_slice(),
            },
            Phase::Chainload => {
                let options: Vec<String> = Vec::new();
                assert(texts(options@) =~= Seq::<Seq<char>>::empty());
                EderaAction::Chainload {
                    configuration: ChainloadConfiguration {
                        path: self.configuration.xen.clone(),
                        options,
                        linux_initrd: None,
                    },
                }
            },
            Phase::Finished => EderaAction::Finished,
        }
    }

    /// End the boot, and release the media loaders.
    fn finish(&mut self, outcome: Result<(), EderaError<E>>)
        ensures
            final(self)@ == old(self)@.finish(outcome),
    {
        let reverse = match &outcome {
            Ok(_) => false,
            Err(error) => match error.phase {
                Phase::ReadInitrd | Phase::MeasureInitrd => true,
                _ => false,
            },
        };
        let mut held: Vec<L> = Vec::new();
        std::mem::swap(&mut held, &mut self.loaders);
        self.released =
        if reverse {
            reversed(held)
        } else {
            held
        };
        self.phase = Phase::Finished;
        self.payload = Vec::new();
        self.outcome = Some(outcome);
    }

    /// Take the answer to the outside work that [`Edera::action`] asked for.
    pub fn step(&mut self, answer: EderaAnswer<L, E>)
        ensures
            final(self)@ == old(self)@.next(answer),
    {
        match (self.phase, answer) {
            (Phase::CombineXenOptions, EderaAnswer::Text(text)) => {
                self.xen_opts = text;
                self.phase = Phase::CombineKernelOptions;
            },
            (Phase::CombineKernelOptions, EderaAnswer::Text(text)) => {
                self.dom0_args = text;
                self.phase = Phase::MeasureXenOptions;
            },
            (Phase::MeasureXenOptions, EderaAnswer::Done) => {
                self.phase = Phase::MeasureDom0Cmdline;
            },
            (Phase::MeasureDom0Cmdline, EderaAnswer::Done) => {
                self.phase = Phase::BuildConfig;
            },
            (Phase::BuildConfig, EderaAnswer::Text(text)) => {
                self.payload = vstd::slice::slice_to_vec(text.as_str().as_bytes());
                self.phase = Phase::RegisterConfig;
            },
            (Phase::RegisterConfig, EderaAnswer::Registered(loader)) => {
                self.loaders.push(loader);
                self.payload = Vec::new();
                self.phase = Phase::ReadKernel;
            },
            (Phase::ReadKernel, EderaAnswer::Payload(bytes)) => {
                self.payload = bytes;
                self.phase = Phase::MeasureKernel;
            },
            (Phase::MeasureKernel, EderaAnswer::Done) => {
                self.phase = Phase::RegisterKernel;
            },
            (Phase::RegisterKernel, EderaAnswer::Registered(loader)) => {
                self.loaders.push(loader);
                self.payload = Vec::new();
                let initrd = match &self.configuration.initrd {
                    Some(path) => Some(path.as_str()),
                    None => None,
                };
                self.phase = match empty_is_none(initrd) {
                    Some(_) => Phase::ReadInitrd,
                    None => Phase::MeasureInitrd,
                };
            },
            (Phase::ReadInitrd, EderaAnswer::Payload(bytes)) => {
                self.payload = bytes;
                self.phase = Phase::MeasureInitrd;
            },
            (Phase::MeasureInitrd, EderaAnswer::Done) => {
                // Register the initrd if it is provided.
                self.phase =
                if self.payload.is_empty() {
                    Phase::Chainload
                } else {
                    Phase::RegisterInitrd
                };
            },
            (Phase::RegisterInitrd, EderaAnswer::Registered(loader)) => {
                self.loaders.push(loader);
                self.payload = Vec::new();
                self.phase = Phase::Chainload;
            },
            (Phase::Chainload, EderaAnswer::Done) => {
                self.finish(Ok(()));
            },
            (Phase::CombineXenOptions, EderaAnswer::Failed(_)) => {},
            (Phase::CombineKernelOptions, EderaAnswer::Failed(_)) => {},
            (Phase::BuildConfig, EderaAnswer::Failed(_)) => {},
            (Phase::Finished, EderaAnswer::Failed(_)) => {},
            (phase, EderaAnswer::Failed(cause)) => {
                self.finish(Err(EderaError { phase, cause }));
            },
            _ => {},
        }
    }

    /// Move out the bytes that a media loader is to be registered for, so that they need not be
    /// copied. While no registration is asked for, there is nothing to move out.
    pub fn take_payload(&mut self) -> (bytes: Vec<u8>)
        ensures
            match old(self)@.request() {
                Some(EderaRequest::RegisterLoader { data, .. }) => {
                    &&& bytes@ == data
                    &&& final(self)@ == (EderaState { payload: Seq::empty(), ..old(self)@ })
                },
                _ => {
                    &&& bytes@ == Seq::<u8>::empty()
                    &&& final(self)@ == old(self)@
                },
            },
    {
        let mut bytes: Vec<u8> = Vec::new();
        match self.phase {
            Phase::RegisterConfig | Phase::RegisterKernel | Phase::RegisterInitrd => {
                std::mem::swap(&mut bytes, &mut self.payload);
            },
            _ => {},
        }
        bytes
    }

    /// How the boot went, once it is over, and the media loaders to unregister then, in the order
    /// in which they are to be.
    pub fn outcome(self) -> (ended: (Option<Result<(), EderaError<E>>>, Vec<L>))
        ensures
            ended.0 == self@.outcome,
            ended.1@ == self@.released,
    {
        (self.outcome, self.released)
    }
}

/// The items of a vector in the opposite order.
fn reversed<T>(items: Vec<T>) -> (opposite: Vec<T>)
    ensures
        opposite@ == items@.reverse(),
{
    let ghost all = items@;
    let mut rest = items;
    let mut opposite: Vec<T> = Vec::new();
    while rest.len() > 0
        invariant
            rest@.len() + opposite@.len() == all.len(),
            rest@ == all.take(rest@.len() as int),
            forall|i: int| 0 <= i < opposite@.len() ==> opposite@[i] == all[all.len() - 1 - i],
        decreases rest@.len(),
    {
        if let Some(item) = rest.pop() {
            opposite.push(item);
        }
    }
    opposite
}

/// Why a media loader could not be registered.
#[derive(Debug)]
pub struct RegisterError<'a, E> {
    /// The word for the file of the media loader.
    pub what: &'a str,
    /// What the registration reported.
    pub cause: E,
}

impl<'a, E> RegisterError<'a, E> {
    /// Describe the failure.
    pub fn context(&self) -> (text: String)
        ensures
            text@ == "unable to register "@ + self.what@ + " media loader"@,
    {
        "unable to register ".to_owned().concat(self.what).concat(" media loader")
    }
}

/// The registration of one media loader. `K` is the vendor GUID, `L` a registered media loader and
/// `E` the cause of a failure.
#[derive(Debug)]
pub enum LoaderRegistration<'a, K, L, E> {
    /// Register a media loader for `bytes` under `guid`.
    Register { guid: K, what: &'a str, bytes: Vec<u8> },
    /// The media loader is registered, or could not be.
    Finished { loader: Result<L, RegisterError<'a, E>> },
}

impl<'a, K, L, E> LoaderRegistration<'a, K, L, E> {
    /// The registration once it was tried. One that is finished stays as it is.
    pub open spec fn next(self, registered: Result<L, E>) -> Self {
        match (self, registered) {
            (
                LoaderRegistration::Register { .. },
                Ok(loader),
            ) => LoaderRegistration::Finished { loader: Ok(loader) },
            (
                LoaderRegistration::Register { what, .. },
                Err(cause),
            ) => LoaderRegistration::Finished { loader: Err(RegisterError { what, cause }) },
            (LoaderRegistration::Finished { .. }, _) => self,
        }
    }

    /// Take what the registration brought.
    pub fn step(self, registered: Result<L, E>) -> (registration: Self)
        ensures
            registration == self.next(registered),
    {
        match (self, registered) {
            (
                LoaderRegistration::Register { .. },
                Ok(loader),
            ) => LoaderRegistration::Finished { loader: Ok(loader) },
            (
                LoaderRegistration::Register { what, .. },
                Err(cause),
            ) => LoaderRegistration::Finished { loader: Err(RegisterError { what, cause }) },
            (registration, _) => registration,
        }
    }
}

/// Register a media loader for the provided `bytes` with the vendor `guid`.
/// `what` should indicate some identifying value for error messages like `config` or `kernel`.
/// Provides the media loader, which can be used to unregister it.
pub fn register_media_loader_bytes<'a, K, L, E>(
    guid: K,
    what: &'a str,
    bytes: Vec<u8>,
) -> (registration: LoaderRegistration<'a, K, L, E>)
    ensures
        registration matches LoaderRegistration::Register { guid: id, what: word, bytes: data }
            && id == guid && word@ == what@ && data@ == bytes@,
{
    LoaderRegistration::Register { guid, what, bytes }
}

/// Why the contents of a file could not be read.
#[derive(Debug)]
pub enum PayloadError<'a, E> {
    /// The path of the loaded image, which the file's path is relative to, is not to be had.
    ImagePath { cause: E },
    /// The file could not be read.
    Read { what: &'a str, cause: E },
}

impl<'a, E> PayloadError<'a, E> {
    /// Describe the failure, where the cause does not do so itself.
    pub fn context(&self) -> (text: Option<String>)
        ensures
            match self {
                PayloadError::ImagePath { .. } => text is None,
                PayloadError::Read { what, .. } => {
                    &&& text matches Some(text)
                    &&& text@ == "unable to read "@ + what@ + " file"@
                },
            },
    {
        match self {
            PayloadError::ImagePath { .. } => None,
            PayloadError::Read { what, .. } => Some(
                "unable to read ".to_owned().concat(what).concat(" file"),
            ),
        }
    }
}

/// The reading of a file. Each state but the last names the outside work that it waits for.
/// `I` is the path of the loaded image and `E` the cause of a failure.
#[derive(Debug)]
pub enum PayloadRead<'a, I, E> {
    /// Stamp the path as it stands in the configuration.
    StampPath { what: &'a str, unstamped: &'a str },
    /// Get the path of the loaded image.
    GetImagePath { what: &'a str, path: String },
    /// Read the file at `path`, relative to the loaded image.
    ReadFile { what: &'a str, image: I, path: String },
    /// The file is read, or could not be.
    Finished { contents: Result<Vec<u8>, PayloadError<'a, E>> },
}

/// The answer to the outside work that a [`PayloadRead`] waits for.
#[derive(Debug)]
pub enum PayloadAnswer<I, E> {
    /// The stamped path.
    Stamped(String),
    /// What getting the path of the loaded image brought.
    ImagePath(Result<I, E>),
    /// What reading the file brought.
    Contents(Result<Vec<u8>, E>),
}

impl<'a, I, E> PayloadRead<'a, I, E> {
    /// The state after `answer`. An answer to other work than the state waits for changes nothing.
    pub open spec fn next(self, answer: PayloadAnswer<I, E>) -> Self {
        match (self, answer) {
            (
                PayloadRead::StampPath { what, unstamped },
                PayloadAnswer::Stamped(stamped),
            ) => PayloadRead::GetImagePath { what, path: stamped },
            (
                PayloadRead::GetImagePath { what, path },
                PayloadAnswer::ImagePath(image),
            ) => match image {
                Ok(image) => PayloadRead::ReadFile { what, image, path },
                Err(cause) => PayloadRead::Finished {
                    contents: Err(PayloadError::ImagePath { cause }),
                },
            },
            (
                PayloadRead::ReadFile { what, image, path },
                PayloadAnswer::Contents(contents),
            ) => match contents {
                Ok(contents) => PayloadRead::Finished { contents: Ok(contents) },
                Err(cause) => PayloadRead::Finished {
                    contents: Err(PayloadError::Read { what, cause }),
                },
            },
            _ => self,
        }
    }

    /// Take the answer to the outside work that this state waits for.
    pub fn step(self, answer: PayloadAnswer<I, E>) -> (read: Self)
        ensures
            read == self.next(answer),
    {
        match (self, answer) {
            (
                PayloadRead::StampPath { what, .. },
                PayloadAnswer::Stamped(path),
            ) => PayloadRead::GetImagePath { what, path },
            (
                PayloadRead::GetImagePath { what, path },
                PayloadAnswer::ImagePath(image),
            ) => match image {
                Ok(image) => PayloadRead::ReadFile { what, image, path },
                Err(cause) => PayloadRead::Finished {
                    contents: Err(PayloadError::ImagePath { cause }),
                },
            },
            (
                PayloadRead::ReadFile { what, .. },
                PayloadAnswer::Contents(contents),
            ) => match contents {
                Ok(contents) => PayloadRead::Finished { contents: Ok(contents) },
                Err(cause) => PayloadRead::Finished {
                    contents: Err(PayloadError::Read { what, cause }),
                },
            },
            (read, _) => read,
        }
    }
}

/// Read the contents of the loader payload at `path` relative to the loaded image.
/// `what` should indicate some identifying value for error messages like `kernel` or `initrd`.
pub fn read_loader_payload<'a, I, E>(
    what: &'a str,
    path: &'a str,
) -> (read: PayloadRead<'a, I, E>)
    ensures
        read matches PayloadRead::StampPath { what: word, unstamped } && word@ == what@
            && unstamped@ == path@,
{
    PayloadRead::StampPath { what, unstamped: path }
}

} // verus!
