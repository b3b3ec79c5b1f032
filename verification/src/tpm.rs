//! Access to the platform TPM, and the measurements made through it.
//!
//! The firmware is reached in a fixed order: look for a handle of the TCG2 protocol, open the
//! protocol, ask for the capability of the TPM. [`TpmAccess`] is that order. What comes out of it
//! is handed to [`PlatformTpm::present`], [`PlatformTpm::active_pcr_banks`] or
//! [`PlatformTpm::log_event`].
use crate::status::{invalid_parameter_status, out_of_resources_status, Status};
use uefi::proto::tcg::v2::PcrEventInputs;
use vstd::prelude::*;

verus! {

/// Version of the TCG2 protocol.
#[derive(Clone, Copy, Debug, PartialEq, Eq, Structural)]
pub struct Tcg2Version {
    /// Major version.
    pub major: u8,
    /// Minor version.
    pub minor: u8,
}

impl Tcg2Version {
    /// Whether this version is `major.minor` or a later one.
    pub open spec fn at_least(self, major: int, minor: int) -> bool {
        self.major > major || (self.major == major && self.minor >= minor)
    }
}

/// What the firmware says about the TPM, as far as it matters here.
#[derive(Clone, Copy, Debug, PartialEq, Eq, Structural)]
pub struct TpmCapability {
    /// The version of the TCG2 protocol that the firmware speaks.
    pub protocol_version: Tcg2Version,
    /// Whether the TPM device is present.
    pub tpm_present: bool,
}

/// Represents an open TPM handle: `P` is the open protocol itself.
#[derive(Debug)]
pub struct TpmProtocolHandle<P> {
    /// The version of the TPM protocol.
    pub version: Tcg2Version,
    /// The protocol itself.
    pub protocol: P,
}

impl<P> TpmProtocolHandle<P> {
    /// Construct a new [`TpmProtocolHandle`] from the `version` and `protocol`.
    pub fn new(version: Tcg2Version, protocol: P) -> (handle: Self)
        ensures
            handle == (TpmProtocolHandle { version, protocol }),
    {
        TpmProtocolHandle { version, protocol }
    }

    /// Access the version provided by the tcg2 protocol.
    pub fn version(&self) -> (version: Tcg2Version)
        ensures
            version == self.version,
    {
        self.version
    }

    /// Access the protocol interface for tcg2.
    pub fn protocol(&mut self) -> (protocol: &mut P)
        ensures
            *protocol == old(self).protocol,
            final(self).protocol == *final(protocol),
            final(self).version == old(self).version,
    {
        &mut self.protocol
    }
}

/// Why the TPM could not be used. `E` is the cause that the outside work reported.
#[derive(Debug)]
pub enum TpmError<E> {
    /// The handle of the TCG2 protocol could not be looked for.
    Presence(E),
    /// The TCG2 protocol could not be opened.
    Open(E),
    /// The capability of the TPM could not be asked for.
    Capability(E),
    /// The active PCR banks could not be asked for.
    ActiveBanks(E),
    /// The event to log could not be put together.
    EventInputs(Status),
    /// The event could not be logged.
    Log(E),
}

impl<E> TpmError<E> {
    /// The text that describes the failed step.
    pub open spec fn context_text(self) -> Seq<char> {
        match self {
            TpmError::Presence(_) => "unable to determine tpm presence"@,
            TpmError::Open(_) => "unable to open tcg2 protocol"@,
            TpmError::Capability(_) => "unable to get tcg2 boot service capability"@,
            TpmError::ActiveBanks(_) => "unable to get active pcr banks"@,
            TpmError::EventInputs(_) => "unable to construct pcr event inputs"@,
            TpmError::Log(_) => "unable to log event to tpm"@,
        }
    }

    /// Describe the failed step.
    pub fn context(&self) -> (text: &'static str)
        ensures
            text@ == self.context_text(),
    {
        match self {
            TpmError::Presence(_) => "unable to determine tpm presence",
            TpmError::Open(_) => "unable to open tcg2 protocol",
            TpmError::Capability(_) => "unable to get tcg2 boot service capability",
            TpmError::ActiveBanks(_) => "unable to get active pcr banks",
            TpmError::EventInputs(_) => "unable to construct pcr event inputs",
            TpmError::Log(_) => "unable to log event to tpm",
        }
    }
}

/// The way to the TPM. Each state but the last names the outside work that it waits for.
/// `H` is a firmware handle, `P` the open protocol and `E` the cause of a failure.
#[derive(Debug)]
pub enum TpmAccess<H, P, E> {
    /// Look for a handle that implements the TCG2 protocol.
    FindHandle,
    /// Open the TCG2 protocol of the handle.
    OpenProtocol { handle: H },
    /// Ask the open protocol for the capability of the TPM.
    GetCapability { protocol: P },
    /// The TPM was reached, is not available, or could not be reached.
    Finished { found: Result<Option<TpmProtocolHandle<P>>, TpmError<E>> },
}

/// The answer to the outside work that a [`TpmAccess`] waits for.
#[derive(Debug)]
pub enum TpmAnswer<H, P, E> {
    /// What the search for a handle brought.
    Found(Result<Option<H>, E>),
    /// What opening the protocol brought.
    Opened(Result<P, E>),
    /// What the question for the capability brought.
    Capability(Result<TpmCapability, E>),
}

impl<H, P, E> TpmAccess<H, P, E> {
    /// The state after `answer`. An answer to other work than the state waits for changes nothing.
    pub open spec fn next(self, answer: TpmAnswer<H, P, E>) -> Self {
        match (self, answer) {
            (TpmAccess::FindHandle, TpmAnswer::Found(found)) => match found {
                Ok(Some(handle)) => TpmAccess::OpenProtocol { handle },
                Ok(None) => TpmAccess::Finished { found: Ok(None) },
                Err(cause) => TpmAccess::Finished { found: Err(TpmError::Presence(cause)) },
            },
            (TpmAccess::OpenProtocol { handle }, TpmAnswer::Opened(opened)) => match opened {
                Ok(protocol) => TpmAccess::GetCapability { protocol },
                Err(cause) => TpmAccess::Finished { found: Err(TpmError::Open(cause)) },
            },
            (
                TpmAccess::GetCapability { protocol },
                TpmAnswer::Capability(capability),
            ) => match capability {
                Ok(capability) => TpmAccess::Finished {
                    found: Ok(
                        if capability.tpm_present {
                            Some(
                                TpmProtocolHandle {
                                    version: capability.protocol_version,
                                    protocol,
                                },
                            )
                        } else {
                            None
                        },
                    ),
                },
                Err(cause) => TpmAccess::Finished { found: Err(TpmError::Capability(cause)) },
            },
            _ => self,
        }
    }

    /// Take the answer to the outside work that this state waits for.
    pub fn step(self, answer: TpmAnswer<H, P, E>) -> (access: Self)
        ensures
            access == self.next(answer),
    {
        match (self, answer) {
            (TpmAccess::FindHandle, TpmAnswer::Found(found)) => match found {
                Ok(Some(handle)) => TpmAccess::OpenProtocol { handle },
                // If the protocol is not available, there is no TPM.
                Ok(None) => TpmAccess::Finished { found: Ok(None) },
                Err(cause) => TpmAccess::Finished { found: Err(TpmError::Presence(cause)) },
            },
            (TpmAccess::OpenProtocol { .. }, TpmAnswer::Opened(opened)) => match opened {
                Ok(protocol) => TpmAccess::GetCapability { protocol },
                Err(cause) => TpmAccess::Finished { found: Err(TpmError::Open(cause)) },
            },
            (
                TpmAccess::GetCapability { protocol },
                TpmAnswer::Capability(capability),
            ) => match capability {
                Ok(capability) => {
                    // The protocol can be there without a TPM behind it.
                    if !capability.tpm_present {
                        return TpmAccess::Finished { found: Ok(None) };
                    }
                    let handle = TpmProtocolHandle::new(capability.protocol_version, protocol);
                    TpmAccess::Finished { found: Ok(Some(handle)) }
                },
                Err(cause) => TpmAccess::Finished { found: Err(TpmError::Capability(cause)) },
            },
            (access, _) => access,
        }
    }
}

/// What the way to the TPM ends in, given what each piece of outside work would bring.
pub open spec fn tpm_found<H, P, E>(
    found: Result<Option<H>, E>,
    opened: Result<P, E>,
    capability: Result<TpmCapability, E>,
) -> Result<Option<TpmProtocolHandle<P>>, TpmError<E>> {
    if found is Err {
        Err(TpmError::Presence(found->Err_0))
    } else if found->Ok_0 is None {
        Ok(None)
    } else if opened is Err {
        Err(TpmError::Open(opened->Err_0))
    } else if capability is Err {
        Err(TpmError::Capability(capability->Err_0))
    } else if !capability->Ok_0.tpm_present {
        Ok(None)
    } else {
        Ok(
            Some(
                TpmProtocolHandle {
                    version: capability->Ok_0.protocol_version,
                    protocol: opened->Ok_0,
                },
            ),
        )
    }
}

/// The state of `access` after the three answers in the order in which they are asked for.
pub open spec fn tpm_access_run<H, P, E>(
    access: TpmAccess<H, P, E>,
    found: Result<Option<H>, E>,
    opened: Result<P, E>,
    capability: Result<TpmCapability, E>,
) -> TpmAccess<H, P, E> {
    access.next(TpmAnswer::Found(found)).next(TpmAnswer::Opened(opened)).next(
        TpmAnswer::Capability(capability),
    )
}

/// Whatever the outside work brings, the way to the TPM ends after at most three answers, with a
/// TPM exactly where a handle was found, its protocol opened, and its capability says that the
/// device is present. Work that follows a failure or a missing handle has no influence.
pub proof fn law_tpm_access<H, P, E>(
    found: Result<Option<H>, E>,
    opened: Result<P, E>,
    capability: Result<TpmCapability, E>,
)
    ensures
        tpm_access_run(TpmAccess::FindHandle, found, opened, capability) == (
        TpmAccess::<H, P, E>::Finished { found: tpm_found(found, opened, capability) }),
{
}

/// The outside work on the way to the TPM, and what each piece of it leads to: the handle that was
/// found is the one that is opened, the protocol that was opened is the one that is asked, and that
/// protocol, with the version that it reported, is the TPM, exactly where it reported one. Each
/// failure is handed on with its cause, as the failure of the step in which it happened.
pub proof fn law_tpm_access_answers<H, P, E>(
    handle: H,
    protocol: P,
    capability: TpmCapability,
    cause: E,
)
    ensures
        ({
            let find = TpmAccess::<H, P, E>::FindHandle;
            let open = find.next(TpmAnswer::Found(Ok(Some(handle))));
            let ask = open.next(TpmAnswer::Opened(Ok(protocol)));
            let end = ask.next(TpmAnswer::Capability(Ok(capability)));
            &&& open == (TpmAccess::<H, P, E>::OpenProtocol { handle })
            &&& ask == (TpmAccess::<H, P, E>::GetCapability { protocol })
            &&& end matches TpmAccess::Finished { found: Ok(tpm) } && (tpm is Some
                <==> capability.tpm_present) && (tpm matches Some(tpm) ==> tpm.protocol == protocol
                && tpm.version == capability.protocol_version)
            &&& find.next(TpmAnswer::Found(Ok(None))) == (TpmAccess::<H, P, E>::Finished {
                found: Ok(None),
            })
            &&& find.next(TpmAnswer::Found(Err(cause))) == (TpmAccess::<H, P, E>::Finished {
                found: Err(TpmError::Presence(cause)),
            })
            &&& open.next(TpmAnswer::Opened(Err(cause))) == (TpmAccess::<H, P, E>::Finished {
                found: Err(TpmError::Open(cause)),
            })
            &&& ask.next(TpmAnswer::Capability(Err(cause))) == (TpmAccess::<H, P, E>::Finished {
                found: Err(TpmError::Capability(cause)),
            })
        }),
{
}

/// An answer to other work than the way to the TPM waits for changes nothing.
pub proof fn law_tpm_access_other_answers<H, P, E>(
    access: TpmAccess<H, P, E>,
    answer: TpmAnswer<H, P, E>,
)
    requires
        !(access is FindHandle && answer is Found),
        !(access is OpenProtocol && answer is Opened),
        !(access is GetCapability && answer is Capability),
    ensures
        access.next(answer) == access,
{
}

/// A finished way to the TPM stays as it is, whatever answer it is given.
pub proof fn law_tpm_access_final<H, P, E>(
    found: Result<Option<TpmProtocolHandle<P>>, TpmError<E>>,
    answer: TpmAnswer<H, P, E>,
)
    ensures
        (TpmAccess::Finished { found }).next(answer) == (TpmAccess::<H, P, E>::Finished { found }),
{
}

/// The event that is handed to the TPM along with the data to measure. It is the firmware's own
/// record; what it holds is named by [`event_header`] and [`event_data`].
#[verifier::external_type_specification]
#[verifier::external_body]
pub struct ExPcrEventInputs(PcrEventInputs);

/// The numbers at the head of an event, in their order: the size of the whole record, the size of
/// its header, the version of the header, the PCR and the event type.
pub uninterp spec fn event_header(event: &PcrEventInputs) -> Seq<u32>;

/// The bytes behind the head of an event.
pub uninterp spec fn event_data(event: &PcrEventInputs) -> Seq<u8>;

/// The number of bytes at the head of an event.
pub open spec fn event_head_size() -> int {
    18
}

/// The numbers at the head of an event of the given type, for the given PCR, with `len` bytes of
/// data.
pub open spec fn head_numbers(pcr_index: u32, event_type: u32, len: nat) -> Seq<u32> {
    seq![(event_head_size() + len) as u32, 14u32, 1u32, pcr_index, event_type]
}

/// Whether `event` is the event of the given type, for the given PCR, that carries `data`.
pub open spec fn is_event(
    event: &PcrEventInputs,
    pcr_index: u32,
    event_type: u32,
    data: Seq<u8>,
) -> bool {
    &&& event_header(event) == head_numbers(pcr_index, event_type, data.len())
    &&& event_data(event) == data
}

/// The type of the events that are logged: initial program load.
pub open spec fn ipl_event_type() -> u32 {
    0x0d
}

/// Calls `PcrEventInputs::new_in_box`. Where the record's size fits in 32 bits, the result is an
/// event that holds the arguments, unless there was no memory for it. A larger record is turned
/// down as an invalid parameter, if there was memory to try. The call panics on data whose record
/// is too large for any allocation.
#[verifier::external_body]
fn new_event(pcr_index: u32, event_type: u32, data: &[u8]) -> (result: Result<
    Box<PcrEventInputs>,
    Status,
>)
    requires
        event_head_size() + data@.len() <= isize::MAX,
    ensures
        match result {
            Ok(event) => {
                &&& event_head_size() + data@.len() <= u32::MAX
                &&& event_header(&*event) == head_numbers(pcr_index, event_type, data@.len())
                &&& event_data(&*event) == data@
            },
            Err(status) => {
                ||| status == out_of_resources_status()
                ||| status == invalid_parameter_status() && event_head_size() + data@.len()
                    > u32::MAX
            },
        },
{
    PcrEventInputs::new_in_box(
        uefi::proto::tcg::PcrIndex(pcr_index),
        uefi_raw::protocol::tcg::EventType(event_type),
        data,
    ).map_err(|error| Status { code: error.status().0 })
}

/// Whether `made` is what a call of the constructor of events brought on these arguments. Whether
/// there is memory for the event is the machine's to say, so that more than one outcome can be; but
/// each is one that a call had.
pub closed spec fn event_made(
    pcr_index: u32,
    event_type: u32,
    data: Seq<u8>,
    made: Result<Box<PcrEventInputs>, Status>,
) -> bool {
    exists|bytes: &[u8]| #[trigger]
        call_ensures(new_event, (pcr_index, event_type, bytes), made) && bytes@ == data
}

/// The outcomes are those of the calls of [`new_event`] and no others.
proof fn law_event_made_by_call(
    pcr_index: u32,
    event_type: u32,
    data: Seq<u8>,
    made: Result<Box<PcrEventInputs>, Status>,
)
    ensures
        event_made(pcr_index, event_type, data, made) <==> exists|bytes: &[u8]| #[trigger]
            call_ensures(new_event, (pcr_index, event_type, bytes), made) && bytes@ == data,
{
}

/// An event that was made holds exactly the arguments, whatever they are. None is made where the
/// record's size does not fit in 32 bits, and where it fits, only a lack of memory keeps one from
/// being made.
pub proof fn law_event_made(
    pcr_index: u32,
    event_type: u32,
    data: Seq<u8>,
    made: Result<Box<PcrEventInputs>, Status>,
)
    requires
        event_made(pcr_index, event_type, data, made),
    ensures
        match made {
            Ok(event) => {
                &&& 18 + data.len() <= u32::MAX
                &&& event_header(&*event) == seq![
                    (18 + data.len()) as u32,
                    14u32,
                    1u32,
                    pcr_index,
                    event_type,
                ]
                &&& event_data(&*event) == data
            },
            Err(status) => status == out_of_resources_status() || (status
                == invalid_parameter_status() && 18 + data.len() > u32::MAX),
        },
{
    law_event_made_by_call(pcr_index, event_type, data, made);
}

/// The constant `uefi_raw::protocol::tcg::EventType::IPL`, whose number is thirteen.
#[verifier::external_body]
fn event_type_ipl() -> (event_type: u32)
    ensures
        event_type == ipl_event_type(),
{
    uefi_raw::protocol::tcg::EventType::IPL.0
}

/// Calls `Tcg2HashLogExtendEventFlags::empty`, whose bits are all clear.
#[verifier::external_body]
fn no_flags() -> (flags: u64)
    ensures
        flags == 0,
{
    uefi_raw::protocol::tcg::v2::Tcg2HashLogExtendEventFlags::empty().bits()
}

/// The question for the active PCR banks of the TPM.
#[derive(Debug)]
pub enum BankQuery<P, E> {
    /// Ask the open protocol for the bitmap of the active PCR banks.
    GetActivePcrBanks { handle: TpmProtocolHandle<P> },
    /// The number of active PCR banks is known, or could not be found out.
    Finished { banks: Result<u32, TpmError<E>> },
}

impl<P, E> BankQuery<P, E> {
    /// The query that what the way to the TPM ended in calls for. The question for the active PCR
    /// banks came with version 1.1 of the protocol.
    pub open spec fn of(found: Result<Option<TpmProtocolHandle<P>>, TpmError<E>>) -> Self {
        match found {
            Ok(Some(handle)) => if handle.version.at_least(1, 1) {
                BankQuery::GetActivePcrBanks { handle }
            } else {
                BankQuery::Finished { banks: Ok(0) }
            },
            Ok(None) => BankQuery::Finished { banks: Ok(0) },
            Err(error) => BankQuery::Finished { banks: Err(error) },
        }
    }

    /// The query once the protocol has reported the bitmap of the active PCR banks. A query that
    /// is finished stays as it is.
    pub open spec fn next(self, reported: Result<u32, E>) -> Self {
        match (self, reported) {
            (BankQuery::GetActivePcrBanks { .. }, Ok(bitmap)) => BankQuery::Finished {
                banks: Ok(bits_set(bitmap) as u32),
            },
            (BankQuery::GetActivePcrBanks { .. }, Err(cause)) => BankQuery::Finished {
                banks: Err(TpmError::ActiveBanks(cause)),
            },
            (BankQuery::Finished { .. }, _) => self,
        }
    }

    /// Take the bitmap of the active PCR banks that the protocol reported.
    pub fn step(self, reported: Result<u32, E>) -> (query: Self)
        ensures
            query == self.next(reported),
    {
        match (self, reported) {
            (BankQuery::GetActivePcrBanks { .. }, Ok(bitmap)) => BankQuery::Finished {
                banks: Ok(count_banks(bitmap)),
            },
            (BankQuery::GetActivePcrBanks { .. }, Err(cause)) => BankQuery::Finished {
                banks: Err(TpmError::ActiveBanks(cause)),
            },
            (query, _) => query,
        }
    }
}

/// The number of bits that are set in `bitmap`.
pub open spec fn bits_set(bitmap: u32) -> nat
    decreases bitmap,
{
    if bitmap == 0 {
        0
    } else {
        bitmap as nat % 2 + bits_set(bitmap / 2)
    }
}

/// A bitmap below a power of two has at most as many bits set as the exponent says.
proof fn lemma_bits_set_bound(bitmap: u32, width: nat)
    requires
        bitmap < vstd::arithmetic::power2::pow2(width),
    ensures
        bits_set(bitmap) <= width,
    decreases width,
{
    vstd::arithmetic::power2::lemma2_to64();
    if bitmap > 0 {
        assert(width > 0);
        vstd::arithmetic::power2::lemma_pow2_unfold(width);
        lemma_bits_set_bound(bitmap / 2, (width - 1) as nat);
    }
}

/// Each PCR bank is one bit of the bitmap, so there are at most 32 of them, and none exactly where
/// the bitmap is empty.
pub proof fn law_bank_count(bitmap: u32)
    ensures
        bits_set(bitmap) <= 32,
        bits_set(bitmap) == 0 <==> bitmap == 0,
    decreases bitmap,
{
    vstd::arithmetic::power2::lemma2_to64();
    lemma_bits_set_bound(bitmap, 32);
    if bitmap > 0 {
        law_bank_count(bitmap / 2);
    }
}

/// The count is the number of places from 0 to 31 at which a bit of the bitmap is set.
pub proof fn law_bank_count_is_exact(bitmap: u32)
    ensures
        Set::new(|place: u32| place < 32 && (bitmap >> place) & 1 == 1).finite(),
        bits_set(bitmap) == Set::new(
            |place: u32| place < 32 && (bitmap >> place) & 1 == 1,
        ).len(),
    decreases bitmap,
{
    let places = Set::new(|place: u32| place < 32 && (bitmap >> place) & 1 == 1);
    if bitmap == 0 {
        assert forall|place: u32| !places.contains(place) by {
            assert(place < 32 ==> (0u32 >> place) & 1 == 0) by (bit_vector);
        }
        assert(places =~= Set::empty());
    } else {
        let half = bitmap / 2;
        law_bank_count_is_exact(half);
        let lower = Set::new(|place: u32| place < 32 && (half >> place) & 1 == 1);
        let up = |place: u32| (place + 1) as u32;
        let moved = lower.map(up);
        assert forall|place: u32| lower.contains(place) implies place < 31 by {
            assert((bitmap / 2) >> 31 & 1 == 0) by (bit_vector);
        }
        assert forall|place: u32| #[trigger] moved.contains(place) <==> place > 0
            && places.contains(place) by {
            if moved.contains(place) {
                let from = choose|from: u32| lower.contains(from) && place == up(from);
                assert(lower.contains(from) && place == up(from));
                assert(((bitmap / 2) >> from) & 1 == (bitmap >> place) & 1) by (bit_vector)
                    requires
                        from < 31,
                        place == from + 1,
                ;
            }
            if place > 0 && places.contains(place) {
                let from = (place - 1) as u32;
                assert(((bitmap / 2) >> from) & 1 == (bitmap >> place) & 1) by (bit_vector)
                    requires
                        from < 31,
                        place == from + 1,
                ;
                assert(lower.contains(from) && up(from) == place);
            }
        }
        vstd::set_lib::lemma_map_size(lower, moved, up);
        assert((bitmap >> 0) & 1 == bitmap % 2) by (bit_vector);
        if bitmap % 2 == 1 {
            assert(places =~= moved.insert(0));
        } else {
            assert(places =~= moved);
        }
    }
}

/// Count the PCR banks in a bitmap of them.
pub fn count_banks(bitmap: u32) -> (count: u32)
    ensures
        count == bits_set(bitmap),
        count == Set::new(|place: u32| place < 32 && (bitmap >> place) & 1 == 1).len(),
{
    proof {
        law_bank_count(bitmap);
        law_bank_count_is_exact(bitmap);
    }
    let mut rest: u32 = bitmap;
    let mut count: u32 = 0;
    while rest != 0
        invariant
            count + bits_set(rest) == bits_set(bitmap),
            bits_set(bitmap) <= 32,
        decreases rest,
    {
        count = count + rest % 2;
        rest = rest / 2;
    }
    count
}

/// The logging of one event.
#[derive(Debug)]
pub enum EventLog<'a, P, E> {
    /// Have the TPM hash `buffer`, extend a PCR with it and log the `event`.
    HashLogExtendEvent {
        handle: TpmProtocolHandle<P>,
        flags: u64,
        buffer: &'a [u8],
        event: Box<PcrEventInputs>,
    },
    /// The event is logged, there is no TPM to log it to, or it could not be logged.
    Finished { result: Result<(), TpmError<E>> },
}

impl<'a, P, E> EventLog<'a, P, E> {
    /// Go on with what putting the event together brought.
    pub fn with_event(
        handle: TpmProtocolHandle<P>,
        buffer: &'a [u8],
        event: Result<Box<PcrEventInputs>, Status>,
    ) -> (log: Self)
        ensures
            match event {
                Ok(event) => log == (Self::HashLogExtendEvent {
                    handle,
                    flags: 0,
                    buffer,
                    event,
                }),
                Err(status) => log == (Self::Finished {
                    result: Err(TpmError::EventInputs(status)),
                }),
            },
    {
        match event {
            Ok(event) => EventLog::HashLogExtendEvent { handle, flags: no_flags(), buffer, event },
            Err(status) => EventLog::Finished { result: Err(TpmError::EventInputs(status)) },
        }
    }

    /// The log once the TPM has reported on the event. A log that is finished stays as it is.
    pub open spec fn next(self, reported: Result<(), E>) -> Self {
        match (self, reported) {
            (EventLog::HashLogExtendEvent { .. }, Ok(())) => EventLog::Finished { result: Ok(()) },
            (EventLog::HashLogExtendEvent { .. }, Err(cause)) => EventLog::Finished {
                result: Err(TpmError::Log(cause)),
            },
            (EventLog::Finished { .. }, _) => self,
        }
    }

    /// Take what the TPM reported on the event.
    pub fn step(self, reported: Result<(), E>) -> (log: Self)
        ensures
            log == self.next(reported),
    {
        match (self, reported) {
            (EventLog::HashLogExtendEvent { .. }, Ok(())) => EventLog::Finished { result: Ok(()) },
            (EventLog::HashLogExtendEvent { .. }, Err(cause)) => EventLog::Finished {
                result: Err(TpmError::Log(cause)),
            },
            (log, _) => log,
        }
    }
}

/// Represents the platform TPM.
pub struct PlatformTpm;

impl PlatformTpm {
    /// The PCR for measuring the bootloader configuration into.
    pub const PCR_BOOT_LOADER_CONFIG: u32 = 5;

    /// The PCR for measuring the dom0 initrd payload into.
    pub const PCR_INITRD: u32 = 9;

    /// The PCR for measuring the dom0 kernel payload into.
    pub const PCR_KERNEL: u32 = 11;

    /// The PCR for measuring kernel command line and xen options into.
    pub const PCR_KERNEL_PARAMETERS: u32 = 12;

    /// Start on the way to the TPM.
    pub fn protocol<H, P, E>() -> (access: TpmAccess<H, P, E>)
        ensures
            access == TpmAccess::<H, P, E>::FindHandle,
    {
        TpmAccess::FindHandle
    }

    /// Determines whether the platform TPM is present, from what the way to it ended in.
    pub fn present<P, E>(found: Result<Option<TpmProtocolHandle<P>>, TpmError<E>>) -> (present:
        Result<bool, TpmError<E>>)
        ensures
            present == (match found {
                Ok(handle) => Ok(handle is Some),
                Err(error) => Err(error),
            }),
    {
        match found {
            Ok(handle) => Ok(handle.is_some()),
            Err(error) => Err(error),
        }
    }

    /// Determine the number of active PCR banks on the TPM, from what the way to it ended in.
    /// If no TPM is available, this is zero, and so it is if the TPM is too old to tell: the
    /// question came with version 1.1 of the protocol.
    pub fn active_pcr_banks<P, E>(
        found: Result<Option<TpmProtocolHandle<P>>, TpmError<E>>,
    ) -> (query: BankQuery<P, E>)
        ensures
            query == BankQuery::of(found),
            match found {
                Ok(Some(handle)) => if handle.version.major > 1 || (handle.version.major == 1
                    && handle.version.minor > 0) {
                    query == (BankQuery::<P, E>::GetActivePcrBanks { handle })
                } else {
                    query == (BankQuery::<P, E>::Finished { banks: Ok(0) })
                },
                Ok(None) => query == (BankQuery::<P, E>::Finished { banks: Ok(0) }),
                Err(error) => query == (BankQuery::<P, E>::Finished { banks: Err(error) }),
            },
    {
        let handle = match found {
            Ok(Some(handle)) => handle,
            Ok(None) => return BankQuery::Finished { banks: Ok(0) },
            Err(error) => return BankQuery::Finished { banks: Err(error) },
        };
        let version = handle.version();
        if version.major < 1 || (version.major == 1 && version.minor < 1) {
            return BankQuery::Finished { banks: Ok(0) };
        }
        BankQuery::GetActivePcrBanks { handle }
    }

    /// Put together the event that is logged for the PCR `pcr_index` under the `description`. What
    /// is measured has no part in it.
    pub fn event_inputs(pcr_index: u32, description: &str) -> (made: Result<
        Box<PcrEventInputs>,
        Status,
    >)
        requires
            event_head_size() + vstd::utf8::encode_utf8(description@).len() <= isize::MAX,
        ensures
            event_made(pcr_index, 0x0d, vstd::utf8::encode_utf8(description@), made),
            match made {
                Ok(event) => {
                    let data = vstd::utf8::encode_utf8(description@);
                    &&& 18 + data.len() <= u32::MAX
                    &&& event_header(&*event) == seq![
                        (18 + data.len()) as u32,
                        14u32,
                        1u32,
                        pcr_index,
                        0x0du32,
                    ]
                    &&& event_data(&*event) == data
                },
                Err(status) => status == out_of_resources_status() || (status
                    == invalid_parameter_status() && 18 + vstd::utf8::encode_utf8(
                    description@,
                ).len() > u32::MAX),
            },
    {
        let bytes = description.as_bytes();
        let event_type: u32 = event_type_ipl();
        // Called as a value, so that the contract can speak of what this call brought.
        let make = new_event;
        let made = make(pcr_index, event_type, bytes);
        proof {
            assert(call_ensures(new_event, (pcr_index, event_type, bytes), made));
            law_event_made_by_call(pcr_index, event_type, bytes@, made);
            law_event_made(pcr_index, event_type, bytes@, made);
        }
        made
    }

    /// Log an event into the TPM pcr `pcr_index` with `buffer` as data, given what the way to the
    /// TPM ended in. The `description` is used to describe what the event is.
    ///
    /// If a TPM is not available, this will do nothing.
    pub fn log_event<'a, P, E>(
        found: Result<Option<TpmProtocolHandle<P>>, TpmError<E>>,
        pcr_index: u32,
        buffer: &'a [u8],
        description: &str,
    ) -> (log: EventLog<'a, P, E>)
        requires
            (found matches Ok(Some(_))) ==> event_head_size() + vstd::utf8::encode_utf8(
                description@,
            ).len() <= isize::MAX,
        ensures
            found matches Ok(Some(handle)) ==> exists|made: Result<Box<PcrEventInputs>, Status>|
                {
                    &&& #[trigger] call_ensures(
                        PlatformTpm::event_inputs,
                        (pcr_index, description),
                        made,
                    )
                    &&& match made {
                        Ok(event) => log matches EventLog::HashLogExtendEvent {
                            handle: used,
                            flags,
                            buffer: data,
                            event: logged,
                        } && used == handle && flags == 0 && data@ == buffer@ && logged == event,
                        Err(status) => log matches EventLog::Finished { result } && result == Err::<
                            (),
                            TpmError<E>,
                        >(TpmError::EventInputs(status)),
                    }
                },
            log matches EventLog::HashLogExtendEvent { event, .. } ==> {
                let data = vstd::utf8::encode_utf8(description@);
                &&& event_header(&*event) == seq![
                    (18 + data.len()) as u32,
                    14u32,
                    1u32,
                    pcr_index,
                    0x0du32,
                ]
                &&& event_data(&*event) == data
            },
            match found {
                Ok(Some(handle)) => match log {
                    EventLog::HashLogExtendEvent { handle: used, flags, buffer: data, event } => {
                        &&& used == handle
                        &&& flags == 0
                        &&& data@ == buffer@
                        &&& event_head_size() + vstd::utf8::encode_utf8(description@).len()
                            <= u32::MAX
                        &&& is_event(
                            &*event,
                            pcr_index,
                            ipl_event_type(),
                            vstd::utf8::encode_utf8(description@),
                        )
                    },
                    EventLog::Finished { result } => {
                        &&& result matches Err(TpmError::EventInputs(status))
                        &&& {
                            ||| status == out_of_resources_status()
                            ||| status == invalid_parameter_status() && event_head_size()
                                + vstd::utf8::encode_utf8(description@).len() > u32::MAX
                        }
                    },
                },
                Ok(None) => log matches EventLog::Finished { result } && result == Ok::<
                    (),
                    TpmError<E>,
                >(()),
                Err(error) => log matches EventLog::Finished { result } && result == Err::<
                    (),
                    TpmError<E>,
                >(error),
            },
    {
        let handle = match found {
            Ok(Some(handle)) => handle,
            Ok(None) => return EventLog::Finished { result: Ok(()) },
            Err(error) => return EventLog::Finished { result: Err(error) },
        };
        // Called as a value, so that the contract can speak of what this call brought.
        let make = PlatformTpm::event_inputs;
        let event = make(pcr_index, description);
        EventLog::with_event(handle, buffer, event)
    }
}

/// Whatever the way to the TPM ended in and whatever the protocol reports, the query ends after at
/// most one answer. The number is zero without a TPM and with one that is too old to tell, and
/// the number of banks in the reported bitmap otherwise.
pub proof fn law_active_pcr_banks<P, E>(
    found: Result<Option<TpmProtocolHandle<P>>, TpmError<E>>,
    reported: Result<u32, E>,
)
    ensures
        BankQuery::of(found).next(reported) == (BankQuery::<P, E>::Finished {
            banks: if found is Err {
                Err(found->Err_0)
            } else if found->Ok_0 is None || !found->Ok_0->0.version.at_least(1, 1) {
                Ok(0)
            } else if reported is Err {
                Err(TpmError::ActiveBanks(reported->Err_0))
            } else {
                Ok(bits_set(reported->Ok_0) as u32)
            },
        }),
{
}

/// A TPM that is new enough to tell has as many active PCR banks as there are places from 0 to 31 at
/// which a bit of the bitmap that it reports is set, and a failure to report is handed on with its
/// cause. A query that is finished stays as it is.
pub proof fn law_banks_as_reported<P, E>(
    handle: TpmProtocolHandle<P>,
    bitmap: u32,
    cause: E,
    banks: Result<u32, TpmError<E>>,
    reported: Result<u32, E>,
)
    ensures
        ({
            let query = BankQuery::<P, E>::GetActivePcrBanks { handle };
            &&& query.next(Ok(bitmap)) matches BankQuery::Finished { banks: Ok(count) } && count
                == Set::new(|place: u32| place < 32 && (bitmap >> place) & 1 == 1).len()
            &&& query.next(Err(cause)) == (BankQuery::<P, E>::Finished {
                banks: Err(TpmError::ActiveBanks(cause)),
            })
            &&& (BankQuery::<P, E>::Finished { banks }).next(reported) == (BankQuery::<
                P,
                E,
            >::Finished { banks })
        }),
{
    law_bank_count(bitmap);
    law_bank_count_is_exact(bitmap);
}

/// The logging of an event ends after at most one answer, and only an event that was handed to the
/// TPM can end with what the TPM reports.
pub proof fn law_event_log_ends<'a, P, E>(log: EventLog<'a, P, E>, reported: Result<(), E>)
    ensures
        log.next(reported) is Finished,
        log is Finished ==> log.next(reported) == log,
        log is HashLogExtendEvent ==> (log.next(reported) matches EventLog::Finished { result }
            && result == (match reported {
            Ok(()) => Ok::<(), TpmError<E>>(()),
            Err(cause) => Err::<(), TpmError<E>>(TpmError::Log(cause)),
        })),
{
}

} // verus!
