//! Acquiring a connection: scan, select, connect, discover, greet, publish.
//!
//! The protocol is a state machine. Its owner performs each [`Action`] on the
//! adapter and reports what came of it as an [`Event`]; [`Acquisition::step`]
//! answers with the next action. Every failure before publication leads back
//! to a new scan after a fixed delay, without bound.

use vstd::prelude::*;
use crate::contract::{
    CONTROLLER_SERVICE_ID, KEYBOARD_DISPLAY_ID, LINK_SETTLE_SECS, RETRY_DELAY_SECS,
    SCAN_SETTLE_SECS,
};
use crate::dispatch::{resolve_characteristic, resolved};
use crate::selector::{first_match, select_device, DiscoveredDevice};

verus! {

/// How a scan is started.
#[derive(Clone, Copy, Debug, PartialEq, Eq, Structural)]
pub enum ScanMode {
    /// The adapter is asked to report only devices that advertise the
    /// target service. Used at start-up.
    Filtered,
    /// The adapter reports every device. Used when reconnecting.
    Unfiltered,
}

/// Where an acquisition stands.
#[derive(Clone, Copy, Debug, PartialEq, Eq, Structural)]
pub enum Phase {
    /// Nothing was asked of the adapter yet.
    Idle,
    /// A scan is being started.
    StartingScan,
    /// The scan runs; advertisements are being collected.
    Collecting,
    /// The discovered devices are being read.
    Listing,
    /// No device matched; the scan is being stopped.
    StoppingNotFound,
    /// The device at position `device` matched; the scan is being stopped.
    StoppingFound { device: usize },
    /// The delay before the next scan runs.
    RetryWait,
    /// The device is being connected.
    Connecting { device: usize },
    /// The link settles after the connect.
    ConnectSettle { device: usize },
    /// The device's services are being discovered.
    Discovering { device: usize },
    /// The link settles after the discovery.
    DiscoverSettle { device: usize },
    /// The device's characteristics are being read.
    Enumerating { device: usize },
    /// The greeting is being written.
    Greeting { device: usize },
    /// The device is connected and was handed over for publication.
    Ready { device: usize },
}

/// The stages of an acquisition, each made of one or more phases.
#[derive(Clone, Copy, Debug, PartialEq, Eq, Structural)]
pub enum Stage {
    /// Not begun.
    Idle,
    /// A scan is started, runs, and is read.
    Scanning,
    /// A device was selected.
    Found,
    /// No device was selected, or an attempt failed: the next scan is due
    /// after the retry delay.
    NotFound,
    /// The selected device is connected and the link settles.
    Connecting,
    /// The device's services are discovered, the link settles, the
    /// characteristics are read and the greeting is written.
    Discovering,
    /// The device is connected and handed over.
    Ready,
}

impl Phase {
    /// The stage this phase belongs to.
    pub open spec fn stage_of(self) -> Stage {
        match self {
            Phase::Idle => Stage::Idle,
            Phase::StartingScan | Phase::Collecting | Phase::Listing => Stage::Scanning,
            Phase::StoppingFound { .. } => Stage::Found,
            Phase::StoppingNotFound | Phase::RetryWait => Stage::NotFound,
            Phase::Connecting { .. } | Phase::ConnectSettle { .. } => Stage::Connecting,
            Phase::Discovering { .. }
            | Phase::DiscoverSettle { .. }
            | Phase::Enumerating { .. }
            | Phase::Greeting { .. } => Stage::Discovering,
            Phase::Ready { .. } => Stage::Ready,
        }
    }

    /// The stage this phase belongs to.
    pub fn stage(&self) -> (stage: Stage)
        ensures
            stage == self.stage_of(),
    {
        match self {
            Phase::Idle => Stage::Idle,
            Phase::StartingScan | Phase::Collecting | Phase::Listing => Stage::Scanning,
            Phase::StoppingFound { .. } => Stage::Found,
            Phase::StoppingNotFound | Phase::RetryWait => Stage::NotFound,
            Phase::Connecting { .. } | Phase::ConnectSettle { .. } => Stage::Connecting,
            Phase::Discovering { .. }
            | Phase::DiscoverSettle { .. }
            | Phase::Enumerating { .. }
            | Phase::Greeting { .. } => Stage::Discovering,
            Phase::Ready { .. } => Stage::Ready,
        }
    }
}

/// What the owner of an acquisition reports back.
#[derive(Clone, Debug, PartialEq, Eq)]
pub enum Event {
    /// Asks an idle acquisition to begin.
    Begin,
    /// The last action succeeded and had nothing to report.
    Done,
    /// The last action failed.
    Failed,
    /// The devices of this scan pass, in report order.
    Discovered(Vec<DiscoveredDevice>),
    /// The identifiers of the connected device's characteristics, in the
    /// order the adapter lists them.
    Characteristics(Vec<u128>),
}

/// What the owner of an acquisition is to do next.
#[derive(Clone, Copy, Debug, PartialEq, Eq, Structural)]
pub enum Action {
    /// Nothing.
    Rest,
    /// Start a scan, restricted to the service in `filter` where there is
    /// one.
    StartScan { filter: Option<u128> },
    /// Wait for `seconds`.
    Wait { seconds: u64 },
    /// Read the devices discovered so far.
    ListDiscovered,
    /// Stop the scan.
    StopScan,
    /// Connect to the device at position `device` of the last scan pass.
    Connect { device: usize },
    /// Discover the services of the device.
    DiscoverServices { device: usize },
    /// Read the characteristics of the device.
    ListCharacteristics { device: usize },
    /// Write the greeting, confirmed, to the characteristic at position
    /// `characteristic` of the list just read. Its failure is of no
    /// consequence.
    WriteGreeting { device: usize, characteristic: usize },
    /// Publish the device as the current connection.
    Publish { device: usize },
}

/// The scan filter that goes with `mode`.
pub open spec fn scan_filter(mode: ScanMode) -> Option<u128> {
    match mode {
        ScanMode::Filtered => Some(CONTROLLER_SERVICE_ID),
        ScanMode::Unfiltered => None,
    }
}

/// Where every failure leads: the retry delay, then a new scan.
pub open spec fn retry() -> (Phase, Action) {
    (Phase::RetryWait, Action::Wait { seconds: RETRY_DELAY_SECS })
}

/// The protocol: the phase that follows `phase` on `event`, and the action
/// to perform on entering it.
pub open spec fn next(mode: ScanMode, phase: Phase, event: Event) -> (Phase, Action) {
    match phase {
        Phase::Idle => match event {
            Event::Begin => (Phase::StartingScan, Action::StartScan { filter: scan_filter(mode) }),
            _ => (Phase::Idle, Action::Rest),
        },
        Phase::StartingScan => match event {
            Event::Done => (Phase::Collecting, Action::Wait { seconds: SCAN_SETTLE_SECS }),
            _ => retry(),
        },
        Phase::Collecting => match event {
            Event::Done => (Phase::Listing, Action::ListDiscovered),
            _ => retry(),
        },
        Phase::Listing => match event {
            Event::Discovered(devices) => match first_match(devices@, CONTROLLER_SERVICE_ID) {
                Some(device) => (Phase::StoppingFound { device }, Action::StopScan),
                None => (Phase::StoppingNotFound, Action::StopScan),
            },
            _ => retry(),
        },
        Phase::StoppingNotFound => retry(),
        Phase::StoppingFound { device } => match event {
            Event::Done => (Phase::Connecting { device }, Action::Connect { device }),
            _ => retry(),
        },
        Phase::RetryWait => (Phase::StartingScan, Action::StartScan { filter: scan_filter(mode) }),
        Phase::Connecting { device } => match event {
            Event::Done => (
                Phase::ConnectSettle { device },
                Action::Wait { seconds: LINK_SETTLE_SECS },
            ),
            _ => retry(),
        },
        Phase::ConnectSettle { device } => match event {
            Event::Done => (Phase::Discovering { device }, Action::DiscoverServices { device }),
            _ => retry(),
        },
        Phase::Discovering { device } => match event {
            Event::Done => (
                Phase::DiscoverSettle { device },
                Action::Wait { seconds: LINK_SETTLE_SECS },
            ),
            _ => retry(),
        },
        Phase::DiscoverSettle { device } => match event {
            Event::Done => (Phase::Enumerating { device }, Action::ListCharacteristics { device }),
            _ => retry(),
        },
        Phase::Enumerating { device } => match event {
            Event::Characteristics(list) => match resolved(list@, KEYBOARD_DISPLAY_ID) {
                Some(characteristic) => (
                    Phase::Greeting { device },
                    Action::WriteGreeting { device, characteristic },
                ),
                None => (Phase::Ready { device }, Action::Publish { device }),
            },
            _ => retry(),
        },
        Phase::Greeting { device } => (Phase::Ready { device }, Action::Publish { device }),
        Phase::Ready { device } => (Phase::Ready { device }, Action::Rest),
    }
}

/// One run of the acquisition protocol.
#[derive(Clone, Copy, Debug)]
pub struct Acquisition {
    mode: ScanMode,
    phase: Phase,
}

impl Acquisition {
    /// How this acquisition scans.
    pub closed spec fn mode(&self) -> ScanMode {
        self.mode
    }

    /// Where this acquisition stands.
    pub closed spec fn phase(&self) -> Phase {
        self.phase
    }

    /// An acquisition that has not begun.
    pub fn new(mode: ScanMode) -> (acquisition: Self)
        ensures
            acquisition.mode() == mode,
            acquisition.phase() == Phase::Idle,
    {
        Acquisition { mode, phase: Phase::Idle }
    }

    /// How this acquisition scans.
    pub fn scan_mode(&self) -> (mode: ScanMode)
        ensures
            mode == self.mode(),
    {
        self.mode
    }

    /// Where this acquisition stands.
    pub fn current_phase(&self) -> (phase: Phase)
        ensures
            phase == self.phase(),
    {
        self.phase
    }

    /// The device that was handed over for publication, once there is one.
    pub fn ready_device(&self) -> (device: Option<usize>)
        ensures
            match device {
                Some(d) => self.phase() == (Phase::Ready { device: d }),
                None => !(self.phase() is Ready),
            },
    {
        match self.phase {
            Phase::Ready { device } => Some(device),
            _ => None,
        }
    }

    fn start_scan(&self) -> (action: Action)
        ensures
            action == (Action::StartScan { filter: scan_filter(self.mode()) }),
    {
        match self.mode {
            ScanMode::Filtered => Action::StartScan { filter: Some(CONTROLLER_SERVICE_ID) },
            ScanMode::Unfiltered => Action::StartScan { filter: None },
        }
    }

    /// Takes in what came of the last action and says what to do next.
    pub fn step(&mut self, event: Event) -> (action: Action)
        ensures
            final(self).mode() == old(self).mode(),
            (final(self).phase(), action) == next(old(self).mode(), old(self).phase(), event),
    {
        let again = (Phase::RetryWait, Action::Wait { seconds: RETRY_DELAY_SECS });
        let (phase, action) = match self.phase {
            Phase::Idle => match event {
                Event::Begin => (Phase::StartingScan, self.start_scan()),
                _ => (Phase::Idle, Action::Rest),
            },
            Phase::StartingScan => match event {
                Event::Done => (Phase::Collecting, Action::Wait { seconds: SCAN_SETTLE_SECS }),
                _ => again,
            },
            Phase::Collecting => match event {
                Event::Done => (Phase::Listing, Action::ListDiscovered),
                _ => again,
            },
            Phase::Listing => match event {
                Event::Discovered(devices) => match select_device(
                    &devices,
                    CONTROLLER_SERVICE_ID,
                ) {
                    Some(device) => (Phase::StoppingFound { device }, Action::StopScan),
                    None => (Phase::StoppingNotFound, Action::StopScan),
                },
                _ => again,
            },
            Phase::StoppingNotFound => again,
            Phase::StoppingFound { device } => match event {
                Event::Done => (Phase::Connecting { device }, Action::Connect { device }),
                _ => again,
            },
            Phase::RetryWait => (Phase::StartingScan, self.start_scan()),
            Phase::Connecting { device } => match event {
                Event::Done => (
                    Phase::ConnectSettle { device },
                    Action::Wait { seconds: LINK_SETTLE_SECS },
                ),
                _ => again,
            },
            Phase::ConnectSettle { device } => match event {
                Event::Done => (Phase::Discovering { device }, Action::DiscoverServices { device }),
                _ => again,
            },
            Phase::Discovering { device } => match event {
                Event::Done => (
                    Phase::DiscoverSettle { device },
                    Action::Wait { seconds: LINK_SETTLE_SECS },
                ),
                _ => again,
            },
            Phase::DiscoverSettle { device } => match event {
                Event::Done => (
                    Phase::Enumerating { device },
                    Action::ListCharacteristics { device },
                ),
                _ => again,
            },
            Phase::Enumerating { device } => match event {
                Event::Characteristics(list) => match resolve_characteristic(
                    &list,
                    KEYBOARD_DISPLAY_ID,
                ) {
                    Some(characteristic) => (
                        Phase::Greeting { device },
                        Action::WriteGreeting { device, characteristic },
                    ),
                    None => (Phase::Ready { device }, Action::Publish { device }),
                },
                _ => again,
            },
            Phase::Greeting { device } => (Phase::Ready { device }, Action::Publish { device }),
            Phase::Ready { device } => (Phase::Ready { device }, Action::Rest),
        };
        self.phase = phase;
        action
    }
}

/// The phases an acquisition passes through, from the scan that finds the
/// device at position `device` to its publication. `greeted` says whether
/// the device exposed the characteristic the greeting is written to.
pub open spec fn protocol(device: usize, greeted: bool) -> Seq<Phase> {
    let common = seq![
        Phase::StartingScan,
        Phase::Collecting,
        Phase::Listing,
        Phase::StoppingFound { device },
        Phase::Connecting { device },
        Phase::ConnectSettle { device },
        Phase::Discovering { device },
        Phase::DiscoverSettle { device },
        Phase::Enumerating { device },
    ];
    if greeted {
        common + seq![Phase::Greeting { device }, Phase::Ready { device }]
    } else {
        common + seq![Phase::Ready { device }]
    }
}

/// Whether `phases` is what an acquisition in `mode` goes through, from
/// idle, when it is fed `events` one after the other.
pub open spec fn is_run(mode: ScanMode, phases: Seq<Phase>, events: Seq<Event>) -> bool {
    &&& phases.len() == events.len() + 1
    &&& phases[0] == Phase::Idle
    &&& forall|i: int|
        0 <= i < events.len() ==> phases[i + 1] == next(mode, phases[i], #[trigger] events[i]).0
}

/// A scan is restricted to the target service exactly in filtered mode, and
/// a scan is what begins an acquisition and what follows the retry delay.
pub proof fn lemma_scan_filter(mode: ScanMode, event: Event)
    ensures
        scan_filter(mode) == Some(CONTROLLER_SERVICE_ID) <==> mode == ScanMode::Filtered,
        scan_filter(mode) is None <==> mode == ScanMode::Unfiltered,
        next(mode, Phase::Idle, Event::Begin) == (
            Phase::StartingScan,
            Action::StartScan { filter: scan_filter(mode) },
        ),
        next(mode, Phase::RetryWait, event) == (
            Phase::StartingScan,
            Action::StartScan { filter: scan_filter(mode) },
        ),
{
}

/// No failure ends an acquisition. A failed greeting is passed over; a
/// failure in any other phase that has begun leads to the retry delay, and
/// the retry delay to a new scan.
pub proof fn lemma_failure_retries(mode: ScanMode, phase: Phase)
    ensures
        phase is Idle ==> next(mode, phase, Event::Failed).0 == Phase::Idle,
        phase is Ready ==> next(mode, phase, Event::Failed).0 == phase,
        phase is Greeting ==> next(mode, phase, Event::Failed).0 is Ready,
        phase is RetryWait ==> next(mode, phase, Event::Failed).0 == Phase::StartingScan,
        !(phase is Idle || phase is Ready || phase is Greeting || phase is RetryWait) ==> next(
            mode,
            phase,
            Event::Failed,
        ) == retry(),
{
}

/// A device is published exactly when the acquisition enters the ready
/// phase, and it is the device that phase names.
pub proof fn lemma_publish_on_ready(mode: ScanMode, phase: Phase, event: Event, device: usize)
    ensures
        next(mode, phase, event).1 == (Action::Publish { device }) <==> !(phase is Ready) && next(
            mode,
            phase,
            event,
        ).0 == (Phase::Ready { device }),
{
}

/// Whether an acquisition can pass from stage `from` to stage `to` in one
/// step: forward along idle, scanning, found, connecting, discovering,
/// ready; from scanning to not found; from any stage at work to not found, on
/// a failure; and from not found back to scanning.
pub open spec fn stage_follows(from: Stage, to: Stage) -> bool {
    match (from, to) {
        (Stage::Idle, Stage::Scanning) => true,
        (Stage::Scanning, Stage::Found) => true,
        (Stage::Scanning, Stage::NotFound) => true,
        (Stage::Found, Stage::Connecting) => true,
        (Stage::Found, Stage::NotFound) => true,
        (Stage::Connecting, Stage::Discovering) => true,
        (Stage::Connecting, Stage::NotFound) => true,
        (Stage::Discovering, Stage::Ready) => true,
        (Stage::Discovering, Stage::NotFound) => true,
        (Stage::NotFound, Stage::Scanning) => true,
        _ => false,
    }
}

/// Every step stays in its stage or passes to one that follows it.
pub proof fn lemma_stages(mode: ScanMode, phase: Phase, event: Event)
    ensures
        next(mode, phase, event).0.stage_of() == phase.stage_of() || stage_follows(
            phase.stage_of(),
            next(mode, phase, event).0.stage_of(),
        ),
{
}

/// Each phase of the protocol is entered only from the one before it: the
/// phase `next(mode, phase, event).0` determines `phase`, up to the two ways
/// into a scan and the two ways into the ready phase. A device is chosen
/// only by the selection over the devices a scan pass reported.
pub proof fn lemma_predecessor(mode: ScanMode, phase: Phase, event: Event)
    ensures
        match next(mode, phase, event).0 {
            Phase::Idle => phase is Idle,
            Phase::StartingScan => phase is Idle || phase is RetryWait,
            Phase::Collecting => phase is StartingScan,
            Phase::Listing => phase is Collecting,
            Phase::StoppingNotFound => phase is Listing && match event {
                Event::Discovered(devices) => first_match(devices@, CONTROLLER_SERVICE_ID) is None,
                _ => false,
            },
            Phase::StoppingFound { device } => phase is Listing && match event {
                Event::Discovered(devices) => first_match(devices@, CONTROLLER_SERVICE_ID) == Some(
                    device,
                ),
                _ => false,
            },
            Phase::RetryWait => !(phase is Idle || phase is Ready || phase is Greeting || phase
                is RetryWait),
            Phase::Connecting { device } => phase == (Phase::StoppingFound { device }),
            Phase::ConnectSettle { device } => phase == (Phase::Connecting { device }),
            Phase::Discovering { device } => phase == (Phase::ConnectSettle { device }),
            Phase::DiscoverSettle { device } => phase == (Phase::Discovering { device }),
            Phase::Enumerating { device } => phase == (Phase::DiscoverSettle { device }),
            Phase::Greeting { device } => phase == (Phase::Enumerating { device }),
            Phase::Ready { device } => {
                ||| phase == (Phase::Ready { device })
                ||| phase == (Phase::Greeting { device })
                ||| phase == (Phase::Enumerating { device })
            },
        },
{
}

/// In a run, a phase other than idle was entered by a step of the protocol.
proof fn lemma_step_back(mode: ScanMode, phases: Seq<Phase>, events: Seq<Event>, k: int)
    requires
        is_run(mode, phases, events),
        0 <= k < phases.len(),
        !(phases[k] is Idle),
    ensures
        0 < k,
        phases[k] == next(mode, phases[k - 1], events[k - 1]).0,
{
    let i = k - 1;
    assert(phases[i + 1] == next(mode, phases[i], #[trigger] events[i]).0);
}

/// A connection is only ever created by the whole protocol, in order.
///
/// Where a run enters the ready phase at position `n`, the phases up to
/// there end with the protocol for the published device: scan, collect,
/// list, stop, connect, settle, discover, settle, enumerate, the greeting
/// where the characteristic is there, ready.
pub proof fn lemma_ready_follows_protocol(
    mode: ScanMode,
    phases: Seq<Phase>,
    events: Seq<Event>,
    n: int,
)
    requires
        is_run(mode, phases, events),
        0 < n < phases.len(),
        phases[n] is Ready,
        !(phases[n - 1] is Ready),
    ensures
        ({
            let path = protocol(phases[n]->Ready_device, phases[n - 1] is Greeting);
            &&& path.len() <= n
            &&& phases.subrange(n + 1 - path.len(), n + 1) == path
        }),
{
    let device = phases[n]->Ready_device;
    let greeted = phases[n - 1] is Greeting;
    let path = protocol(device, greeted);
    assert(path.len() == if greeted { 11int } else { 10int });
    // position of the enumerating phase
    let e = if greeted { n - 2 } else { n - 1 };
    lemma_step_back(mode, phases, events, n);
    if greeted {
        lemma_step_back(mode, phases, events, n - 1);
    }
    assert(phases[e] == (Phase::Enumerating { device }));
    lemma_step_back(mode, phases, events, e);
    lemma_step_back(mode, phases, events, e - 1);
    lemma_step_back(mode, phases, events, e - 2);
    lemma_step_back(mode, phases, events, e - 3);
    lemma_step_back(mode, phases, events, e - 4);
    lemma_step_back(mode, phases, events, e - 5);
    lemma_step_back(mode, phases, events, e - 6);
    lemma_step_back(mode, phases, events, e - 7);
    lemma_step_back(mode, phases, events, e - 8);
    assert(phases.subrange(n + 1 - path.len(), n + 1) =~= path);
}

} // verus!
