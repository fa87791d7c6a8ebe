//! The gateway's shared state: the device handle, and the health monitor
//! that empties it on loss and has it filled again.
//!
//! A gateway is either watching a published connection or acquiring one,
//! never both. Request handlers read the connection; the monitor feeds in
//! ticks and liveness results; whoever drives the acquisition feeds in its
//! events and, at the end, the connection to publish.

use vstd::prelude::*;
use crate::dispatch::WriteOutcome;
use crate::handle::DeviceHandle;
use crate::http::{answer, answer_of, answered, Accepted, Answer, Rejection, SERVICE_UNAVAILABLE};
use crate::lifecycle::{next, Acquisition, Action, Event, Phase, ScanMode};

verus! {

/// What a liveness query on the current connection gave.
#[derive(Clone, Copy, Debug, PartialEq, Eq, Structural)]
pub enum Liveness {
    /// The adapter confirmed that the peripheral is connected.
    Connected,
    /// The adapter reported that the peripheral is not connected.
    Disconnected,
    /// The query itself failed.
    Unknown,
}

/// What the monitor is to do on a tick.
#[derive(Clone, Copy, Debug, PartialEq, Eq, Structural)]
pub enum TickAction {
    /// Nothing: there is no connection to poll.
    Skip,
    /// Ask the adapter whether the current connection is alive.
    QueryLiveness,
}

/// What the monitor concluded from a liveness result.
#[derive(Clone, Copy, Debug, PartialEq, Eq, Structural)]
pub enum Verdict {
    /// The connection is alive; nothing changed.
    Healthy,
    /// The connection is lost. The handle was emptied and a reconnection is
    /// due.
    Lost,
    /// There was no connection to judge; nothing changed.
    Ignored,
}

/// What the gateway is busy with.
#[derive(Clone, Copy, Debug, PartialEq, Eq, Structural)]
pub enum Link {
    /// A connection is being acquired.
    Acquiring { mode: ScanMode, phase: Phase },
    /// A connection is published and polled.
    Watching,
}

/// The gateway's state as a value: the connection the handle owns, and what
/// the gateway is busy with.
pub ghost struct GatewayModel<C> {
    pub connection: Option<C>,
    pub link: Link,
}

/// The state a gateway starts in: no connection, and the filtered
/// acquisition of start-up not yet begun.
pub open spec fn initial<C>() -> GatewayModel<C> {
    GatewayModel {
        connection: None,
        link: Link::Acquiring { mode: ScanMode::Filtered, phase: Phase::Idle },
    }
}

/// A gateway watches exactly when its handle owns a connection.
pub open spec fn consistent<C>(model: GatewayModel<C>) -> bool {
    model.link is Watching <==> model.connection is Some
}

/// The monitor's decision on a tick.
pub open spec fn ticked<C>(model: GatewayModel<C>) -> TickAction {
    if model.connection is Some {
        TickAction::QueryLiveness
    } else {
        TickAction::Skip
    }
}

/// The monitor's reaction to a liveness result. Anything but a confirmed
/// connection is a loss: the handle is emptied, and an unfiltered
/// acquisition stands ready to begin.
pub open spec fn observed<C>(model: GatewayModel<C>, liveness: Liveness) -> (
    GatewayModel<C>,
    Verdict,
) {
    if model.connection is None {
        (model, Verdict::Ignored)
    } else if liveness == Liveness::Connected {
        (model, Verdict::Healthy)
    } else {
        (
            GatewayModel {
                connection: None,
                link: Link::Acquiring { mode: ScanMode::Unfiltered, phase: Phase::Idle },
            },
            Verdict::Lost,
        )
    }
}

/// One step of the running acquisition. A watching gateway has none.
pub open spec fn advanced<C>(model: GatewayModel<C>, event: Event) -> (GatewayModel<C>, Action) {
    match model.link {
        Link::Acquiring { mode, phase } => (
            GatewayModel {
                connection: model.connection,
                link: Link::Acquiring { mode, phase: next(mode, phase, event).0 },
            },
            next(mode, phase, event).1,
        ),
        Link::Watching => (model, Action::Rest),
    }
}

/// Whether the gateway is waiting for the connection its acquisition made
/// ready.
pub open spec fn awaits_publication<C>(model: GatewayModel<C>) -> bool {
    match model.link {
        Link::Acquiring { mode, phase } => phase is Ready,
        Link::Watching => false,
    }
}

/// Publication of `connection`: it replaces whatever the handle owned, and
/// the gateway watches it. Only a gateway that awaits it publishes.
pub open spec fn published<C>(model: GatewayModel<C>, connection: C) -> GatewayModel<C> {
    if awaits_publication(model) {
        GatewayModel { connection: Some(connection), link: Link::Watching }
    } else {
        model
    }
}

/// The answer a gateway gives to a request to send `message`. `delivery`
/// says how the write over the connection ended; a gateway without
/// connection delivers nothing and answers that it is unavailable.
pub open spec fn served<C>(
    model: GatewayModel<C>,
    delivery: Option<WriteOutcome>,
    message: Seq<char>,
) -> Answer {
    if model.connection is Some {
        answered(delivery, message)
    } else {
        answered(None, message)
    }
}

/// The device handle together with the state of the health monitor.
pub struct Gateway<C> {
    handle: DeviceHandle<C>,
    acquisition: Option<Acquisition>,
}

impl<C> View for Gateway<C> {
    type V = GatewayModel<C>;

    closed spec fn view(&self) -> GatewayModel<C> {
        GatewayModel {
            connection: self.handle@,
            link: match self.acquisition {
                Some(a) => Link::Acquiring { mode: a.mode(), phase: a.phase() },
                None => Link::Watching,
            },
        }
    }
}

impl<C> Gateway<C> {
    #[verifier::type_invariant]
    spec fn well_formed(&self) -> bool {
        self.acquisition is None <==> self.handle@ is Some
    }

    /// A gateway at start-up: the handle empty, the filtered acquisition
    /// not yet begun.
    pub fn new() -> (gateway: Self)
        ensures
            gateway@ == initial::<C>(),
            consistent(gateway@),
    {
        Gateway { handle: DeviceHandle::new(), acquisition: Some(Acquisition::new(ScanMode::Filtered)) }
    }

    /// The current connection, if there is one. Whoever holds the gateway
    /// performs one adapter operation on it and lets go.
    pub fn connection(&self) -> (current: Option<&C>)
        ensures
            match current {
                Some(c) => self@.connection == Some(*c),
                None => self@.connection is None,
            },
            consistent(self@),
    {
        proof {
            use_type_invariant(self);
        }
        self.handle.connection()
    }

    /// Answers a request to send `message`. The caller looked for the
    /// [connection](Self::connection), and, where there was one, had the
    /// message delivered over it; `delivery` says how that ended.
    pub fn send_to_peripheral(&self, delivery: Option<WriteOutcome>, message: &str) -> (reply:
        Result<Accepted, Rejection>)
        ensures
            answer_of(reply) == served(self@, delivery, message@),
    {
        if self.handle.is_present() {
            answer(delivery, message)
        } else {
            answer(None, message)
        }
    }

    /// What the gateway is busy with.
    pub fn link(&self) -> (link: Link)
        ensures
            link == self@.link,
            consistent(self@),
    {
        proof {
            use_type_invariant(self);
        }
        match &self.acquisition {
            Some(a) => Link::Acquiring { mode: a.scan_mode(), phase: a.current_phase() },
            None => Link::Watching,
        }
    }

    /// The monitor's tick: poll the connection where there is one.
    pub fn tick(&self) -> (action: TickAction)
        ensures
            action == ticked(self@),
            consistent(self@),
    {
        proof {
            use_type_invariant(self);
        }
        if self.handle.is_present() {
            TickAction::QueryLiveness
        } else {
            TickAction::Skip
        }
    }

    /// Takes in the result of a liveness query. On anything but a confirmed
    /// connection the handle is emptied before anything else is done about
    /// the loss: the reconnection has not begun when this returns.
    pub fn observe(&mut self, liveness: Liveness) -> (verdict: Verdict)
        ensures
            (final(self)@, verdict) == observed(old(self)@, liveness),
            consistent(old(self)@),
            consistent(final(self)@),
    {
        proof {
            use_type_invariant(&*self);
        }
        if !self.handle.is_present() {
            Verdict::Ignored
        } else {
            match liveness {
                Liveness::Connected => Verdict::Healthy,
                _ => {
                    *self = Gateway {
                        handle: DeviceHandle::new(),
                        acquisition: Some(Acquisition::new(ScanMode::Unfiltered)),
                    };
                    Verdict::Lost
                },
            }
        }
    }

    /// Feeds `event` to the running acquisition and says what to do next.
    pub fn advance(&mut self, event: Event) -> (action: Action)
        ensures
            (final(self)@, action) == advanced(old(self)@, event),
            consistent(old(self)@),
            consistent(final(self)@),
    {
        proof {
            use_type_invariant(&*self);
        }
        match self.acquisition {
            Some(mut acquisition) => {
                let action = acquisition.step(event);
                self.acquisition = Some(acquisition);
                action
            },
            None => Action::Rest,
        }
    }

    /// Publishes `connection` where the acquisition made one ready, and
    /// gives it back where it did not.
    pub fn publish(&mut self, connection: C) -> (refused: Option<C>)
        ensures
            final(self)@ == published(old(self)@, connection),
            refused == if awaits_publication(old(self)@) {
                None
            } else {
                Some(connection)
            },
            consistent(old(self)@),
            consistent(final(self)@),
    {
        proof {
            use_type_invariant(&*self);
        }
        let ready = match &self.acquisition {
            Some(acquisition) => acquisition.ready_device().is_some(),
            None => false,
        };
        if ready {
            let mut handle = DeviceHandle::new();
            handle.install(connection);
            *self = Gateway { handle, acquisition: None };
            None
        } else {
            Some(connection)
        }
    }
}

/// The connections a gateway holds, as a sequence.
pub open spec fn connections<C>(model: GatewayModel<C>) -> Seq<C> {
    match model.connection {
        Some(c) => seq![c],
        None => Seq::empty(),
    }
}

/// The state after the running acquisition took in `events` one after the
/// other.
pub open spec fn advanced_all<C>(model: GatewayModel<C>, events: Seq<Event>) -> GatewayModel<C>
    decreases events.len(),
{
    if events.len() == 0 {
        model
    } else {
        advanced(advanced_all(model, events.drop_last()), events.last()).0
    }
}

/// The initial state is consistent, and every transition keeps a consistent
/// state consistent.
pub proof fn lemma_consistency_preserved<C>(
    model: GatewayModel<C>,
    liveness: Liveness,
    event: Event,
    connection: C,
)
    requires
        consistent(model),
    ensures
        consistent(initial::<C>()),
        consistent(observed(model, liveness).0),
        consistent(advanced(model, event).0),
        consistent(published(model, connection)),
{
}

/// At no time is there more than one connection: a gateway holds at most
/// one, and none while it acquires one. Publication replaces; it never adds.
pub proof fn lemma_at_most_one_connection<C>(model: GatewayModel<C>, connection: C)
    requires
        consistent(model),
    ensures
        connections(model).len() <= 1,
        model.link is Acquiring ==> connections(model).len() == 0,
        connections(published(model, connection)).len() <= 1,
        awaits_publication(model) ==> connections(published(model, connection)) == seq![connection],
{
}

/// While an acquisition runs, the handle stays empty and the monitor's
/// ticks are skipped, whatever the events.
pub proof fn lemma_empty_while_acquiring<C>(model: GatewayModel<C>, events: Seq<Event>)
    requires
        consistent(model),
        model.link is Acquiring,
    ensures
        advanced_all(model, events).link is Acquiring,
        advanced_all(model, events).link->mode == model.link->mode,
        advanced_all(model, events).connection is None,
        ticked(advanced_all(model, events)) == TickAction::Skip,
    decreases events.len(),
{
    if events.len() > 0 {
        lemma_empty_while_acquiring(model, events.drop_last());
    }
}

/// On a loss the handle is emptied before the reconnection begins.
///
/// A liveness result other than a confirmed connection leaves the gateway
/// without connection and with an unfiltered acquisition that has not asked
/// anything of the adapter yet. Its first action, a scan, comes out of a
/// later step, and the handle stays empty through all steps that follow.
pub proof fn lemma_loss_clears_before_reconnect<C>(
    model: GatewayModel<C>,
    liveness: Liveness,
    events: Seq<Event>,
)
    requires
        consistent(model),
        model.connection is Some,
        liveness != Liveness::Connected,
    ensures
        observed(model, liveness).1 == Verdict::Lost,
        observed(model, liveness).0.connection is None,
        observed(model, liveness).0.link == (Link::Acquiring {
            mode: ScanMode::Unfiltered,
            phase: Phase::Idle,
        }),
        advanced(observed(model, liveness).0, Event::Begin).1 == (Action::StartScan {
            filter: None,
        }),
        advanced_all(observed(model, liveness).0, events).connection is None,
{
    lemma_empty_while_acquiring(observed(model, liveness).0, events);
}

/// After a loss no request reaches the peripheral: until a connection is
/// published again, every request is answered as unavailable, whatever the
/// caller says of a delivery.
pub proof fn lemma_unavailable_after_loss<C>(
    model: GatewayModel<C>,
    liveness: Liveness,
    events: Seq<Event>,
    delivery: Option<WriteOutcome>,
    message: Seq<char>,
)
    requires
        consistent(model),
        model.connection is Some,
        liveness != Liveness::Connected,
    ensures
        served(advanced_all(observed(model, liveness).0, events), delivery, message) == (
        Answer::Rejected { code: SERVICE_UNAVAILABLE, text: "No BLE device connected"@ }),
{
    lemma_empty_while_acquiring(observed(model, liveness).0, events);
}

/// A connection that is alive is left alone.
pub proof fn lemma_alive_is_kept<C>(model: GatewayModel<C>)
    ensures
        observed(model, Liveness::Connected).0 == model,
        observed(model, Liveness::Connected).1 != Verdict::Lost,
{
}

} // verus!
