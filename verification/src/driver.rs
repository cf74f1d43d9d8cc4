//! The scan-and-connect state machine.
//!
//! A [`Driver`] holds where a connection attempt stands. In every state it
//! asks for exactly one [`Action`]; the caller carries it out against the
//! Bluetooth stack and reports the result as an [`Input`]. An input that does
//! not answer the pending action leaves the state as it is.

use vstd::prelude::*;
use crate::error::Error;
use crate::matcher::{device_matches, name_matches, Properties};
use crate::options::Options;
use crate::span::{within_budget, Span};

verus! {

/// Milliseconds that one wait for an event may last. The bound only makes
/// the driver look at the clock again when no event arrives.
pub const EVENT_WAIT_MILLIS: u64 = 500u64;

/// Identity of a remote device for the length of one search. The caller
/// gives each device that the platform reports a number of its own.
#[derive(Clone, Copy, Debug, PartialEq, Eq, Structural)]
pub struct PeripheralId(pub u64);

/// A notification of the adapter, reduced to its kind and the device it is
/// about.
#[derive(Clone, Copy, Debug, PartialEq, Eq, Structural)]
pub enum Event {
    DeviceDiscovered(PeripheralId),
    DeviceUpdated(PeripheralId),
    DeviceConnected(PeripheralId),
    DeviceDisconnected(PeripheralId),
    ManufacturerDataAdvertisement(PeripheralId),
    ServiceDataAdvertisement(PeripheralId),
    ServicesAdvertisement(PeripheralId),
    /// Any notification of a kind that the search does not know.
    Other,
}

/// The connected device: its identity and the number of services found on
/// it, which is at least one.
#[derive(Clone, Copy, Debug, PartialEq, Eq, Structural)]
pub struct Sensor {
    pub id: PeripheralId,
    pub services: usize,
}

/// What the driver asks its caller to do next.
#[derive(Clone, Copy, Debug, PartialEq, Eq, Structural)]
pub enum Action {
    /// Count the adapters that the platform offers.
    ListAdapters,
    /// Subscribe to the events of the adapter at this position and start an
    /// unfiltered scan on it.
    StartScan(usize),
    /// Report the time elapsed since the scan started.
    ReadClock,
    /// Wait for the next event, for `EVENT_WAIT_MILLIS` at most.
    WaitEvent,
    /// Obtain the handle of a device.
    Resolve(PeripheralId),
    /// Fetch the advertised properties of a device.
    FetchProperties(PeripheralId),
    /// Ask whether a device is connected.
    QueryConnected(PeripheralId),
    /// Connect to a device.
    Connect(PeripheralId),
    /// Discover the services of a device.
    DiscoverServices(PeripheralId),
    /// Stop the scan and drop the event subscription.
    StopScan,
    /// Count the services discovered on a device.
    ReadServices(PeripheralId),
    /// Nothing is left to do: the outcome stands.
    Finish,
}

/// What the caller reports back.
#[derive(Clone, Debug, PartialEq, Eq)]
pub enum Input {
    /// The platform offers this many adapters.
    Adapters(usize),
    /// The action was carried out; it has no result to report.
    Completed,
    /// This much time has passed since the scan started.
    Elapsed(Span),
    /// An event arrived.
    Event(Event),
    /// The wait ended without an event.
    Quiet,
    /// The advertised properties, or `None` where the device has none yet.
    Properties(Option<Properties>),
    /// Whether the device is connected.
    Connected(bool),
    /// The number of services discovered.
    Services(usize),
    /// The Bluetooth stack failed at the action, with this cause.
    Fault(String),
}

/// Where a connection attempt stands.
#[derive(Debug, PartialEq, Eq)]
pub enum Phase {
    /// Before the adapter is chosen.
    ListingAdapters,
    /// The adapter is chosen; the scan is being started.
    StartingScan,
    /// Searching: about to compare the elapsed time with the budget.
    CheckingClock,
    /// Searching: waiting for an event.
    Waiting,
    /// Searching: a device was discovered; its handle is being obtained.
    Resolving(PeripheralId),
    /// Searching: the properties of a discovered device are being fetched.
    FetchingProperties(PeripheralId),
    /// Searching: a device matched; its connection state is being read.
    Probing,
    /// Searching: connecting to the candidate.
    Engaging,
    /// Searching: discovering the candidate's services.
    Exploring,
    /// The budget is spent; the scan is being stopped.
    StoppingScan,
    /// After the search: reading the candidate's connection state.
    Verifying,
    /// After the search: the one connect attempt.
    Reconnecting,
    /// After the search: reading the connection state once more.
    Confirming,
    /// After the search: discovering services.
    Discovering,
    /// After the search: counting the services.
    Listing,
    /// The attempt is over.
    Done(Result<Sensor, Error>),
}

/// The state of one connection attempt.
#[derive(Debug, PartialEq, Eq)]
pub struct Driver {
    pub options: Options,
    pub phase: Phase,
    /// The device that the attempt has committed to, once one matched.
    pub candidate: Option<PeripheralId>,
}

/// The adapter at `index` exists exactly when the platform lists more than
/// `index` adapters.
pub fn select_adapter(index: usize, available: usize) -> (r: Result<usize, Error>)
    ensures
        index < available ==> r == Ok::<usize, Error>(index),
        index >= available ==> r == Err::<usize, Error>(Error::NoMatchingAdaptor(index)),
{
    if index < available {
        Ok(index)
    } else {
        Err(Error::NoMatchingAdaptor(index))
    }
}

/// The phase that follows an event which arrived during the search. A
/// discovery counts only while there is no candidate: the discovered device
/// is then examined. A connection counts only when it is the candidate's:
/// its services are then discovered. Every other event, of whatever kind and
/// device, changes nothing, and the search goes on.
pub open spec fn phase_after_event(event: Event, candidate: Option<PeripheralId>) -> Phase {
    match event {
        Event::DeviceDiscovered(id) if candidate is None => Phase::Resolving(id),
        Event::DeviceConnected(id) if candidate == Some(id) => Phase::Exploring,
        _ => Phase::CheckingClock,
    }
}

impl Event {
    /// The device that the event is about, where its kind is known.
    pub open spec fn device(self) -> Option<PeripheralId> {
        match self {
            Event::DeviceDiscovered(id) | Event::DeviceUpdated(id) | Event::DeviceConnected(id)
            | Event::DeviceDisconnected(id) | Event::ManufacturerDataAdvertisement(id)
            | Event::ServiceDataAdvertisement(id) | Event::ServicesAdvertisement(id) => Some(id),
            Event::Other => None,
        }
    }
}

impl Action {
    /// Whether `input` is a possible report on this action: its result, or a
    /// failure of the stack at it.
    pub open spec fn answered_by(self, input: Input) -> bool {
        match self {
            Action::Finish => false,
            Action::ListAdapters => input is Adapters || input is Fault,
            Action::ReadClock => input is Elapsed || input is Fault,
            Action::WaitEvent => input is Event || input is Quiet || input is Fault,
            Action::FetchProperties(_) => input is Properties || input is Fault,
            Action::QueryConnected(_) => input is Connected || input is Fault,
            Action::ReadServices(_) => input is Services || input is Fault,
            Action::StartScan(_) | Action::Resolve(_) | Action::Connect(_)
            | Action::DiscoverServices(_) | Action::StopScan => input is Completed
                || input is Fault,
        }
    }
}

impl Phase {
    /// How far the attempt has come: before the search, searching, stopping
    /// the scan, after the search, over.
    pub open spec fn stage(self) -> nat {
        match self {
            Phase::ListingAdapters | Phase::StartingScan => 0,
            Phase::CheckingClock | Phase::Waiting | Phase::Resolving(_)
            | Phase::FetchingProperties(_) | Phase::Probing | Phase::Engaging
            | Phase::Exploring => 1,
            Phase::StoppingScan => 2,
            Phase::Verifying | Phase::Reconnecting | Phase::Confirming | Phase::Discovering
            | Phase::Listing => 3,
            Phase::Done(_) => 4,
        }
    }
}

impl Driver {
    /// The same attempt in another phase.
    pub open spec fn at(self, phase: Phase) -> Driver {
        Driver { options: self.options, phase, candidate: self.candidate }
    }

    /// The attempt, ended with an error.
    pub open spec fn failed(self, e: Error) -> Driver {
        self.at(Phase::Done(Err(e)))
    }

    /// The phase and the candidate agree: a candidate exists in the phases
    /// that act on one and in the outcomes that presuppose one, none exists
    /// before the search, while a discovered device is still being examined,
    /// or where the attempt ended for want of an adapter or a device, and a
    /// sensor is the candidate with at least one service.
    pub open spec fn wf(self) -> bool {
        match self.phase {
            Phase::ListingAdapters | Phase::StartingScan | Phase::Resolving(_)
            | Phase::FetchingProperties(_) => self.candidate is None,
            Phase::Probing | Phase::Engaging | Phase::Exploring | Phase::Verifying
            | Phase::Reconnecting | Phase::Confirming | Phase::Discovering
            | Phase::Listing => self.candidate is Some,
            Phase::Done(Ok(s)) => self.candidate == Some(s.id) && s.services >= 1,
            Phase::Done(Err(Error::NoDeviceFound)) | Phase::Done(Err(Error::NoMatchingAdaptor(_))) =>
                self.candidate is None,
            Phase::Done(Err(Error::ConnectFailed)) | Phase::Done(Err(Error::NoServicesFound)) =>
                self.candidate is Some,
            _ => true,
        }
    }

    /// The state in which every attempt starts.
    pub open spec fn initial(options: Options) -> Driver {
        Driver { options, phase: Phase::ListingAdapters, candidate: None }
    }

    /// The action that the state asks for.
    pub open spec fn pending_action(self) -> Action {
        match self.phase {
            Phase::ListingAdapters => Action::ListAdapters,
            Phase::StartingScan => Action::StartScan(self.options.adaptor),
            Phase::CheckingClock => Action::ReadClock,
            Phase::Waiting => Action::WaitEvent,
            Phase::Resolving(id) => Action::Resolve(id),
            Phase::FetchingProperties(id) => Action::FetchProperties(id),
            Phase::StoppingScan => Action::StopScan,
            Phase::Done(_) => Action::Finish,
            Phase::Probing | Phase::Verifying | Phase::Confirming => match self.candidate {
                Some(id) => Action::QueryConnected(id),
                None => Action::Finish,
            },
            Phase::Engaging | Phase::Reconnecting => match self.candidate {
                Some(id) => Action::Connect(id),
                None => Action::Finish,
            },
            Phase::Exploring | Phase::Discovering => match self.candidate {
                Some(id) => Action::DiscoverServices(id),
                None => Action::Finish,
            },
            Phase::Listing => match self.candidate {
                Some(id) => Action::ReadServices(id),
                None => Action::Finish,
            },
        }
    }

    /// The state after an event that arrived during the search.
    pub open spec fn after_event(self, event: Event) -> Driver {
        self.at(phase_after_event(event, self.candidate))
    }

    /// The state after the answer to a pending action that has no result.
    pub open spec fn after_completed(self) -> Driver {
        match self.phase {
            Phase::StartingScan => self.at(Phase::CheckingClock),
            Phase::Resolving(id) => self.at(Phase::FetchingProperties(id)),
            Phase::Engaging | Phase::Exploring => self.at(Phase::CheckingClock),
            Phase::StoppingScan => if self.candidate is None {
                self.failed(Error::NoDeviceFound)
            } else {
                self.at(Phase::Verifying)
            },
            Phase::Reconnecting => self.at(Phase::Confirming),
            Phase::Discovering => self.at(Phase::Listing),
            _ => self,
        }
    }

    /// The state after the caller reported whether the candidate is
    /// connected.
    pub open spec fn after_connected(self, connected: bool) -> Driver {
        match self.phase {
            Phase::Probing => self.at(if connected { Phase::Exploring } else { Phase::Engaging }),
            Phase::Verifying => self.at(
                if connected { Phase::Discovering } else { Phase::Reconnecting },
            ),
            Phase::Confirming => if connected {
                self.at(Phase::Discovering)
            } else {
                self.failed(Error::ConnectFailed)
            },
            _ => self,
        }
    }

    /// The state after a failure of the Bluetooth stack. A failure to fetch
    /// the properties of one discovered device is passed over and the search
    /// goes on; any other failure ends the attempt.
    pub open spec fn after_fault(self, cause: String) -> Driver {
        match self.phase {
            Phase::Done(_) => self,
            Phase::FetchingProperties(_) => self.at(Phase::CheckingClock),
            _ => self.failed(Error::Ble(cause)),
        }
    }

    /// The transition function: the state that follows `self` on `input`.
    pub open spec fn next(self, input: Input) -> Driver {
        match input {
            Input::Fault(cause) => self.after_fault(cause),
            Input::Completed => self.after_completed(),
            Input::Connected(c) => self.after_connected(c),
            Input::Adapters(n) => match self.phase {
                Phase::ListingAdapters => if self.options.adaptor < n {
                    self.at(Phase::StartingScan)
                } else {
                    self.failed(Error::NoMatchingAdaptor(self.options.adaptor))
                },
                _ => self,
            },
            Input::Elapsed(t) => match self.phase {
                Phase::CheckingClock => if within_budget(t, self.options.search_timeout) {
                    self.at(Phase::Waiting)
                } else {
                    self.at(Phase::StoppingScan)
                },
                _ => self,
            },
            Input::Event(e) => match self.phase {
                Phase::Waiting => self.after_event(e),
                _ => self,
            },
            Input::Quiet => match self.phase {
                Phase::Waiting => self.at(Phase::CheckingClock),
                _ => self,
            },
            Input::Properties(p) => match self.phase {
                Phase::FetchingProperties(id) => if name_matches(p, self.options.local_name@) {
                    Driver { options: self.options, phase: Phase::Probing, candidate: Some(id) }
                } else {
                    self.at(Phase::CheckingClock)
                },
                _ => self,
            },
            Input::Services(n) => match (self.phase, self.candidate) {
                (Phase::Listing, Some(id)) => if n == 0 {
                    self.failed(Error::NoServicesFound)
                } else {
                    self.at(Phase::Done(Ok(Sensor { id, services: n })))
                },
                _ => self,
            },
        }
    }

    /// A new attempt with these settings.
    pub fn new(options: Options) -> (r: Driver)
        ensures
            r == Driver::initial(options),
            r.wf(),
    {
        Driver { options, phase: Phase::ListingAdapters, candidate: None }
    }

    /// The action that the caller is to carry out now.
    pub fn pending(&self) -> (a: Action)
        ensures
            a == self.pending_action(),
    {
        match &self.phase {
            Phase::ListingAdapters => Action::ListAdapters,
            Phase::StartingScan => Action::StartScan(self.options.adaptor),
            Phase::CheckingClock => Action::ReadClock,
            Phase::Waiting => Action::WaitEvent,
            Phase::Resolving(id) => Action::Resolve(*id),
            Phase::FetchingProperties(id) => Action::FetchProperties(*id),
            Phase::StoppingScan => Action::StopScan,
            Phase::Done(_) => Action::Finish,
            Phase::Probing | Phase::Verifying | Phase::Confirming => match self.candidate {
                Some(id) => Action::QueryConnected(id),
                None => Action::Finish,
            },
            Phase::Engaging | Phase::Reconnecting => match self.candidate {
                Some(id) => Action::Connect(id),
                None => Action::Finish,
            },
            Phase::Exploring | Phase::Discovering => match self.candidate {
                Some(id) => Action::DiscoverServices(id),
                None => Action::Finish,
            },
            Phase::Listing => match self.candidate {
                Some(id) => Action::ReadServices(id),
                None => Action::Finish,
            },
        }
    }

    /// Whether the attempt is over.
    pub fn is_done(&self) -> (r: bool)
        ensures
            r == (self.phase is Done),
    {
        match &self.phase {
            Phase::Done(_) => true,
            _ => false,
        }
    }

    /// The outcome of the attempt, once it is over.
    pub fn outcome(self) -> (r: Option<Result<Sensor, Error>>)
        ensures
            r == (match self.phase {
                Phase::Done(res) => Some(res),
                _ => None,
            }),
    {
        match self.phase {
            Phase::Done(res) => Some(res),
            _ => None,
        }
    }

    /// Takes the answer to the pending action and moves to the next state.
    pub fn step(self, input: Input) -> (r: Driver)
        ensures
            r == self.next(input),
            self.wf() ==> r.wf(),
    {
        let Driver { options, phase, candidate } = self;
        match (phase, input) {
            (Phase::Done(res), _) => Driver { options, phase: Phase::Done(res), candidate },
            (Phase::FetchingProperties(_), Input::Fault(_)) => Driver {
                options,
                phase: Phase::CheckingClock,
                candidate,
            },
            (_, Input::Fault(cause)) => Driver {
                options,
                phase: Phase::Done(Err(Error::Ble(cause))),
                candidate,
            },
            (Phase::ListingAdapters, Input::Adapters(n)) => {
                let phase = match select_adapter(options.adaptor, n) {
                    Ok(_) => Phase::StartingScan,
                    Err(e) => Phase::Done(Err(e)),
                };
                Driver { options, phase, candidate }
            },
            (Phase::StartingScan, Input::Completed) => Driver {
                options,
                phase: Phase::CheckingClock,
                candidate,
            },
            (Phase::CheckingClock, Input::Elapsed(t)) => {
                let phase = if t.shorter_than(&options.search_timeout) {
                    Phase::Waiting
                } else {
                    Phase::StoppingScan
                };
                Driver { options, phase, candidate }
            },
            (Phase::Waiting, Input::Quiet) => Driver {
                options,
                phase: Phase::CheckingClock,
                candidate,
            },
            (Phase::Waiting, Input::Event(e)) => {
                let phase = dispatch(e, candidate);
                Driver { options, phase, candidate }
            },
            (Phase::Resolving(id), Input::Completed) => Driver {
                options,
                phase: Phase::FetchingProperties(id),
                candidate,
            },
            (Phase::FetchingProperties(id), Input::Properties(p)) => {
                if device_matches(&p, options.local_name.as_str()) {
                    Driver { options, phase: Phase::Probing, candidate: Some(id) }
                } else {
                    Driver { options, phase: Phase::CheckingClock, candidate }
                }
            },
            (Phase::Probing, Input::Connected(c)) => {
                let phase = if c {
                    Phase::Exploring
                } else {
                    Phase::Engaging
                };
                Driver { options, phase, candidate }
            },
            (Phase::Engaging, Input::Completed) | (Phase::Exploring, Input::Completed) => Driver {
                options,
                phase: Phase::CheckingClock,
                candidate,
            },
            (Phase::StoppingScan, Input::Completed) => {
                let phase = match candidate {
                    Some(_) => Phase::Verifying,
                    None => Phase::Done(Err(Error::NoDeviceFound)),
                };
                Driver { options, phase, candidate }
            },
            (Phase::Verifying, Input::Connected(c)) => {
                let phase = if c {
                    Phase::Discovering
                } else {
                    Phase::Reconnecting
                };
                Driver { options, phase, candidate }
            },
            (Phase::Reconnecting, Input::Completed) => Driver {
                options,
                phase: Phase::Confirming,
                candidate,
            },
            (Phase::Confirming, Input::Connected(c)) => {
                let phase = if c {
                    Phase::Discovering
                } else {
                    Phase::Done(Err(Error::ConnectFailed))
                };
                Driver { options, phase, candidate }
            },
            (Phase::Discovering, Input::Completed) => Driver {
                options,
                phase: Phase::Listing,
                candidate,
            },
            (Phase::Listing, Input::Services(n)) => {
                let phase = match candidate {
                    Some(id) => if n == 0 {
                        Phase::Done(Err(Error::NoServicesFound))
                    } else {
                        Phase::Done(Ok(Sensor { id, services: n }))
                    },
                    None => Phase::Listing,
                };
                Driver { options, phase, candidate }
            },
            (phase, _) => Driver { options, phase, candidate },
        }
    }
}

/// The phase that follows an event which arrived during the search.
pub fn dispatch(event: Event, candidate: Option<PeripheralId>) -> (r: Phase)
    ensures
        r == phase_after_event(event, candidate),
{
    match event {
        Event::DeviceDiscovered(id) => match candidate {
            None => Phase::Resolving(id),
            Some(_) => Phase::CheckingClock,
        },
        Event::DeviceConnected(id) => match candidate {
            Some(c) => if c.0 == id.0 {
                Phase::Exploring
            } else {
                Phase::CheckingClock
            },
            None => Phase::CheckingClock,
        },
        _ => Phase::CheckingClock,
    }
}

impl Sensor {
    /// Begins a connection attempt: the driver in its first state, which
    /// asks for the adapters to be listed.
    pub fn connect(opts: Options) -> (r: Driver)
        ensures
            r == Driver::initial(opts),
            r.wf(),
            r.pending_action() == Action::ListAdapters,
    {
        Driver::new(opts)
    }
}

} // verus!
