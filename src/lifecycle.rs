use vstd::prelude::*;
use crate::config::{characteristic_id, identifier_of, CHARACTERISTIC_UUID, DEVICE_NAME};
use crate::error::PipelineError;
use crate::matching::{advertises, select_characteristic, select_peripheral};
use crate::notification::BleNotification;

verus! {

/// Stages of one connection attempt.
#[derive(Clone, Copy, Debug, PartialEq, Eq, Structural)]
pub enum Phase {
    Idle,
    Scanning,
    Connecting,
    DiscoveringServices,
    Subscribing,
    Listening,
    TornDown,
}

/// Stage transitions announced to the consumer.
#[derive(Clone, Copy, Debug, PartialEq, Eq, Structural)]
pub enum Status {
    Scanning,
    DeviceFound,
    Connected,
    Subscribed,
}

pub open spec fn status_text(s: Status) -> Seq<char> {
    match s {
        Status::Scanning => "Scanning for device..."@,
        Status::DeviceFound => "Device found! Connecting..."@,
        Status::Connected => "Connected! Discovering services..."@,
        Status::Subscribed => "Subscribed to notifications!"@,
    }
}

impl Status {
    /// The human-readable line carried by the status event.
    pub fn text(&self) -> (r: String)
        ensures
            r@ == status_text(*self),
    {
        match self {
            Status::Scanning => String::from_str("Scanning for device..."),
            Status::DeviceFound => String::from_str("Device found! Connecting..."),
            Status::Connected => String::from_str("Connected! Discovering services..."),
            Status::Subscribed => String::from_str("Subscribed to notifications!"),
        }
    }
}

/// Outcome of the I/O step that the controller last asked for, or the
/// shutdown signal.
#[derive(Clone, Debug)]
pub enum Event {
    /// The pipeline task begins.
    Start,
    /// Adapter enumeration returned this many adapters.
    AdaptersListed(usize),
    /// The discovery session is running on the chosen adapter.
    ScanStarted,
    /// After the quiescence period: the advertised local name of each visible
    /// peripheral in enumeration order, `None` where none could be read.
    PeripheralsListed(Vec<Option<String>>),
    /// The connection to the chosen peripheral is open.
    Connected,
    /// Service and characteristic discovery completed.
    ServicesDiscovered,
    /// Identifiers of the discovered characteristics, in topology order.
    CharacteristicsListed(Vec<u128>),
    /// The subscribe request was accepted.
    Subscribed,
    /// One inbound notification frame.
    Frame(Vec<u8>),
    /// The notification stream ended.
    StreamEnded,
    /// The I/O step in flight failed.
    StepFailed,
    /// The process is shutting down.
    Shutdown,
}

/// What the driver has to do next, in order.
#[derive(Clone, Debug)]
pub enum Action {
    /// Enumerate the host's adapters.
    ListAdapters,
    /// Publish a status event.
    Announce(Status),
    /// Start an unfiltered discovery session on the adapter at this index.
    StartScan(usize),
    /// Record the scanning adapter in the connection state.
    RecordAdapter,
    /// Wait the quiescence period, then list the visible peripherals.
    AwaitPeripherals,
    /// Stop the discovery session.
    StopScan,
    /// Connect to the peripheral at this index of the last listing.
    Connect(usize),
    /// Record the connected peripheral and this characteristic.
    RecordDevice(u128),
    /// Discover the peripheral's services and characteristics.
    DiscoverServices,
    /// List the discovered characteristics.
    ListCharacteristics,
    /// Subscribe to the characteristic at this index of the last listing.
    Subscribe(usize),
    /// Wait for the next notification frame.
    ReceiveNext,
    /// Publish a notification event.
    Deliver(BleNotification),
    /// Report the failure that ended the pipeline.
    Report(PipelineError),
    /// The pipeline ended without failure.
    Finish,
}

/// The failure that a failed I/O step stands for in each stage.
pub open spec fn failure_in(p: Phase) -> PipelineError {
    match p {
        Phase::Connecting => PipelineError::ConnectError,
        Phase::DiscoveringServices => PipelineError::DiscoveryError,
        Phase::Subscribing => PipelineError::SubscribeError,
        _ => PipelineError::Transport,
    }
}

/// Events that a stage acts on; every other one leaves it as it is.
pub open spec fn expected(p: Phase, e: Event) -> bool {
    ||| e is Shutdown && p != Phase::TornDown
    ||| p == Phase::Idle && e is Start
    ||| p == Phase::Scanning && (e is AdaptersListed || e is ScanStarted || e is PeripheralsListed
        || e is StepFailed)
    ||| p == Phase::Connecting && (e is Connected || e is StepFailed)
    ||| p == Phase::DiscoveringServices && (e is ServicesDiscovered || e is StepFailed)
    ||| p == Phase::Subscribing && (e is CharacteristicsListed || e is Subscribed
        || e is StepFailed)
    ||| p == Phase::Listening && (e is Frame || e is StreamEnded || e is StepFailed)
}

/// The decisions of one connection attempt; the driver performs the actions
/// and feeds back what came of them.
pub struct Pipeline {
    pub phase: Phase,
    /// Substring that the target's advertised name must hold.
    pub target_name: String,
    /// Identifier of the characteristic to subscribe to.
    pub char_id: u128,
}

impl Pipeline {
    /// A pipeline that has not started yet.
    pub fn new(target_name: String, char_id: u128) -> (r: Pipeline)
        ensures
            r.phase == Phase::Idle,
            r.target_name == target_name,
            r.char_id == char_id,
    {
        Pipeline { phase: Phase::Idle, target_name, char_id }
    }

    /// A pipeline for the configured device name and characteristic; fails
    /// when the configured identifier does not parse.
    pub fn configured() -> (r: Result<Pipeline, PipelineError>)
        ensures
            match identifier_of(CHARACTERISTIC_UUID@) {
                Some(v) => r matches Ok(p) && p.phase == Phase::Idle && p.char_id == v
                    && p.target_name@ == DEVICE_NAME@,
                None => r == Err::<Pipeline, PipelineError>(PipelineError::InvalidIdentifier),
            },
    {
        match characteristic_id(CHARACTERISTIC_UUID) {
            Ok(v) => Ok(Pipeline::new(String::from_str(DEVICE_NAME), v)),
            Err(e) => Err(e),
        }
    }

    /// The current stage.
    pub fn phase(&self) -> (r: Phase)
        ensures
            r == self.phase,
    {
        self.phase
    }

    /// Takes the outcome of the last step and decides the next stage and the
    /// actions that lead to it.
    pub fn step(&mut self, event: Event) -> (r: Vec<Action>)
        ensures
            final(self).target_name == old(self).target_name,
            final(self).char_id == old(self).char_id,
            !expected(old(self).phase, event) ==> final(self).phase == old(self).phase && r@.len()
                == 0,
            event is Shutdown && old(self).phase != Phase::TornDown ==> final(self).phase
                == Phase::TornDown && r@.len() == 0,
            old(self).phase == Phase::Idle && event is Start ==> final(self).phase
                == Phase::Scanning && r@ == seq![Action::ListAdapters],
            event matches Event::AdaptersListed(n) ==> (old(self).phase == Phase::Scanning ==> if n
                == 0 {
                final(self).phase == Phase::TornDown && r@ == seq![
                    Action::Report(PipelineError::NoAdapterFound),
                ]
            } else {
                final(self).phase == Phase::Scanning && r@ == seq![
                    Action::Announce(Status::Scanning),
                    Action::StartScan(0),
                ]
            }),
            old(self).phase == Phase::Scanning && event is ScanStarted ==> final(self).phase
                == Phase::Scanning && r@ == seq![Action::RecordAdapter, Action::AwaitPeripherals],
            event matches Event::PeripheralsListed(names) ==> (old(self).phase == Phase::Scanning
                ==> if exists|i: int|
                0 <= i < names@.len() && #[trigger] advertises(
                    names@[i],
                    old(self).target_name@,
                ) {
                &&& final(self).phase == Phase::Connecting
                &&& r@.len() == 3
                &&& r@[0] == Action::Announce(Status::DeviceFound)
                &&& r@[1] == Action::StopScan
                &&& r@[2] matches Action::Connect(i) && i < names@.len() && advertises(
                    names@[i as int],
                    old(self).target_name@,
                ) && forall|j: int|
                    0 <= j < i ==> !#[trigger] advertises(names@[j], old(self).target_name@)
            } else {
                final(self).phase == Phase::TornDown && r@ == seq![
                    Action::StopScan,
                    Action::Report(PipelineError::DeviceNotFound),
                ]
            }),
            old(self).phase == Phase::Connecting && event is Connected ==> final(self).phase
                == Phase::DiscoveringServices && r@ == seq![
                Action::RecordDevice(old(self).char_id),
                Action::Announce(Status::Connected),
                Action::DiscoverServices,
            ],
            old(self).phase == Phase::DiscoveringServices && event is ServicesDiscovered
                ==> final(self).phase == Phase::Subscribing && r@ == seq![
                Action::ListCharacteristics,
            ],
            event matches Event::CharacteristicsListed(ids) ==> (old(self).phase == Phase::Subscribing
                ==> if ids@.contains(old(self).char_id) {
                &&& final(self).phase == Phase::Subscribing
                &&& r@.len() == 2
                &&& r@[0] == Action::Announce(Status::Subscribed)
                &&& r@[1] matches Action::Subscribe(j) && j < ids@.len() && ids@[j as int]
                    == old(self).char_id && forall|k: int|
                    0 <= k < j ==> ids@[k] != old(self).char_id
            } else {
                final(self).phase == Phase::TornDown && r@ == seq![
                    Action::Report(PipelineError::CharacteristicNotFound),
                ]
            }),
            old(self).phase == Phase::Subscribing && event is Subscribed ==> final(self).phase
                == Phase::Listening && r@ == seq![Action::ReceiveNext],
            event matches Event::Frame(bytes) ==> (old(self).phase == Phase::Listening ==> {
                &&& final(self).phase == Phase::Listening
                &&& r@.len() == 2
                &&& r@[0] matches Action::Deliver(n) && n.renders(bytes@)
                &&& r@[1] == Action::ReceiveNext
            }),
            old(self).phase == Phase::Listening && (event is StreamEnded || event is StepFailed)
                ==> final(self).phase == Phase::TornDown && r@ == seq![Action::Finish],
            old(self).phase != Phase::Listening && event is StepFailed && expected(
                old(self).phase,
                event,
            ) ==> final(self).phase == Phase::TornDown && r@ == seq![
                Action::Report(failure_in(old(self).phase)),
            ],
    {
        let mut r: Vec<Action> = Vec::new();
        match event {
            Event::Shutdown => {
                if self.phase != Phase::TornDown {
                    self.phase = Phase::TornDown;
                }
            },
            Event::Start => {
                if self.phase == Phase::Idle {
                    self.phase = Phase::Scanning;
                    r.push(Action::ListAdapters);
                }
            },
            Event::AdaptersListed(n) => {
                if self.phase == Phase::Scanning {
                    match crate::matching::locate_adapter(n) {
                        Ok(a) => {
                            r.push(Action::Announce(Status::Scanning));
                            r.push(Action::StartScan(a));
                        },
                        Err(e) => {
                            self.phase = Phase::TornDown;
                            r.push(Action::Report(e));
                        },
                    }
                }
            },
            Event::ScanStarted => {
                if self.phase == Phase::Scanning {
                    r.push(Action::RecordAdapter);
                    r.push(Action::AwaitPeripherals);
                }
            },
            Event::PeripheralsListed(names) => {
                if self.phase == Phase::Scanning {
                    match select_peripheral(&names, self.target_name.as_str()) {
                        Ok(i) => {
                            self.phase = Phase::Connecting;
                            r.push(Action::Announce(Status::DeviceFound));
                            r.push(Action::StopScan);
                            r.push(Action::Connect(i));
                        },
                        Err(e) => {
                            self.phase = Phase::TornDown;
                            r.push(Action::StopScan);
                            r.push(Action::Report(e));
                        },
                    }
                }
            },
            Event::Connected => {
                if self.phase == Phase::Connecting {
                    self.phase = Phase::DiscoveringServices;
                    r.push(Action::RecordDevice(self.char_id));
                    r.push(Action::Announce(Status::Connected));
                    r.push(Action::DiscoverServices);
                }
            },
            Event::ServicesDiscovered => {
                if self.phase == Phase::DiscoveringServices {
                    self.phase = Phase::Subscribing;
                    r.push(Action::ListCharacteristics);
                }
            },
            Event::CharacteristicsListed(ids) => {
                if self.phase == Phase::Subscribing {
                    match select_characteristic(&ids, self.char_id) {
                        Ok(j) => {
                            r.push(Action::Announce(Status::Subscribed));
                            r.push(Action::Subscribe(j));
                        },
                        Err(e) => {
                            self.phase = Phase::TornDown;
                            r.push(Action::Report(e));
                        },
                    }
                }
            },
            Event::Subscribed => {
                if self.phase == Phase::Subscribing {
                    self.phase = Phase::Listening;
                    r.push(Action::ReceiveNext);
                }
            },
            Event::Frame(bytes) => {
                if self.phase == Phase::Listening {
                    r.push(Action::Deliver(BleNotification::from_frame(bytes)));
                    r.push(Action::ReceiveNext);
                }
            },
            Event::StreamEnded => {
                if self.phase == Phase::Listening {
                    self.phase = Phase::TornDown;
                    r.push(Action::Finish);
                }
            },
            Event::StepFailed => {
                if self.phase == Phase::Listening {
                    self.phase = Phase::TornDown;
                    r.push(Action::Finish);
                } else if self.phase != Phase::Idle && self.phase != Phase::TornDown {
                    let e = match self.phase {
                        Phase::Connecting => PipelineError::ConnectError,
                        Phase::DiscoveringServices => PipelineError::DiscoveryError,
                        Phase::Subscribing => PipelineError::SubscribeError,
                        _ => PipelineError::Transport,
                    };
                    self.phase = Phase::TornDown;
                    r.push(Action::Report(e));
                }
            },
        }
        r
    }
}

} // verus!
