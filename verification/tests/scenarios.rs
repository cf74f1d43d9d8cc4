use spo2::driver::{
    dispatch, select_adapter, Action, Driver, Event, Input, PeripheralId, Phase, Sensor,
    EVENT_WAIT_MILLIS,
};
use spo2::error::Error;
use spo2::matcher::Properties;
use spo2::options::Options;
use spo2::span::Span;
use spo2::traces::replay;

/// A simulated radio: it answers each action of the driver from a script.
struct World {
    adapters: usize,
    now_ms: u64,
    /// Events with the time at which each arrives, in order.
    events: Vec<(u64, Event)>,
    /// Advertised names by device number; a device without an entry has no
    /// properties yet.
    names: Vec<(u64, Option<String>)>,
    connected: bool,
    connect_works: bool,
    services: usize,
    scans_started: usize,
    scans_stopped: usize,
    connects: usize,
    discoveries: usize,
    resolved: Vec<u64>,
}

impl World {
    fn new() -> World {
        World {
            adapters: 1,
            now_ms: 0,
            events: Vec::new(),
            names: Vec::new(),
            connected: false,
            connect_works: true,
            services: 0,
            scans_started: 0,
            scans_stopped: 0,
            connects: 0,
            discoveries: 0,
            resolved: Vec::new(),
        }
    }

    fn answer(&mut self, action: Action) -> Input {
        match action {
            Action::ListAdapters => Input::Adapters(self.adapters),
            Action::StartScan(_) => {
                self.scans_started += 1;
                Input::Completed
            }
            Action::ReadClock => Input::Elapsed(Span::from_millis(self.now_ms)),
            Action::WaitEvent => {
                if !self.events.is_empty() && self.events[0].0 <= self.now_ms + EVENT_WAIT_MILLIS {
                    let (at, e) = self.events.remove(0);
                    if at > self.now_ms {
                        self.now_ms = at;
                    }
                    Input::Event(e)
                } else {
                    self.now_ms += EVENT_WAIT_MILLIS;
                    Input::Quiet
                }
            }
            Action::Resolve(id) => {
                self.resolved.push(id.0);
                Input::Completed
            }
            Action::FetchProperties(id) => {
                let found = self.names.iter().find(|(k, _)| *k == id.0);
                Input::Properties(found.map(|(_, n)| Properties { local_name: n.clone() }))
            }
            Action::QueryConnected(_) => Input::Connected(self.connected),
            Action::Connect(_) => {
                self.connects += 1;
                if self.connect_works {
                    self.connected = true;
                }
                Input::Completed
            }
            Action::DiscoverServices(_) => {
                self.discoveries += 1;
                Input::Completed
            }
            Action::StopScan => {
                self.scans_stopped += 1;
                Input::Completed
            }
            Action::ReadServices(_) => Input::Services(self.services),
            Action::Finish => unreachable!(),
        }
    }

    fn drive(&mut self, options: Options) -> Result<Sensor, Error> {
        let mut driver = Sensor::connect(options);
        let mut steps = 0;
        while !driver.is_done() {
            let input = self.answer(driver.pending());
            driver = driver.step(input);
            steps += 1;
            assert!(steps < 100_000);
        }
        driver.outcome().unwrap()
    }
}

fn options(prefix: &str, timeout_ms: u64) -> Options {
    Options::new(0, prefix.to_string(), Span::from_millis(timeout_ms))
}

fn searching(prefix: &str, candidate: Option<u64>) -> Driver {
    Driver {
        options: options(prefix, 10_000),
        phase: Phase::Waiting,
        candidate: candidate.map(PeripheralId),
    }
}

#[test]
fn select_adapter_within_range() {
    assert_eq!(select_adapter(0, 1), Ok(0));
    assert_eq!(select_adapter(1, 2), Ok(1));
}

#[test]
fn select_adapter_out_of_range() {
    assert_eq!(select_adapter(0, 0), Err(Error::NoMatchingAdaptor(0)));
    assert_eq!(select_adapter(2, 2), Err(Error::NoMatchingAdaptor(2)));
    assert_eq!(select_adapter(usize::MAX, 3), Err(Error::NoMatchingAdaptor(usize::MAX)));
}

#[test]
fn missing_adapter_fails_without_a_scan() {
    let mut w = World::new();
    w.adapters = 2;
    let o = Options::new(2, "J1".to_string(), Span::from_secs(1));
    assert_eq!(w.drive(o), Err(Error::NoMatchingAdaptor(2)));
    assert_eq!(w.scans_started, 0);
    assert_eq!(w.scans_stopped, 0);
    assert_eq!(w.now_ms, 0);
}

#[test]
fn no_adapters_at_all() {
    let mut w = World::new();
    w.adapters = 0;
    assert_eq!(w.drive(options("J1", 1000)), Err(Error::NoMatchingAdaptor(0)));
    assert_eq!(w.scans_started, 0);
}

#[test]
fn scan_starts_on_the_configured_adapter() {
    let d = Sensor::connect(Options::new(1, "J1".to_string(), Span::from_secs(1)));
    assert_eq!(d.pending(), Action::ListAdapters);
    let d = d.step(Input::Adapters(3));
    assert_eq!(d.pending(), Action::StartScan(1));
    let d = d.step(Input::Completed);
    assert_eq!(d.pending(), Action::ReadClock);
}

#[test]
fn sensor_found_connected_and_enumerated() {
    let mut w = World::new();
    w.events.push((1000, Event::DeviceDiscovered(PeripheralId(9))));
    w.events.push((1200, Event::DeviceConnected(PeripheralId(9))));
    w.names.push((9, Some("J1-Sensor-09".to_string())));
    w.services = 2;
    let r = w.drive(options("J1", 10_000));
    assert_eq!(r, Ok(Sensor { id: PeripheralId(9), services: 2 }));
    assert_eq!(w.scans_started, 1);
    assert_eq!(w.scans_stopped, 1);
    assert_eq!(w.connects, 1);
    assert!(w.discoveries >= 1);
    assert!(w.now_ms >= 10_000 && w.now_ms < 10_000 + EVENT_WAIT_MILLIS);
}

#[test]
fn nothing_heard_until_timeout() {
    let mut w = World::new();
    let r = w.drive(options("J1", 1000));
    assert_eq!(r, Err(Error::NoDeviceFound));
    assert_eq!(w.scans_started, 1);
    assert_eq!(w.scans_stopped, 1);
    assert_eq!(w.now_ms, 1000);
    assert_eq!(w.connects, 0);
}

#[test]
fn only_other_devices_heard_until_timeout() {
    let mut w = World::new();
    w.events.push((100, Event::DeviceDiscovered(PeripheralId(1))));
    w.events.push((200, Event::DeviceDiscovered(PeripheralId(2))));
    w.events.push((300, Event::DeviceDiscovered(PeripheralId(3))));
    w.names.push((1, Some("Watch".to_string())));
    w.names.push((2, None));
    let r = w.drive(options("J1", 2000));
    assert_eq!(r, Err(Error::NoDeviceFound));
    assert_eq!(w.resolved, vec![1, 2, 3]);
    assert_eq!(w.scans_stopped, 1);
    assert_eq!(w.connects, 0);
}

#[test]
fn first_match_wins() {
    let mut w = World::new();
    w.events.push((100, Event::DeviceDiscovered(PeripheralId(4))));
    w.events.push((200, Event::DeviceDiscovered(PeripheralId(5))));
    w.names.push((4, Some("J1-a".to_string())));
    w.names.push((5, Some("J1-b".to_string())));
    w.services = 1;
    let r = w.drive(options("J1", 1000));
    assert_eq!(r, Ok(Sensor { id: PeripheralId(4), services: 1 }));
    assert_eq!(w.resolved, vec![4]);
}

#[test]
fn later_discovery_does_not_replace_candidate() {
    let d = searching("J1", Some(4));
    let d = d.step(Input::Event(Event::DeviceDiscovered(PeripheralId(5))));
    assert_eq!(d.candidate, Some(PeripheralId(4)));
    assert_eq!(d.phase, Phase::CheckingClock);
    assert_eq!(d.pending(), Action::ReadClock);
}

#[test]
fn no_services_found() {
    let mut w = World::new();
    w.events.push((100, Event::DeviceDiscovered(PeripheralId(4))));
    w.names.push((4, Some("J1-a".to_string())));
    w.services = 0;
    assert_eq!(w.drive(options("J1", 1000)), Err(Error::NoServicesFound));
    assert_eq!(w.scans_stopped, 1);
}

#[test]
fn connect_never_succeeds() {
    let mut w = World::new();
    w.events.push((100, Event::DeviceDiscovered(PeripheralId(4))));
    w.names.push((4, Some("J1-a".to_string())));
    w.connect_works = false;
    w.services = 3;
    assert_eq!(w.drive(options("J1", 1000)), Err(Error::ConnectFailed));
    // one attempt on discovery, one after the search
    assert_eq!(w.connects, 2);
    assert_eq!(w.scans_stopped, 1);
}

#[test]
fn already_connected_device_is_explored_directly() {
    let mut w = World::new();
    w.events.push((100, Event::DeviceDiscovered(PeripheralId(4))));
    w.names.push((4, Some("J1-a".to_string())));
    w.connected = true;
    w.services = 1;
    assert_eq!(w.drive(options("J1", 1000)), Ok(Sensor { id: PeripheralId(4), services: 1 }));
    assert_eq!(w.connects, 0);
    assert_eq!(w.discoveries, 2);
}

#[test]
fn zero_timeout_stops_at_once() {
    let mut w = World::new();
    w.events.push((0, Event::DeviceDiscovered(PeripheralId(4))));
    w.names.push((4, Some("J1-a".to_string())));
    assert_eq!(w.drive(options("J1", 0)), Err(Error::NoDeviceFound));
    assert_eq!(w.now_ms, 0);
    assert_eq!(w.scans_stopped, 1);
}

#[test]
fn elapsed_equal_to_timeout_ends_the_search() {
    let d = Driver {
        options: options("J1", 1000),
        phase: Phase::CheckingClock,
        candidate: None,
    };
    let d = d.step(Input::Elapsed(Span::from_millis(1000)));
    assert_eq!(d.phase, Phase::StoppingScan);
    assert_eq!(d.pending(), Action::StopScan);
    let d = d.step(Input::Completed);
    assert_eq!(d.phase, Phase::Done(Err(Error::NoDeviceFound)));
}

#[test]
fn elapsed_below_timeout_keeps_searching() {
    let d = Driver {
        options: options("J1", 1000),
        phase: Phase::CheckingClock,
        candidate: None,
    };
    let d = d.step(Input::Elapsed(Span::new(0, 999_999_999).unwrap()));
    assert_eq!(d.phase, Phase::Waiting);
    assert_eq!(d.pending(), Action::WaitEvent);
    let d = d.step(Input::Quiet);
    assert_eq!(d.phase, Phase::CheckingClock);
}

#[test]
fn discovery_is_examined_step_by_step() {
    let d = searching("J1", None);
    let d = d.step(Input::Event(Event::DeviceDiscovered(PeripheralId(7))));
    assert_eq!(d.pending(), Action::Resolve(PeripheralId(7)));
    let d = d.step(Input::Completed);
    assert_eq!(d.pending(), Action::FetchProperties(PeripheralId(7)));
    let d = d.step(Input::Properties(Some(Properties {
        local_name: Some("J1-Sensor-09".to_string()),
    })));
    assert_eq!(d.candidate, Some(PeripheralId(7)));
    assert_eq!(d.pending(), Action::QueryConnected(PeripheralId(7)));
    let d = d.step(Input::Connected(false));
    assert_eq!(d.pending(), Action::Connect(PeripheralId(7)));
    let d = d.step(Input::Completed);
    assert_eq!(d.pending(), Action::ReadClock);
    assert_eq!(d.candidate, Some(PeripheralId(7)));
}

#[test]
fn absent_properties_are_passed_over() {
    let d = Driver {
        options: options("", 1000),
        phase: Phase::FetchingProperties(PeripheralId(7)),
        candidate: None,
    };
    let d = d.step(Input::Properties(None));
    assert_eq!(d.candidate, None);
    assert_eq!(d.phase, Phase::CheckingClock);
}

#[test]
fn failed_property_fetch_is_passed_over() {
    let d = Driver {
        options: options("J1", 1000),
        phase: Phase::FetchingProperties(PeripheralId(7)),
        candidate: None,
    };
    let d = d.step(Input::Fault("timed out".to_string()));
    assert_eq!(d.candidate, None);
    assert_eq!(d.phase, Phase::CheckingClock);
    assert!(!d.is_done());
}

#[test]
fn fault_elsewhere_ends_the_attempt() {
    let d = Sensor::connect(options("J1", 1000));
    let d = d.step(Input::Fault("no bluetooth".to_string()));
    assert!(d.is_done());
    assert_eq!(d.pending(), Action::Finish);
    assert_eq!(d.outcome(), Some(Err(Error::Ble("no bluetooth".to_string()))));

    let d = Driver {
        options: options("J1", 1000),
        phase: Phase::Resolving(PeripheralId(1)),
        candidate: None,
    };
    let d = d.step(Input::Fault("gone".to_string()));
    assert_eq!(d.outcome(), Some(Err(Error::Ble("gone".to_string()))));

    let d = Driver { options: options("J1", 1000), phase: Phase::StoppingScan, candidate: None };
    let d = d.step(Input::Fault("busy".to_string()));
    assert_eq!(d.outcome(), Some(Err(Error::Ble("busy".to_string()))));
}

#[test]
fn connected_event_of_candidate_triggers_discovery() {
    let d = searching("J1", Some(4));
    let d = d.step(Input::Event(Event::DeviceConnected(PeripheralId(4))));
    assert_eq!(d.pending(), Action::DiscoverServices(PeripheralId(4)));
    let d = d.step(Input::Completed);
    assert_eq!(d.pending(), Action::ReadClock);
}

#[test]
fn events_of_other_devices_are_ignored() {
    for e in [
        Event::DeviceConnected(PeripheralId(5)),
        Event::DeviceDisconnected(PeripheralId(5)),
        Event::DeviceUpdated(PeripheralId(5)),
        Event::ManufacturerDataAdvertisement(PeripheralId(5)),
        Event::ServiceDataAdvertisement(PeripheralId(5)),
        Event::ServicesAdvertisement(PeripheralId(5)),
        Event::Other,
    ] {
        let d = searching("J1", Some(4)).step(Input::Event(e));
        assert_eq!(d.candidate, Some(PeripheralId(4)));
        assert_eq!(d.phase, Phase::CheckingClock);
    }
}

#[test]
fn events_before_any_candidate_are_ignored_but_discovery() {
    for e in [
        Event::DeviceConnected(PeripheralId(5)),
        Event::DeviceDisconnected(PeripheralId(5)),
        Event::DeviceUpdated(PeripheralId(5)),
        Event::ServicesAdvertisement(PeripheralId(5)),
        Event::Other,
    ] {
        let d = searching("J1", None).step(Input::Event(e));
        assert_eq!(d.candidate, None);
        assert_eq!(d.phase, Phase::CheckingClock);
    }
}

#[test]
fn disconnect_of_candidate_changes_nothing() {
    let d = searching("J1", Some(4));
    let d = d.step(Input::Event(Event::DeviceDisconnected(PeripheralId(4))));
    assert_eq!(d.candidate, Some(PeripheralId(4)));
    assert_eq!(d.phase, Phase::CheckingClock);
}

#[test]
fn advertisements_of_candidate_change_nothing() {
    for e in [
        Event::DeviceUpdated(PeripheralId(4)),
        Event::ManufacturerDataAdvertisement(PeripheralId(4)),
        Event::ServiceDataAdvertisement(PeripheralId(4)),
        Event::ServicesAdvertisement(PeripheralId(4)),
    ] {
        let d = searching("J1", Some(4)).step(Input::Event(e));
        assert_eq!(d.candidate, Some(PeripheralId(4)));
        assert_eq!(d.phase, Phase::CheckingClock);
    }
}

#[test]
fn dispatch_table() {
    let a = PeripheralId(1);
    let b = PeripheralId(2);
    assert_eq!(dispatch(Event::DeviceDiscovered(a), None), Phase::Resolving(a));
    assert_eq!(dispatch(Event::DeviceDiscovered(b), Some(a)), Phase::CheckingClock);
    assert_eq!(dispatch(Event::DeviceDiscovered(a), Some(a)), Phase::CheckingClock);
    assert_eq!(dispatch(Event::DeviceConnected(a), Some(a)), Phase::Exploring);
    assert_eq!(dispatch(Event::DeviceConnected(b), Some(a)), Phase::CheckingClock);
    assert_eq!(dispatch(Event::DeviceConnected(a), None), Phase::CheckingClock);
    assert_eq!(dispatch(Event::Other, None), Phase::CheckingClock);
}

#[test]
fn answer_to_another_action_is_ignored() {
    let d = Sensor::connect(options("J1", 1000));
    let d = d.step(Input::Completed);
    assert_eq!(d.phase, Phase::ListingAdapters);
    let d = d.step(Input::Services(3));
    assert_eq!(d.phase, Phase::ListingAdapters);
    let d = d.step(Input::Event(Event::DeviceDiscovered(PeripheralId(1))));
    assert_eq!(d.phase, Phase::ListingAdapters);
    assert_eq!(d.candidate, None);
    assert_eq!(d.outcome(), None);
}

#[test]
fn finished_attempt_stays_finished() {
    let d = Sensor::connect(options("J1", 1000)).step(Input::Adapters(0));
    assert_eq!(d.phase, Phase::Done(Err(Error::NoMatchingAdaptor(0))));
    let d = d.step(Input::Adapters(5));
    let d = d.step(Input::Fault("late".to_string()));
    assert_eq!(d.pending(), Action::Finish);
    assert_eq!(d.outcome(), Some(Err(Error::NoMatchingAdaptor(0))));
}

#[test]
fn reconnect_after_search_succeeds() {
    let d = Driver {
        options: options("J1", 1000),
        phase: Phase::StoppingScan,
        candidate: Some(PeripheralId(4)),
    };
    let d = d.step(Input::Completed);
    assert_eq!(d.pending(), Action::QueryConnected(PeripheralId(4)));
    let d = d.step(Input::Connected(false));
    assert_eq!(d.pending(), Action::Connect(PeripheralId(4)));
    let d = d.step(Input::Completed);
    assert_eq!(d.pending(), Action::QueryConnected(PeripheralId(4)));
    let d = d.step(Input::Connected(true));
    assert_eq!(d.pending(), Action::DiscoverServices(PeripheralId(4)));
    let d = d.step(Input::Completed);
    assert_eq!(d.pending(), Action::ReadServices(PeripheralId(4)));
    let d = d.step(Input::Services(5));
    assert_eq!(d.outcome(), Some(Ok(Sensor { id: PeripheralId(4), services: 5 })));
}

#[test]
fn wait_bound_is_half_a_second() {
    assert_eq!(EVENT_WAIT_MILLIS, 500);
}

#[test]
fn replay_of_a_recorded_search() {
    let inputs = vec![
        Input::Adapters(1),
        Input::Completed,
        Input::Elapsed(Span::from_millis(0)),
        Input::Event(Event::DeviceDiscovered(PeripheralId(3))),
        Input::Completed,
        Input::Properties(Some(Properties { local_name: Some("J1-Sensor-09".to_string()) })),
        Input::Connected(false),
        Input::Completed,
        Input::Elapsed(Span::from_millis(1000)),
        Input::Event(Event::DeviceConnected(PeripheralId(3))),
        Input::Completed,
        Input::Elapsed(Span::from_millis(10_000)),
        Input::Completed,
        Input::Connected(true),
        Input::Completed,
        Input::Services(2),
    ];
    let d = replay(Sensor::connect(options("J1", 10_000)), inputs);
    assert_eq!(d.candidate, Some(PeripheralId(3)));
    assert_eq!(d.outcome(), Some(Ok(Sensor { id: PeripheralId(3), services: 2 })));
}

#[test]
fn replay_of_nothing_changes_nothing() {
    let d = replay(Sensor::connect(options("J1", 10_000)), Vec::new());
    assert_eq!(d, Sensor::connect(options("J1", 10_000)));
}

#[test]
fn replay_stops_short_where_the_record_does() {
    let inputs = vec![Input::Adapters(1), Input::Completed, Input::Elapsed(Span::from_secs(3))];
    let d = replay(Sensor::connect(options("J1", 10_000)), inputs);
    assert_eq!(d.phase, Phase::Waiting);
    assert_eq!(d.outcome(), None);
}
