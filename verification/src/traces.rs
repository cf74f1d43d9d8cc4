//! What holds of whole runs of the driver, whatever the caller reports.

use vstd::prelude::*;
use crate::driver::{Action, Driver, Event, Input, PeripheralId, Phase, Sensor};
use crate::error::Error;
use crate::matcher::name_matches;
use crate::options::Options;
use crate::span::{within_budget, Span};

verus! {

/// The state reached from `d` after the inputs, taken in order.
pub open spec fn run(d: Driver, inputs: Seq<Input>) -> Driver
    decreases inputs.len(),
{
    if inputs.len() == 0 {
        d
    } else {
        run(d, inputs.drop_last()).next(inputs.last())
    }
}

/// How often, in the run from `d` over the inputs, the driver came to ask
/// for the scan to be stopped.
pub open spec fn stops(d: Driver, inputs: Seq<Input>) -> nat
    decreases inputs.len(),
{
    if inputs.len() == 0 {
        0
    } else {
        let before = run(d, inputs.drop_last());
        let entered = before.phase != Phase::StoppingScan && before.next(inputs.last()).phase
            == Phase::StoppingScan;
        stops(d, inputs.drop_last()) + if entered {
            1nat
        } else {
            0nat
        }
    }
}

/// A run may as well be read from its first input on.
pub proof fn lemma_run_from_front(d: Driver, inputs: Seq<Input>)
    requires
        inputs.len() > 0,
    ensures
        run(d, inputs) == run(d.next(inputs[0]), inputs.drop_first()),
    decreases inputs.len(),
{
    let tail = inputs.drop_first();
    if inputs.len() == 1 {
        assert(inputs.drop_last().len() == 0);
        assert(inputs.last() == inputs[0]);
        assert(run(d, inputs.drop_last()) == d);
        assert(tail.len() == 0);
    } else {
        let head = inputs.drop_last();
        lemma_run_from_front(d, head);
        assert(head[0] == inputs[0]);
        assert(head.drop_first() =~= tail.drop_last());
        assert(tail.last() == inputs.last());
    }
}

/// Hands the driver a recorded sequence of inputs, one after the other, and
/// returns the state that it reaches.
pub fn replay(d: Driver, inputs: Vec<Input>) -> (r: Driver)
    ensures
        r == run(d, inputs@),
        d.wf() ==> r.wf(),
{
    let mut rest = inputs;
    let mut cur = d;
    while rest.len() > 0
        invariant
            run(cur, rest@) == run(d, inputs@),
            d.wf() ==> cur.wf(),
        decreases rest.len(),
    {
        proof {
            lemma_run_from_front(cur, rest@);
            assert(rest@.remove(0) =~= rest@.drop_first());
        }
        let input = rest.remove(0);
        cur = cur.step(input);
    }
    cur
}

/// No input of the run reports properties that match the prefix.
pub open spec fn no_match_in(inputs: Seq<Input>, prefix: Seq<char>) -> bool {
    forall|i: int|
        0 <= i < inputs.len() ==> match #[trigger] inputs[i] {
            Input::Properties(p) => !name_matches(p, prefix),
            _ => true,
        }
}

/// A step keeps the settings, keeps the agreement of phase and candidate,
/// and never takes the attempt back to an earlier stage.
pub proof fn lemma_step(d: Driver, input: Input)
    requires
        d.wf(),
    ensures
        d.next(input).wf(),
        d.next(input).options == d.options,
        d.phase.stage() <= d.next(input).phase.stage(),
{
}

/// A report on the pending action moves the attempt to another phase, so
/// that no action is asked for twice on one visit; any other input leaves
/// the state as it is.
pub proof fn lemma_answer_moves_on(d: Driver, input: Input)
    requires
        d.wf(),
    ensures
        d.pending_action().answered_by(input) ==> d.next(input).phase != d.phase,
        !d.pending_action().answered_by(input) ==> d.next(input) == d,
{
}

/// Every state of a run that starts in a well-formed state is well-formed,
/// and has the settings of the start.
pub proof fn lemma_run_wf(d: Driver, inputs: Seq<Input>)
    requires
        d.wf(),
    ensures
        run(d, inputs).wf(),
        run(d, inputs).options == d.options,
        d.phase.stage() <= run(d, inputs).phase.stage(),
    decreases inputs.len(),
{
    if inputs.len() > 0 {
        lemma_run_wf(d, inputs.drop_last());
        lemma_step(run(d, inputs.drop_last()), inputs.last());
    }
}

/// An attempt that is over stays as it is, and asks for nothing more.
pub proof fn lemma_done_is_final(d: Driver, inputs: Seq<Input>)
    requires
        d.phase is Done,
    ensures
        run(d, inputs) == d,
        run(d, inputs).pending_action() == Action::Finish,
    decreases inputs.len(),
{
    if inputs.len() > 0 {
        lemma_done_is_final(d, inputs.drop_last());
    }
}

/// Where the configured position is not below the number of adapters, the
/// attempt ends at once with `NoMatchingAdaptor` of that position, and no
/// scan is ever asked for: whatever is reported afterwards, the driver only
/// asks to finish.
pub proof fn lemma_adapter_out_of_range(options: Options, available: usize, later: Seq<Input>)
    requires
        options.adaptor >= available,
    ensures
        Driver::initial(options).pending_action() == Action::ListAdapters,
        Driver::initial(options).next(Input::Adapters(available)).phase == Phase::Done(
            Err(Error::NoMatchingAdaptor(options.adaptor)),
        ),
        run(Driver::initial(options).next(Input::Adapters(available)), later).pending_action()
            == Action::Finish,
{
    lemma_done_is_final(Driver::initial(options).next(Input::Adapters(available)), later);
}

/// Where the position is below the number of adapters, the scan is started
/// on the adapter at that position.
pub proof fn lemma_adapter_in_range(options: Options, available: usize)
    requires
        options.adaptor < available,
    ensures
        Driver::initial(options).next(Input::Adapters(available)).pending_action()
            == Action::StartScan(options.adaptor),
{
}

/// Which events are acted upon. Once a candidate is set, an event about any
/// other device, or of an unknown kind, only sends the driver back to the
/// clock, and of the candidate's own events only its connection does more:
/// it has the services discovered. Before that, only a discovery does more:
/// it has the discovered device examined.
pub proof fn lemma_events_acted_upon(d: Driver, event: Event)
    requires
        d.phase == Phase::Waiting,
    ensures
        d.next(Input::Event(event)).candidate == d.candidate,
        d.candidate is Some && event.device() != d.candidate ==> d.next(Input::Event(event))
            == d.at(Phase::CheckingClock),
        d.candidate is Some && !(event is DeviceConnected) ==> d.next(Input::Event(event)) == d.at(
            Phase::CheckingClock,
        ),
        d.candidate is Some && event is DeviceConnected && event.device() == d.candidate
            ==> d.next(Input::Event(event)).pending_action() == Action::DiscoverServices(
            d.candidate->0,
        ),
        d.candidate is None && !(event is DeviceDiscovered) ==> d.next(Input::Event(event)) == d.at(
            Phase::CheckingClock,
        ),
        d.candidate is None && event is DeviceDiscovered ==> d.next(
            Input::Event(event),
        ).pending_action() == Action::Resolve(event->DeviceDiscovered_0),
{
}

/// First match wins, step by step: once a candidate is set, no input
/// changes it.
pub proof fn lemma_candidate_kept_by_step(d: Driver, input: Input)
    requires
        d.wf(),
        d.candidate is Some,
    ensures
        d.next(input).candidate == d.candidate,
{
}

/// First match wins: once a candidate is set, it is the candidate in every
/// later state of the run, whichever devices are discovered afterwards.
pub proof fn lemma_candidate_kept(d: Driver, inputs: Seq<Input>)
    requires
        d.wf(),
        d.candidate is Some,
    ensures
        run(d, inputs).candidate == d.candidate,
    decreases inputs.len(),
{
    if inputs.len() > 0 {
        lemma_candidate_kept(d, inputs.drop_last());
        lemma_run_wf(d, inputs.drop_last());
        lemma_candidate_kept_by_step(run(d, inputs.drop_last()), inputs.last());
    }
}

/// A candidate is set by one input only: properties that match the prefix,
/// reported for the discovered device that is being examined.
pub proof fn lemma_candidate_set_by_match(d: Driver, input: Input)
    requires
        d.candidate is None,
        d.next(input).candidate is Some,
    ensures
        d.phase is FetchingProperties,
        input is Properties,
        name_matches(input->Properties_0, d.options.local_name@),
        d.next(input).candidate == Some(d.phase->FetchingProperties_0),
{
}

/// Without matching properties no candidate is ever set.
pub proof fn lemma_no_match_no_candidate(d: Driver, inputs: Seq<Input>)
    requires
        d.wf(),
        d.candidate is None,
        no_match_in(inputs, d.options.local_name@),
    ensures
        run(d, inputs).candidate is None,
    decreases inputs.len(),
{
    if inputs.len() > 0 {
        let head = inputs.drop_last();
        assert forall|i: int| 0 <= i < head.len() implies match #[trigger] head[i] {
            Input::Properties(p) => !name_matches(p, d.options.local_name@),
            _ => true,
        } by {
            assert(head[i] == inputs[i]);
        }
        lemma_no_match_no_candidate(d, head);
        lemma_run_wf(d, head);
        let last = inputs[inputs.len() - 1];
        assert(last == inputs.last());
        if run(d, head).next(last).candidate is Some {
            lemma_candidate_set_by_match(run(d, head), last);
        }
    }
}

/// When the budget is spent and no candidate was set, the driver asks for
/// the scan to be stopped and then fails with `NoDeviceFound`.
pub proof fn lemma_timeout_without_candidate(d: Driver, elapsed: Span)
    requires
        d.phase == Phase::CheckingClock,
        d.candidate is None,
        !within_budget(elapsed, d.options.search_timeout),
    ensures
        d.next(Input::Elapsed(elapsed)).pending_action() == Action::StopScan,
        d.next(Input::Elapsed(elapsed)).next(Input::Completed).phase == Phase::Done(
            Err(Error::NoDeviceFound),
        ),
{
}

/// While the budget lasts the search goes on: the driver waits for the next
/// event, and a wait without an event leads back to the clock.
pub proof fn lemma_search_goes_on(d: Driver, elapsed: Span)
    requires
        d.phase == Phase::CheckingClock,
        within_budget(elapsed, d.options.search_timeout),
    ensures
        d.next(Input::Elapsed(elapsed)).pending_action() == Action::WaitEvent,
        d.next(Input::Elapsed(elapsed)).next(Input::Quiet).phase == Phase::CheckingClock,
        d.next(Input::Elapsed(elapsed)).next(Input::Quiet).candidate == d.candidate,
{
}

/// A run without matching properties that comes to an end ends in an error,
/// and in none that presupposes a candidate.
pub proof fn lemma_no_match_outcome(options: Options, inputs: Seq<Input>)
    requires
        no_match_in(inputs, options.local_name@),
        run(Driver::initial(options), inputs).phase is Done,
    ensures
        match run(Driver::initial(options), inputs).phase {
            Phase::Done(Err(Error::NoDeviceFound)) => true,
            Phase::Done(Err(Error::Ble(_))) => true,
            Phase::Done(Err(Error::NoMatchingAdaptor(_))) => true,
            _ => false,
        },
{
    lemma_no_match_no_candidate(Driver::initial(options), inputs);
    lemma_run_wf(Driver::initial(options), inputs);
}

/// In a run from the start the scan is stopped at most once, and exactly
/// once where the search phase was left: in every state after the search,
/// and at every outcome but a failure of the stack or a missing adapter.
pub proof fn lemma_scan_stopped_once(options: Options, inputs: Seq<Input>)
    ensures
        stops(Driver::initial(options), inputs) <= 1,
        run(Driver::initial(options), inputs).phase.stage() < 2 ==> stops(
            Driver::initial(options),
            inputs,
        ) == 0,
        2 <= run(Driver::initial(options), inputs).phase.stage() < 4 ==> stops(
            Driver::initial(options),
            inputs,
        ) == 1,
        match run(Driver::initial(options), inputs).phase {
            Phase::Done(Ok(_)) => stops(Driver::initial(options), inputs) == 1,
            Phase::Done(Err(Error::NoDeviceFound)) => stops(Driver::initial(options), inputs) == 1,
            Phase::Done(Err(Error::ConnectFailed)) => stops(Driver::initial(options), inputs) == 1,
            Phase::Done(Err(Error::NoServicesFound)) => stops(Driver::initial(options), inputs)
                == 1,
            _ => true,
        },
    decreases inputs.len(),
{
    if inputs.len() > 0 {
        lemma_scan_stopped_once(options, inputs.drop_last());
        lemma_run_wf(Driver::initial(options), inputs.drop_last());
    }
}

/// No input of the run reports a failure of the Bluetooth stack.
pub open spec fn no_fault_in(inputs: Seq<Input>) -> bool {
    forall|i: int| 0 <= i < inputs.len() ==> !(#[trigger] inputs[i] is Fault)
}

/// A run from the start in which the stack never fails does not end in a
/// Bluetooth error, and a run in which the scan was stopped does not end
/// for want of an adapter.
pub proof fn lemma_error_needs_cause(options: Options, inputs: Seq<Input>)
    ensures
        no_fault_in(inputs) ==> !(run(Driver::initial(options), inputs).phase matches Phase::Done(
            Err(Error::Ble(_)),
        )),
        stops(Driver::initial(options), inputs) >= 1 ==> !(run(
            Driver::initial(options),
            inputs,
        ).phase matches Phase::Done(Err(Error::NoMatchingAdaptor(_)))),
        stops(Driver::initial(options), inputs) >= 1 ==> run(
            Driver::initial(options),
            inputs,
        ).phase.stage() >= 2,
    decreases inputs.len(),
{
    if inputs.len() > 0 {
        let head = inputs.drop_last();
        lemma_error_needs_cause(options, head);
        lemma_run_wf(Driver::initial(options), head);
        lemma_scan_stopped_once(options, head);
        if no_fault_in(inputs) {
            assert forall|i: int| 0 <= i < head.len() implies !(#[trigger] head[i] is Fault) by {
                assert(head[i] == inputs[i]);
            }
            assert(!(inputs[inputs.len() - 1] is Fault));
        }
    }
}

/// When the budget runs out in a search in which no reported properties
/// matched and the stack never failed, the attempt, once over, has failed
/// with `NoDeviceFound`, and the scan was stopped exactly once.
pub proof fn lemma_timeout_without_match(options: Options, inputs: Seq<Input>)
    requires
        no_match_in(inputs, options.local_name@),
        no_fault_in(inputs),
        stops(Driver::initial(options), inputs) >= 1,
        run(Driver::initial(options), inputs).phase is Done,
    ensures
        run(Driver::initial(options), inputs).phase == Phase::Done(Err(Error::NoDeviceFound)),
        stops(Driver::initial(options), inputs) == 1,
{
    lemma_no_match_outcome(options, inputs);
    lemma_error_needs_cause(options, inputs);
    lemma_scan_stopped_once(options, inputs);
}

/// Whenever the run reports on the connection, the device is not connected.
pub open spec fn never_connected_in(inputs: Seq<Input>) -> bool {
    forall|i: int|
        0 <= i < inputs.len() ==> match #[trigger] inputs[i] {
            Input::Connected(c) => !c,
            _ => true,
        }
}

/// Whenever the run reports on the connection, the device is connected.
pub open spec fn always_connected_in(inputs: Seq<Input>) -> bool {
    forall|i: int|
        0 <= i < inputs.len() ==> match #[trigger] inputs[i] {
            Input::Connected(c) => c,
            _ => true,
        }
}

/// Whenever the run reports a number of services, it is zero.
pub open spec fn no_services_in(inputs: Seq<Input>) -> bool {
    forall|i: int|
        0 <= i < inputs.len() ==> match #[trigger] inputs[i] {
            Input::Services(n) => n == 0,
            _ => true,
        }
}

/// Whenever the run reports a number of services, it is at least one.
pub open spec fn some_services_in(inputs: Seq<Input>) -> bool {
    forall|i: int|
        0 <= i < inputs.len() ==> match #[trigger] inputs[i] {
            Input::Services(n) => n >= 1,
            _ => true,
        }
}

/// What the reports of a run rule out. With a device that is never
/// connected, service discovery after the search is not reached; with one
/// that always is, no connect is attempted and none fails; without services
/// no sensor is returned; with services their absence is not the outcome.
pub proof fn lemma_reports_rule_out(options: Options, inputs: Seq<Input>)
    ensures
        never_connected_in(inputs) ==> match run(Driver::initial(options), inputs).phase {
            Phase::Discovering | Phase::Listing | Phase::Done(Ok(_)) | Phase::Done(
                Err(Error::NoServicesFound),
            ) => false,
            _ => true,
        },
        always_connected_in(inputs) ==> match run(Driver::initial(options), inputs).phase {
            Phase::Engaging | Phase::Reconnecting | Phase::Confirming | Phase::Done(
                Err(Error::ConnectFailed),
            ) => false,
            _ => true,
        },
        no_services_in(inputs) ==> !(run(Driver::initial(options), inputs).phase matches Phase::Done(
            Ok(_),
        )),
        some_services_in(inputs) ==> run(Driver::initial(options), inputs).phase != Phase::Done(
            Err(Error::NoServicesFound),
        ),
    decreases inputs.len(),
{
    if inputs.len() > 0 {
        let head = inputs.drop_last();
        let last = inputs[inputs.len() - 1];
        lemma_reports_rule_out(options, head);
        lemma_run_wf(Driver::initial(options), head);
        assert forall|i: int| 0 <= i < head.len() implies #[trigger] head[i] == inputs[i] by {}
        if never_connected_in(inputs) {
            assert(never_connected_in(head));
        }
        if always_connected_in(inputs) {
            assert(always_connected_in(head));
        }
        if no_services_in(inputs) {
            assert(no_services_in(head));
        }
        if some_services_in(inputs) {
            assert(some_services_in(head));
        }
    }
}

/// A candidate that connects and lists services is returned: an attempt
/// that found a candidate, met no failure of the stack, had at least one
/// service in every count, and did not end for want of a connection, has,
/// once over, returned the candidate as the sensor, with at least one
/// service.
pub proof fn lemma_candidate_with_services_succeeds(options: Options, inputs: Seq<Input>)
    requires
        no_fault_in(inputs),
        some_services_in(inputs),
        run(Driver::initial(options), inputs).candidate is Some,
        run(Driver::initial(options), inputs).phase is Done,
        run(Driver::initial(options), inputs).phase != Phase::Done(Err(Error::ConnectFailed)),
    ensures
        run(Driver::initial(options), inputs).phase matches Phase::Done(Ok(s)) && s.services >= 1
            && Some(s.id) == run(Driver::initial(options), inputs).candidate,
{
    lemma_run_wf(Driver::initial(options), inputs);
    lemma_error_needs_cause(options, inputs);
    lemma_reports_rule_out(options, inputs);
}

/// A candidate that connects but lists no service fails the attempt: an
/// attempt that found a candidate, met no failure of the stack, found the
/// device connected at every query and no service in any count, has, once
/// over, failed with `NoServicesFound`.
pub proof fn lemma_candidate_without_services_fails(options: Options, inputs: Seq<Input>)
    requires
        no_fault_in(inputs),
        always_connected_in(inputs),
        no_services_in(inputs),
        run(Driver::initial(options), inputs).candidate is Some,
        run(Driver::initial(options), inputs).phase is Done,
    ensures
        run(Driver::initial(options), inputs).phase == Phase::Done(Err(Error::NoServicesFound)),
{
    lemma_run_wf(Driver::initial(options), inputs);
    lemma_error_needs_cause(options, inputs);
    lemma_reports_rule_out(options, inputs);
}

/// A candidate that never connects fails the attempt: an attempt that found
/// a candidate, met no failure of the stack, and found the device not
/// connected at every query, has, once over, failed with `ConnectFailed`.
pub proof fn lemma_candidate_never_connected_fails(options: Options, inputs: Seq<Input>)
    requires
        no_fault_in(inputs),
        never_connected_in(inputs),
        run(Driver::initial(options), inputs).candidate is Some,
        run(Driver::initial(options), inputs).phase is Done,
    ensures
        run(Driver::initial(options), inputs).phase == Phase::Done(Err(Error::ConnectFailed)),
{
    lemma_run_wf(Driver::initial(options), inputs);
    lemma_error_needs_cause(options, inputs);
    lemma_reports_rule_out(options, inputs);
}

/// Each outcome has one origin. A step that ends the attempt ends it
/// - with a sensor: when the services of the candidate were counted and
///   there is at least one;
/// - with `NoServicesFound`: when they were counted and there is none;
/// - with `ConnectFailed`: when the candidate was still not connected
///   after the connect attempt that followed the search;
/// - with `NoDeviceFound`: when the scan was stopped and no candidate was
///   set;
/// - with `NoMatchingAdaptor`: when the adapters were counted and the
///   configured position is not below their number;
/// - with a Bluetooth error: when the stack failed with that cause, at
///   anything but the fetching of a discovered device's properties.
pub proof fn lemma_outcome_origin(d: Driver, input: Input, outcome: Result<Sensor, Error>)
    requires
        d.wf(),
        !(d.phase is Done),
        d.next(input).phase == Phase::Done(outcome),
    ensures
        match outcome {
            Ok(s) => d.phase == Phase::Listing && input == Input::Services(s.services)
                && s.services >= 1 && d.candidate == Some(s.id),
            Err(Error::NoServicesFound) => d.phase == Phase::Listing && input == Input::Services(
                0,
            ),
            Err(Error::ConnectFailed) => d.phase == Phase::Confirming && input == Input::Connected(
                false,
            ),
            Err(Error::NoDeviceFound) => d.phase == Phase::StoppingScan && d.candidate is None
                && input == Input::Completed,
            Err(Error::NoMatchingAdaptor(i)) => d.phase == Phase::ListingAdapters && i
                == d.options.adaptor && input is Adapters && input->Adapters_0 <= i,
            Err(Error::Ble(cause)) => input == Input::Fault(cause) && !(d.phase
                is FetchingProperties),
        },
{
}

/// After the search, a candidate that is connected, at once or after the
/// one connect attempt, and that lists at least one service, is the sensor
/// returned, with that number of services.
pub proof fn lemma_success(d: Driver, id: PeripheralId, services: usize)
    requires
        d.phase == Phase::StoppingScan,
        d.candidate == Some(id),
        services >= 1,
    ensures
        d.next(Input::Completed).next(Input::Connected(true)).next(Input::Completed).next(
            Input::Services(services),
        ).phase == Phase::Done(Ok(Sensor { id, services })),
        d.next(Input::Completed).next(Input::Connected(false)).next(Input::Completed).next(
            Input::Connected(true),
        ).next(Input::Completed).next(Input::Services(services)).phase == Phase::Done(
            Ok(Sensor { id, services }),
        ),
{
}

/// After the search, a candidate that is connected but lists no service
/// makes the attempt fail with `NoServicesFound`.
pub proof fn lemma_no_services(d: Driver, id: PeripheralId)
    requires
        d.phase == Phase::StoppingScan,
        d.candidate == Some(id),
    ensures
        d.next(Input::Completed).next(Input::Connected(true)).next(Input::Completed).next(
            Input::Services(0),
        ).phase == Phase::Done(Err(Error::NoServicesFound)),
        d.next(Input::Completed).next(Input::Connected(false)).next(Input::Completed).next(
            Input::Connected(true),
        ).next(Input::Completed).next(Input::Services(0)).phase == Phase::Done(
            Err(Error::NoServicesFound),
        ),
{
}

/// After the search, a candidate that is not connected before the connect
/// attempt nor after it makes the attempt fail with `ConnectFailed`; the
/// driver asks to connect exactly once in between.
pub proof fn lemma_connect_failed(d: Driver, id: PeripheralId)
    requires
        d.phase == Phase::StoppingScan,
        d.candidate == Some(id),
    ensures
        d.next(Input::Completed).pending_action() == Action::QueryConnected(id),
        d.next(Input::Completed).next(Input::Connected(false)).pending_action()
            == Action::Connect(id),
        d.next(Input::Completed).next(Input::Connected(false)).next(
            Input::Completed,
        ).pending_action() == Action::QueryConnected(id),
        d.next(Input::Completed).next(Input::Connected(false)).next(Input::Completed).next(
            Input::Connected(false),
        ).phase == Phase::Done(Err(Error::ConnectFailed)),
{
}

/// A sensor that a run from the start returns is the candidate, and has at
/// least one service.
pub proof fn lemma_sensor_has_services(options: Options, inputs: Seq<Input>, sensor: Sensor)
    requires
        run(Driver::initial(options), inputs).phase == Phase::Done(Ok(sensor)),
    ensures
        sensor.services >= 1,
        run(Driver::initial(options), inputs).candidate == Some(sensor.id),
{
    lemma_run_wf(Driver::initial(options), inputs);
}

} // verus!
