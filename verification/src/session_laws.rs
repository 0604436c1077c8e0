//! What holds of every session, proved of the driver's model.

use vstd::prelude::*;

use crate::app::{AppModel, Message};
use crate::config::Config;
use crate::cycle::{waiter_for, CycleResult};
use crate::signal::TimerSignal;
use crate::timer::{none_aborted, DriverInput, DriverModel, DriverState};

verus! {

/// While cycles complete or are skipped, a running session keeps running
/// with the configuration it was started with, and its stance changes with
/// every cycle.
pub proof fn lemma_cycles_alternate(session: DriverModel, results: Seq<CycleResult>)
    requires
        session.running(),
        none_aborted(results),
    ensures
        session.after_cycles(results).running(),
        session.after_cycles(results).config == session.config,
        session.after_cycles(results).current_stance == session.current_stance.after(
            results.len(),
        ),
    decreases results.len(),
{
    if results.len() > 0 {
        lemma_cycles_alternate(session, results.drop_last());
    }
}

/// Alternation: after `k` cycles that completed or were skipped, a session
/// that started in stance `S` is in `S` if `k` is even and in the other
/// stance if `k` is odd.
pub proof fn lemma_stance_alternates(
    before: DriverModel,
    config: Config,
    results: Seq<CycleResult>,
)
    requires
        before.can_start(config),
        none_aborted(results),
    ensures
        before.start(config).after_cycles(results).running(),
        before.start(config).after_cycles(results).current_stance == config.start_stance.after(
            results.len(),
        ),
{
    lemma_cycles_alternate(before.start(config), results);
}

/// An abort resets the stance: however many cycles ran before it, the
/// stopped session shows the stance that it started in.
pub proof fn lemma_abort_restores_start_stance(
    before: DriverModel,
    config: Config,
    results: Seq<CycleResult>,
)
    requires
        before.can_start(config),
        none_aborted(results),
    ensures
        ({
            let stopped = before.start(config).after_cycles(results).cycle_finished(
                CycleResult::Aborted,
            );
            &&& stopped.state == DriverState::Stopped
            &&& stopped.current_stance == config.start_stance
            &&& before.start(config).after_cycles(results).next_cycle(CycleResult::Aborted) is None
        }),
{
    lemma_cycles_alternate(before.start(config), results);
}

/// A skip is consumed: when the next cycle is handed out after a skipped
/// one, the signal register reads `Run` and wakes no waiter.
pub proof fn lemma_skip_is_consumed(session: DriverModel)
    requires
        session.running(),
    ensures
        session.next_cycle(CycleResult::Skipped) is Some,
        session.cycle_finished(CycleResult::Skipped).signal == TimerSignal::Run,
        waiter_for(session.cycle_finished(CycleResult::Skipped).signal) is None,
{
}

/// Aborting is idempotent: a second request changes nothing, and neither
/// does one made while no session runs.
pub proof fn lemma_abort_is_idempotent(driver: DriverModel)
    ensures
        driver.request_abort().request_abort() == driver.request_abort(),
        !driver.running() ==> driver.request_abort() == driver,
        driver.request_abort().state == driver.state,
{
}

/// Along any inputs, the cycles handed out and the results taken keep step
/// with the number of cycles under way.
pub proof fn lemma_cycles_in_flight(driver: DriverModel, inputs: Seq<DriverInput>)
    ensures
        driver.cycles_in_flight() + driver.cycles_handed_out(inputs) == driver.apply_all(
            inputs,
        ).cycles_in_flight() + driver.results_taken(inputs),
    decreases inputs.len(),
{
    if inputs.len() > 0 {
        lemma_cycles_in_flight(driver, inputs.drop_last());
    }
}

/// No overlap: whatever happens to a driver, the cycles it has handed out
/// are at most one more than the results it has taken back, so no two
/// cycles of a session are ever under way together.
pub proof fn lemma_one_cycle_at_a_time(inputs: Seq<DriverInput>)
    ensures
        ({
            let driver = DriverModel::idle();
            let under_way = driver.cycles_handed_out(inputs) - driver.results_taken(inputs);
            &&& 0 <= under_way <= 1
            &&& under_way == 1 <==> driver.apply_all(inputs).running()
        }),
{
    lemma_cycles_in_flight(DriverModel::idle(), inputs);
}

/// Every cycle of a running session lasts at least a minute, and its
/// notification is shown for at least a second.
pub proof fn lemma_cycles_take_time(session: DriverModel, is_initial: bool)
    requires
        session.wf(),
        session.running(),
    ensures
        session.request(is_initial).duration > 0,
        session.request(is_initial).seconds() >= 60,
        session.request(is_initial).toast_duration > 0,
{
}

/// The application passes each message on to the driver as one input or as
/// none, and asks for a cycle to be run exactly when the driver hands one
/// out. What holds of the driver along all inputs so holds of the
/// application along all messages; and editing the configuration leaves a
/// running session as it is.
pub proof fn lemma_app_follows_driver(app: AppModel, message: Message)
    ensures
        app.update(message).driver == match app.driver_input(message) {
            Some(input) => app.driver.apply(input),
            None => app.driver,
        },
        app.command(message) is RunCycle <==> (app.driver_input(message) matches Some(input)
            && app.driver.hands_out_cycle(input)),
        app.driver.running() && !(message is StopTimer || message is SwitchStance
            || message is TimerCycleFinished) ==> app.update(message).driver == app.driver,
{
}

} // verus!
