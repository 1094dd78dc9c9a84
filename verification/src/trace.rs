//! Runs of the controller, and what holds of every run.
//!
//! A run is the controller's answer to a sequence of inputs, one input for
//! each step: the engine as the driver saw it, and the outcome it reported.
//! Nothing is assumed of the inputs, so what is proved here holds whatever
//! the engine and the operating system do.

use vstd::prelude::*;
use crate::command::{CommandView, OutcomeView, StepView, SystemEvent};
use crate::controller::{advance, error_title, next, ControllerView, Phase};
use crate::dispatch::event_script;
use crate::engine::EngineStateView;

verus! {

/// What the driver hands to one step.
pub struct Input {
    pub engine: EngineStateView,
    pub outcome: OutcomeView,
}

/// The state that `inputs` leave a controller in that started in `start`.
pub open spec fn state_after(start: ControllerView, inputs: Seq<Input>) -> ControllerView
    decreases inputs.len(),
{
    if inputs.len() == 0 {
        start
    } else {
        next(state_after(start, inputs.drop_last()), inputs.last().engine, inputs.last().outcome).0
    }
}

/// The command with which the controller answers input `i` of a run.
pub open spec fn command_at(start: ControllerView, inputs: Seq<Input>, i: int) -> CommandView
    recommends
        0 <= i < inputs.len(),
{
    next(state_after(start, inputs.take(i)), inputs[i].engine, inputs[i].outcome).1
}

/// How far a phase is along the way from `Starting` to `Terminated`.
pub open spec fn progress(phase: Phase) -> nat {
    match phase {
        Phase::Starting => 0,
        Phase::Running => 1,
        Phase::Terminated => 2,
    }
}

/// Taking a pending step keeps a run going: it shows no dialog, does not end
/// the run, and does not move the phase back.
pub proof fn lemma_advance_keeps_going(
    phase: Phase,
    pending: Seq<StepView>,
    engine: EngineStateView,
)
    requires
        phase != Phase::Terminated,
    ensures
        advance(phase, pending, engine).1 is Perform || advance(phase, pending, engine).1
            == CommandView::ReceiveEvent,
        advance(phase, pending, engine).0.phase != Phase::Terminated,
        progress(advance(phase, pending, engine).0.phase) >= progress(phase),
    decreases pending.len(),
{
    if pending.len() > 0 {
        lemma_advance_keeps_going(phase, pending.drop_first(), engine);
    }
}

/// Taking a pending step comes to waiting only when no step is left.
proof fn lemma_advance_waits_when_done(
    phase: Phase,
    pending: Seq<StepView>,
    engine: EngineStateView,
)
    ensures
        advance(phase, pending, engine).1 == CommandView::ReceiveEvent ==> advance(
            phase,
            pending,
            engine,
        ).0 == ControllerView::idle(),
    decreases pending.len(),
{
    if pending.len() > 0 {
        lemma_advance_waits_when_done(phase, pending.drop_first(), engine);
    } else {
        assert(pending =~= Seq::<StepView>::empty());
    }
}

/// The controller waits for an event only when it is idle: whenever its
/// answer is to receive an event, startup is over and no step is pending. So
/// the work for one event is done before the next event is taken up.
pub proof fn lemma_waits_only_when_idle(
    state: ControllerView,
    engine: EngineStateView,
    outcome: OutcomeView,
)
    ensures
        next(state, engine, outcome).1 == CommandView::ReceiveEvent ==> next(
            state,
            engine,
            outcome,
        ).0 == ControllerView::idle(),
{
    lemma_advance_waits_when_done(state.phase, state.pending, engine);
    if let OutcomeView::Event(event) = outcome {
        if let Ok(script) = event_script(engine, event) {
            lemma_advance_waits_when_done(state.phase, state.pending + script, engine);
        }
    }
}

/// An event that the controller asked for is served from the steps it calls
/// for, and from nothing else: the first answer is the first of these steps.
pub proof fn lemma_event_is_served_at_once(
    state: ControllerView,
    asked: Input,
    engine: EngineStateView,
    event: SystemEvent,
)
    requires
        next(state, asked.engine, asked.outcome).1 == CommandView::ReceiveEvent,
        event_script(engine, event) is Ok,
    ensures
        next(next(state, asked.engine, asked.outcome).0, engine, OutcomeView::Event(event))
            == advance(Phase::Running, event_script(engine, event)->Ok_0, engine),
{
    lemma_waits_only_when_idle(state, asked.engine, asked.outcome);
    let script = event_script(engine, event)->Ok_0;
    assert(Seq::<StepView>::empty() + script =~= script);
}

/// A run moves from `Starting` to `Running` to `Terminated` and never back.
pub proof fn lemma_phase_never_moves_back(
    state: ControllerView,
    engine: EngineStateView,
    outcome: OutcomeView,
)
    ensures
        progress(next(state, engine, outcome).0.phase) >= progress(state.phase),
{
    if state.phase != Phase::Terminated {
        lemma_advance_keeps_going(state.phase, state.pending, engine);
        if let OutcomeView::Event(event) = outcome {
            if let Ok(script) = event_script(engine, event) {
                lemma_advance_keeps_going(state.phase, state.pending + script, engine);
            }
        }
    }
}

/// A run ends with its last answer: the controller leaves a run that is not
/// over exactly when it answers with a dialog or with `Exit`.
pub proof fn lemma_run_ends_with_its_answer(
    state: ControllerView,
    engine: EngineStateView,
    outcome: OutcomeView,
)
    requires
        state.phase != Phase::Terminated,
    ensures
        next(state, engine, outcome).0.phase == Phase::Terminated <==> (next(
            state,
            engine,
            outcome,
        ).1 is ShowError || next(state, engine, outcome).1 == CommandView::Exit),
        next(state, engine, outcome).0.phase == Phase::Terminated ==> next(
            state,
            engine,
            outcome,
        ).0 == ControllerView::terminated(),
{
    lemma_advance_keeps_going(state.phase, state.pending, engine);
    if let OutcomeView::Event(event) = outcome {
        if let Ok(script) = event_script(engine, event) {
            lemma_advance_keeps_going(state.phase, state.pending + script, engine);
        }
    }
}

/// The state after the first `i + 1` inputs is the transition from the state
/// after the first `i`.
pub proof fn lemma_state_after_step(start: ControllerView, inputs: Seq<Input>, i: int)
    requires
        0 <= i < inputs.len(),
    ensures
        state_after(start, inputs.take(i + 1)) == next(
            state_after(start, inputs.take(i)),
            inputs[i].engine,
            inputs[i].outcome,
        ).0,
{
    let upto = inputs.take(i + 1);
    assert(upto.drop_last() =~= inputs.take(i));
    assert(upto.last() == inputs[i]);
}

/// Once a run is over, it stays over.
proof fn lemma_stays_terminated(start: ControllerView, inputs: Seq<Input>, k: int, j: int)
    requires
        0 <= k <= j <= inputs.len(),
        state_after(start, inputs.take(k)).phase == Phase::Terminated,
    ensures
        state_after(start, inputs.take(j)).phase == Phase::Terminated,
    decreases j - k,
{
    if k < j {
        lemma_stays_terminated(start, inputs, k, j - 1);
        lemma_state_after_step(start, inputs, j - 1);
    }
}

/// A run that is over answers every input with `Exit`: it asks for nothing
/// more, whatever it is told.
pub proof fn lemma_terminated_is_final(start: ControllerView, inputs: Seq<Input>, i: int)
    requires
        start.phase == Phase::Terminated,
        0 <= i < inputs.len(),
    ensures
        command_at(start, inputs, i) == CommandView::Exit,
        state_after(start, inputs).phase == Phase::Terminated,
{
    assert(inputs.take(0) =~= Seq::<Input>::empty());
    assert(inputs.take(inputs.len() as int) =~= inputs);
    lemma_stays_terminated(start, inputs, 0, i);
    lemma_stays_terminated(start, inputs, 0, inputs.len() as int);
}

/// When the event source shuts down, the run ends in success and at once.
/// The answer to the shutdown is `Exit`, and so is every answer after it: no
/// dialog is shown, and neither the engine, the tray nor the timer is touched
/// again.
pub proof fn lemma_shutdown_ends_run(start: ControllerView, inputs: Seq<Input>, k: int, j: int)
    requires
        0 <= k <= j < inputs.len(),
        inputs[k].outcome == OutcomeView::Shutdown,
    ensures
        state_after(start, inputs.take(k + 1)) == ControllerView::terminated(),
        command_at(start, inputs, j) == CommandView::Exit,
{
    lemma_state_after_step(start, inputs, k);
    if k < j {
        lemma_stays_terminated(start, inputs, k + 1, j);
    }
}

/// After a dialog the run is over: every later answer is `Exit`. So a run
/// shows at most one dialog, and tries nothing again after it.
pub proof fn lemma_dialog_ends_run(start: ControllerView, inputs: Seq<Input>, i: int, j: int)
    requires
        0 <= i < j < inputs.len(),
        command_at(start, inputs, i) is ShowError,
    ensures
        state_after(start, inputs.take(i + 1)) == ControllerView::terminated(),
        command_at(start, inputs, j) == CommandView::Exit,
{
    let state = state_after(start, inputs.take(i));
    lemma_state_after_step(start, inputs, i);
    lemma_run_ends_with_its_answer(state, inputs[i].engine, inputs[i].outcome);
    lemma_stays_terminated(start, inputs, i + 1, j);
}

/// A failure is reported once, and the run ends with it. When an operation
/// fails while the run is not over, the answer is the dialog that carries the
/// failure's description. No dialog was shown before it, and every answer
/// after it is `Exit`: nothing is tried again.
pub proof fn lemma_failure_is_reported_once(
    start: ControllerView,
    inputs: Seq<Input>,
    k: int,
    message: Seq<char>,
)
    requires
        0 <= k < inputs.len(),
        inputs[k].outcome == OutcomeView::Failed(message),
        state_after(start, inputs.take(k)).phase != Phase::Terminated,
    ensures
        command_at(start, inputs, k) == (CommandView::ShowError { title: error_title(), message }),
        state_after(start, inputs.take(k + 1)) == ControllerView::terminated(),
        forall|i: int| 0 <= i < k ==> !(#[trigger] command_at(start, inputs, i) is ShowError),
        forall|j: int|
            k < j < inputs.len() ==> #[trigger] command_at(start, inputs, j) == CommandView::Exit,
{
    lemma_state_after_step(start, inputs, k);
    assert forall|i: int| 0 <= i < k implies !(#[trigger] command_at(start, inputs, i)
        is ShowError) by {
        if command_at(start, inputs, i) is ShowError {
            lemma_dialog_ends_run(start, inputs, i, k);
            lemma_stays_terminated(start, inputs, i + 1, k);
        }
    }
    assert forall|j: int| k < j < inputs.len() implies #[trigger] command_at(start, inputs, j)
        == CommandView::Exit by {
        lemma_stays_terminated(start, inputs, k + 1, j);
    }
}

/// An event that cannot be served is reported like a failure: the answer is
/// the dialog that carries the error's text, and the run is over.
pub proof fn lemma_unserved_event_is_reported(
    state: ControllerView,
    engine: EngineStateView,
    event: SystemEvent,
)
    requires
        state.phase != Phase::Terminated,
        event_script(engine, event) is Err,
    ensures
        next(state, engine, OutcomeView::Event(event)) == (
            ControllerView::terminated(),
            CommandView::ShowError {
                title: error_title(),
                message: event_script(engine, event)->Err_0.message_text(),
            },
        ),
{
}

} // verus!
