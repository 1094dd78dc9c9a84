//! The order in which the work for an event is done.

use vstd::prelude::*;
use crate::apply::timer_interval;
use crate::command::{CommandView, OperationView, OutcomeView, StepView, SystemEvent};
use crate::controller::{add_steps, advance, next, ControllerView, Phase};
use crate::dispatch::{apply_script, reload_script, select_script, startup_script, tooltip_text};
use crate::engine::EngineStateView;
use crate::trace::{command_at, lemma_state_after_step, state_after, Input};
use crate::tray::menu_layout;

verus! {

/// Pending operations are performed one at a time, first come first served:
/// when the step in front is an operation and the one before it went well,
/// the answer is that operation, and the steps behind it stay as they are.
pub proof fn lemma_operations_in_order(
    state: ControllerView,
    engine: EngineStateView,
    operation: OperationView,
)
    requires
        state.phase != Phase::Terminated,
        state.pending.len() > 0,
        state.pending[0] == StepView::Perform(operation),
    ensures
        next(state, engine, OutcomeView::Done) == (
            ControllerView { phase: state.phase, pending: state.pending.drop_first() },
            CommandView::Perform(operation),
        ),
{
}

/// Choosing a plan saves before it applies. When the entry of a plan is
/// activated while nothing is pending, the next three operations are, in this
/// order: make that plan the active one, save the configuration, apply. Arming
/// the timer and building the menu are what is left after them.
pub proof fn lemma_select_saves_before_apply(
    state: ControllerView,
    engine: EngineStateView,
    index: u64,
    second: EngineStateView,
    third: EngineStateView,
)
    requires
        state.phase != Phase::Terminated,
        state.pending.len() == 0,
        index < engine.number_of_plans,
        index < engine.plan_names.len(),
    ensures
        ({
            let first = next(
                state,
                engine,
                OutcomeView::Event(SystemEvent::TrayActivation(index)),
            );
            let then = next(first.0, second, OutcomeView::Done);
            let last = next(then.0, third, OutcomeView::Done);
            &&& first.1 == CommandView::Perform(
                OperationView::SetActivePlan(engine.plan_names[index as int]),
            )
            &&& then.1 == CommandView::Perform(OperationView::SaveConfiguration)
            &&& last.1 == CommandView::Perform(OperationView::ApplyPlan)
            &&& last.0 == ControllerView {
                phase: state.phase,
                pending: seq![StepView::ArmTimer, StepView::RenderTray],
            }
        }),
{
    let name = engine.plan_names[index as int];
    let script = select_script(name);
    assert(state.pending + script =~= script);
    let first = next(state, engine, OutcomeView::Event(SystemEvent::TrayActivation(index)));
    assert(first.0.pending =~= script.drop_first());
    let then = next(first.0, second, OutcomeView::Done);
    assert(then.0.pending =~= script.drop_first().drop_first());
    let last = next(then.0, third, OutcomeView::Done);
    assert(last.0.pending =~= seq![StepView::ArmTimer, StepView::RenderTray]);
}

/// Reloading builds the menu before it applies. When "Reload configuration"
/// is activated while nothing is pending, the answer is to load the
/// configuration, and what is left is to build the menu, to apply and to arm
/// the timer, in this order.
pub proof fn lemma_reload_renders_before_apply(state: ControllerView, engine: EngineStateView)
    requires
        state.phase != Phase::Terminated,
        state.pending.len() == 0,
        engine.number_of_plans + 1 <= u64::MAX,
    ensures
        next(
            state,
            engine,
            OutcomeView::Event(
                SystemEvent::TrayActivation((engine.number_of_plans + 1) as u64),
            ),
        ) == (
            ControllerView {
                phase: state.phase,
                pending: seq![
                    StepView::RenderTray,
                    StepView::Perform(OperationView::ApplyPlan),
                    StepView::ArmTimer,
                ],
            },
            CommandView::Perform(OperationView::LoadConfiguration),
        ),
{
    assert(state.pending + reload_script() =~= reload_script());
    assert(reload_script().drop_first() =~= seq![
        StepView::RenderTray,
        StepView::Perform(OperationView::ApplyPlan),
        StepView::ArmTimer,
    ]);
}

/// The apply step arms the timer as the active plan asks. Once the engine
/// has applied, the answer is to arm the timer: for the interval of the plan
/// that is active by then, or for the default of 120 seconds where the plan
/// sets none. With no plan active no timer is armed, and the controller goes
/// on with what is pending behind the apply step.
pub proof fn lemma_apply_arms_timer(
    state: ControllerView,
    engine: EngineStateView,
    applied: EngineStateView,
)
    requires
        state.phase != Phase::Terminated,
        state.pending.len() >= 2,
        state.pending[0] == StepView::Perform(OperationView::ApplyPlan),
        state.pending[1] == StepView::ArmTimer,
    ensures
        ({
            let first = next(state, engine, OutcomeView::Done);
            let then = next(first.0, applied, OutcomeView::Done);
            let rest = state.pending.skip(2);
            &&& first.1 == CommandView::Perform(OperationView::ApplyPlan)
            &&& match applied.active_plan {
                Some(plan) => then == (
                    ControllerView { phase: state.phase, pending: rest },
                    CommandView::Perform(
                        OperationView::SetTimer {
                            seconds: match plan.update_interval_sec {
                                Some(seconds) => seconds as u64,
                                None => 120,
                            },
                        },
                    ),
                ),
                None => then == advance(state.phase, rest, applied),
            }
        }),
{
    let first = next(state, engine, OutcomeView::Done);
    assert(first.0.pending.drop_first() =~= state.pending.skip(2));
}

/// When the timer fires while nothing is pending, the plan is applied and
/// the timer armed again; then the controller waits for the next event. With
/// no plan active it waits without arming a timer.
pub proof fn lemma_timer_applies_again(
    state: ControllerView,
    engine: EngineStateView,
    applied: EngineStateView,
    armed: EngineStateView,
)
    requires
        state.phase != Phase::Terminated,
        state.pending.len() == 0,
    ensures
        ({
            let first = next(state, engine, OutcomeView::Event(SystemEvent::Timer));
            let then = next(first.0, applied, OutcomeView::Done);
            let last = next(then.0, armed, OutcomeView::Done);
            &&& first.1 == CommandView::Perform(OperationView::ApplyPlan)
            &&& match timer_interval(applied) {
                Some(seconds) => {
                    &&& then.1 == CommandView::Perform(OperationView::SetTimer { seconds })
                    &&& last.1 == CommandView::ReceiveEvent
                },
                None => then.1 == CommandView::ReceiveEvent,
            }
        }),
{
    assert(state.pending + apply_script() =~= apply_script());
    let first = next(state, engine, OutcomeView::Event(SystemEvent::Timer));
    assert(first.0.pending =~= seq![StepView::ArmTimer]);
    let nothing = first.0.pending.drop_first();
    assert(nothing =~= Seq::<StepView>::empty());
    assert(advance(first.0.phase, nothing, applied).1 == CommandView::ReceiveEvent);
    assert(advance(first.0.phase, nothing, armed).1 == CommandView::ReceiveEvent);
}

/// A run starts by loading the configuration, and what is left of startup is
/// to apply, to arm the timer, to build the menu and to set the tooltip, in
/// this order.
pub proof fn lemma_startup_loads_first(engine: EngineStateView)
    ensures
        next(ControllerView::initial(), engine, OutcomeView::Done) == (
            ControllerView {
                phase: Phase::Starting,
                pending: seq![
                    StepView::Perform(OperationView::ApplyPlan),
                    StepView::ArmTimer,
                    StepView::RenderTray,
                    StepView::Perform(OperationView::SetTooltip(tooltip_text())),
                ],
            },
            CommandView::Perform(OperationView::LoadConfiguration),
        ),
{
    assert(startup_script().drop_first() =~= seq![
        StepView::Perform(OperationView::ApplyPlan),
        StepView::ArmTimer,
        StepView::RenderTray,
        StepView::Perform(OperationView::SetTooltip(tooltip_text())),
    ]);
}

/// The state of a run that is building a menu, after `added` of the menu's
/// entries.
proof fn lemma_render_progress(start: ControllerView, inputs: Seq<Input>, added: int)
    requires
        start.phase != Phase::Terminated,
        start.pending.len() > 0,
        start.pending[0] == StepView::RenderTray,
        inputs.len() > 0,
        0 <= added <= menu_layout(inputs[0].engine).len(),
        added < inputs.len(),
        forall|i: int| 0 <= i < inputs.len() ==> (#[trigger] inputs[i]).outcome == OutcomeView::Done,
    ensures
        state_after(start, inputs.take(added + 1)) == (ControllerView {
            phase: start.phase,
            pending: add_steps(menu_layout(inputs[0].engine)).skip(added)
                + start.pending.drop_first(),
        }),
    decreases added,
{
    let layout = menu_layout(inputs[0].engine);
    let rest = start.pending.drop_first();
    if added == 0 {
        assert(inputs.take(0) =~= Seq::<Input>::empty());
        lemma_state_after_step(start, inputs, 0);
        assert(add_steps(layout).skip(0) =~= add_steps(layout));
    } else {
        lemma_render_progress(start, inputs, added - 1);
        lemma_state_after_step(start, inputs, added);
        let before = add_steps(layout).skip(added - 1) + rest;
        assert(before[0] == StepView::Perform(OperationView::TrayAdd(layout[added - 1])));
        assert(before.drop_first() =~= add_steps(layout).skip(added) + rest);
    }
}

/// Building the menu clears it and then adds the entries of the menu's
/// layout, one at a time and in the layout's order. The layout is that of
/// the engine as it was when the building began, and once its last entry is
/// added, the steps behind the building are what is pending.
pub proof fn lemma_render_adds_layout_in_order(
    start: ControllerView,
    inputs: Seq<Input>,
    position: int,
)
    requires
        start.phase != Phase::Terminated,
        start.pending.len() > 0,
        start.pending[0] == StepView::RenderTray,
        inputs.len() == menu_layout(inputs[0].engine).len() + 1,
        forall|i: int| 0 <= i < inputs.len() ==> (#[trigger] inputs[i]).outcome == OutcomeView::Done,
        0 <= position < menu_layout(inputs[0].engine).len(),
    ensures
        command_at(start, inputs, 0) == CommandView::Perform(OperationView::TrayClear),
        command_at(start, inputs, position + 1) == CommandView::Perform(
            OperationView::TrayAdd(menu_layout(inputs[0].engine)[position]),
        ),
        state_after(start, inputs) == (ControllerView {
            phase: start.phase,
            pending: start.pending.drop_first(),
        }),
{
    let layout = menu_layout(inputs[0].engine);
    let rest = start.pending.drop_first();
    assert(inputs.take(0) =~= Seq::<Input>::empty());
    lemma_render_progress(start, inputs, position);
    let before = add_steps(layout).skip(position) + rest;
    assert(before[0] == StepView::Perform(OperationView::TrayAdd(layout[position])));
    lemma_render_progress(start, inputs, layout.len() as int);
    assert(inputs.take(inputs.len() as int) =~= inputs);
    assert(add_steps(layout).skip(layout.len() as int) + rest =~= rest);
}

} // verus!
