//! The menu that a run leaves on screen.
//!
//! The codec gives a position its meaning from the number of plans alone, so
//! it is right only while the menu on screen is the one that belongs to the
//! engine. This module follows the menu through a run and proves that it is
//! whole and up to date whenever the controller waits for an event.

use vstd::prelude::*;
use crate::apply::timer_interval;
use crate::command::{CommandView, OperationView, OutcomeView, StepView, SystemEvent};
use crate::controller::{add_steps, advance, next, ControllerView, Phase};
use crate::dispatch::{event_script, reload_script, select_script, startup_script, tray_script};
use crate::error::ProtocolError;
use crate::engine::EngineStateView;
use crate::trace::{command_at, lemma_waits_only_when_idle, state_after, Input};
use crate::tray::{menu_layout, plain_entry, MenuItemView};

verus! {

/// The tray menu, as the commands of a run leave it.
pub struct TrayView {
    /// The entries on screen, in their order.
    pub shown: Seq<MenuItemView>,
    /// The engine as it was when the menu was last cleared to be built again;
    /// `None` while no menu was built.
    pub basis: Option<EngineStateView>,
    /// The engine was told to load its configuration or to change its active
    /// plan after the menu was last built, or no menu was built yet.
    pub stale: bool,
}

impl TrayView {
    /// The tray before a run: nothing on screen.
    pub open spec fn initial() -> TrayView {
        TrayView { shown: Seq::empty(), basis: None, stale: true }
    }

    /// The menu on screen is the whole menu of the engine as it was when the
    /// menu was built, and the engine was not told to change since.
    pub open spec fn is_whole(self) -> bool {
        &&& !self.stale
        &&& self.basis matches Some(engine) && self.shown == menu_layout(engine)
    }
}

/// What a command does to the tray. `engine` is the engine as it was when the
/// command was given.
pub open spec fn tray_after_command(
    tray: TrayView,
    engine: EngineStateView,
    command: CommandView,
) -> TrayView {
    match command {
        CommandView::Perform(OperationView::TrayClear) => TrayView {
            shown: Seq::empty(),
            basis: Some(engine),
            stale: false,
        },
        CommandView::Perform(OperationView::TrayAdd(item)) => TrayView {
            shown: tray.shown.push(item),
            ..tray
        },
        CommandView::Perform(OperationView::LoadConfiguration) => TrayView { stale: true, ..tray },
        CommandView::Perform(OperationView::SetActivePlan(_)) => TrayView { stale: true, ..tray },
        _ => tray,
    }
}

/// The tray after the commands with which a controller answers `inputs`,
/// where the tray was empty before.
pub open spec fn tray_after(start: ControllerView, inputs: Seq<Input>) -> TrayView
    decreases inputs.len(),
{
    if inputs.len() == 0 {
        TrayView::initial()
    } else {
        let before = inputs.drop_last();
        tray_after_command(
            tray_after(start, before),
            inputs.last().engine,
            next(state_after(start, before), inputs.last().engine, inputs.last().outcome).1,
        )
    }
}

/// The step touches the tray menu directly.
spec fn is_tray_step(step: StepView) -> bool {
    step matches StepView::Perform(operation) && (operation == OperationView::TrayClear
        || operation is TrayAdd)
}

/// None of the steps touches the tray menu directly.
spec fn leaves_tray_alone(steps: Seq<StepView>) -> bool {
    forall|i: int| 0 <= i < steps.len() ==> !is_tray_step(#[trigger] steps[i])
}

/// Whether the menu is out of date once `steps` are taken, where `stale`
/// says whether it is now.
spec fn stale_after(steps: Seq<StepView>, stale: bool) -> bool
    decreases steps.len(),
{
    if steps.len() == 0 {
        stale
    } else {
        stale_after(
            steps.drop_first(),
            match steps[0] {
                StepView::Perform(OperationView::LoadConfiguration) => true,
                StepView::Perform(OperationView::SetActivePlan(_)) => true,
                StepView::RenderTray => false,
                _ => stale,
            },
        )
    }
}

/// What holds of a controller and the tray throughout a run. The entries on
/// screen are the first of the menu being built, the steps that add the
/// others are pending in front, what is pending behind them leaves the tray
/// alone but for building the menu anew, and that happens before the
/// pending steps run out wherever the menu is or gets out of date.
spec fn in_step(state: ControllerView, tray: TrayView) -> bool {
    state.phase == Phase::Terminated || {
        let menu = match tray.basis {
            Some(engine) => menu_layout(engine),
            None => Seq::empty(),
        };
        let left = menu.len() - tray.shown.len();
        &&& tray.basis is None ==> tray.stale
        &&& 0 <= left <= state.pending.len()
        &&& tray.shown == menu.take(tray.shown.len() as int)
        &&& state.pending.take(left) == add_steps(menu).skip(tray.shown.len() as int)
        &&& leaves_tray_alone(state.pending.skip(left))
        &&& !stale_after(state.pending.skip(left), tray.stale)
    }
}

/// Steps taken one after the other make the menu out of date as they do
/// taken together.
proof fn lemma_stale_after_both(first: Seq<StepView>, second: Seq<StepView>, stale: bool)
    ensures
        stale_after(first + second, stale) == stale_after(second, stale_after(first, stale)),
    decreases first.len(),
{
    if first.len() == 0 {
        assert(first + second =~= second);
    } else {
        let flag = match first[0] {
            StepView::Perform(OperationView::LoadConfiguration) => true,
            StepView::Perform(OperationView::SetActivePlan(_)) => true,
            StepView::RenderTray => false,
            _ => stale,
        };
        assert((first + second).drop_first() =~= first.drop_first() + second);
        lemma_stale_after_both(first.drop_first(), second, flag);
    }
}

/// The work that an event calls for leaves the tray alone but for building
/// the menu anew, and leaves an up-to-date menu up to date.
proof fn lemma_event_script_settles(engine: EngineStateView, event: SystemEvent)
    requires
        event_script(engine, event) is Ok,
    ensures
        leaves_tray_alone(event_script(engine, event)->Ok_0),
        !stale_after(event_script(engine, event)->Ok_0, false),
{
    reveal_with_fuel(stale_after, 6);
}

/// The startup work builds the menu.
proof fn lemma_startup_script_settles()
    ensures
        leaves_tray_alone(startup_script()),
        !stale_after(startup_script(), true),
{
    reveal_with_fuel(stale_after, 6);
}

/// Taking a pending step keeps controller and tray in step.
proof fn lemma_advance_in_step(
    phase: Phase,
    pending: Seq<StepView>,
    engine: EngineStateView,
    tray: TrayView,
)
    requires
        phase != Phase::Terminated,
        in_step(ControllerView { phase, pending }, tray),
    ensures
        in_step(
            advance(phase, pending, engine).0,
            tray_after_command(tray, engine, advance(phase, pending, engine).1),
        ),
    decreases pending.len(),
{
    let menu = match tray.basis {
        Some(engine) => menu_layout(engine),
        None => Seq::empty(),
    };
    let shown = tray.shown.len() as int;
    let left = menu.len() - shown;
    let after = advance(phase, pending, engine);
    let tray_then = tray_after_command(tray, engine, after.1);
    if pending.len() == 0 {
        assert(after.0.pending.take(left) =~= pending.take(left));
        assert(after.0.pending.skip(left) =~= pending.skip(left));
    } else if left > 0 {
        let rest = pending.drop_first();
        assert(pending[0] == pending.take(left)[0]);
        assert(pending[0] == StepView::Perform(OperationView::TrayAdd(menu[shown])));
        assert(tray_then.shown =~= menu.take(shown + 1));
        let ahead = rest.take(left - 1);
        assert(ahead =~= add_steps(menu).skip(shown + 1)) by {
            assert forall|i: int| 0 <= i < left - 1 implies #[trigger] ahead[i] == add_steps(
                menu,
            ).skip(shown + 1)[i] by {
                assert(ahead[i] == pending.take(left)[i + 1]);
            }
        }
        assert(rest.skip(left - 1) =~= pending.skip(left));
    } else {
        let rest = pending.drop_first();
        assert(pending.skip(0) =~= pending);
        assert(!is_tray_step(pending[0]));
        assert(leaves_tray_alone(rest)) by {
            assert forall|i: int| 0 <= i < rest.len() implies !is_tray_step(#[trigger] rest[i]) by {
                assert(rest[i] == pending[i + 1]);
            }
        }
        match pending[0] {
            StepView::Perform(operation) => {
                assert(after.0.pending.skip(0) =~= rest);
                assert(after.0.pending.take(0) =~= add_steps(menu).skip(shown));
            },
            StepView::ArmTimer => {
                assert(rest.skip(0) =~= rest);
                assert(rest.take(0) =~= add_steps(menu).skip(shown));
                if timer_interval(engine) is None {
                    lemma_advance_in_step(phase, rest, engine, tray);
                }
            },
            StepView::RenderTray => {
                let built = menu_layout(engine);
                let adds = add_steps(built);
                assert(after.0.pending == adds + rest);
                assert(tray_then.shown.len() == 0);
                assert(tray_then.shown =~= built.take(0));
                assert((adds + rest).take(built.len() as int) =~= adds.skip(0));
                assert((adds + rest).skip(built.len() as int) =~= rest);
            },
        }
    }
}

/// One step of the controller keeps controller and tray in step.
proof fn lemma_next_in_step(
    state: ControllerView,
    engine: EngineStateView,
    outcome: OutcomeView,
    tray: TrayView,
)
    requires
        in_step(state, tray),
    ensures
        in_step(
            next(state, engine, outcome).0,
            tray_after_command(tray, engine, next(state, engine, outcome).1),
        ),
{
    if state.phase != Phase::Terminated {
        match outcome {
            OutcomeView::Done => {
                lemma_advance_in_step(state.phase, state.pending, engine, tray);
            },
            OutcomeView::Event(event) => {
                if let Ok(script) = event_script(engine, event) {
                    let menu = match tray.basis {
                        Some(engine) => menu_layout(engine),
                        None => Seq::empty(),
                    };
                    let left = menu.len() - tray.shown.len();
                    let tail = state.pending.skip(left);
                    let longer = state.pending + script;
                    lemma_event_script_settles(engine, event);
                    lemma_stale_after_both(tail, script, tray.stale);
                    assert(longer.take(left) =~= state.pending.take(left));
                    assert(longer.skip(left) =~= tail + script);
                    assert(leaves_tray_alone(tail + script)) by {
                        assert forall|i: int| 0 <= i < (tail + script).len() implies !is_tray_step(
                            #[trigger] (tail + script)[i],
                        ) by {
                            if i < tail.len() {
                                assert((tail + script)[i] == tail[i]);
                            } else {
                                assert((tail + script)[i] == script[i - tail.len()]);
                            }
                        }
                    }
                    lemma_advance_in_step(state.phase, longer, engine, tray);
                }
            },
            _ => {},
        }
    }
}

/// A run from the start keeps controller and tray in step.
proof fn lemma_run_in_step(inputs: Seq<Input>)
    ensures
        in_step(
            state_after(ControllerView::initial(), inputs),
            tray_after(ControllerView::initial(), inputs),
        ),
    decreases inputs.len(),
{
    let start = ControllerView::initial();
    if inputs.len() == 0 {
        lemma_startup_script_settles();
        assert(start.pending.take(0) =~= add_steps(Seq::<MenuItemView>::empty()).skip(0));
        assert(start.pending.skip(0) =~= start.pending);
        assert(TrayView::initial().shown =~= Seq::<MenuItemView>::empty().take(0));
    } else {
        let before = inputs.drop_last();
        lemma_run_in_step(before);
        lemma_next_in_step(
            state_after(start, before),
            inputs.last().engine,
            inputs.last().outcome,
            tray_after(start, before),
        );
    }
}

/// Whenever the controller waits for an event, the menu on screen is whole
/// and up to date. It holds every entry of the menu of the engine as it was
/// when the menu was last built, in the menu's order and nothing else, and
/// since then the engine was told neither to load its configuration nor to
/// change its active plan. This holds in every run from the start, whatever
/// the engine and the operating system report.
pub proof fn lemma_menu_is_whole_when_waiting(inputs: Seq<Input>)
    requires
        inputs.len() > 0,
        command_at(ControllerView::initial(), inputs, inputs.len() - 1)
            == CommandView::ReceiveEvent,
    ensures
        tray_after(ControllerView::initial(), inputs).is_whole(),
{
    let start = ControllerView::initial();
    let before = inputs.drop_last();
    assert(inputs.take(inputs.len() - 1) =~= before);
    lemma_run_in_step(inputs);
    lemma_waits_only_when_idle(state_after(start, before), inputs.last().engine, inputs.last().outcome);
    let state = state_after(start, inputs);
    let tray = tray_after(start, inputs);
    assert(state == ControllerView::idle());
    let menu = match tray.basis {
        Some(engine) => menu_layout(engine),
        None => Seq::empty(),
    };
    assert(state.pending.skip(0) =~= state.pending);
    assert(menu.take(menu.len() as int) =~= menu);
}

/// An activation is served as the entry says. In the menu of an engine
/// whose count is the length of its list, activating the entry of a plan
/// selects the plan whose name the entry shows, activating one of the three
/// actions calls for that action, and the separator is refused.
pub proof fn lemma_activation_serves_entry(engine: EngineStateView, index: u64)
    requires
        engine.number_of_plans == engine.plan_names.len(),
        index < menu_layout(engine).len(),
    ensures
        match menu_layout(engine)[index as int] {
            MenuItemView::Separator => tray_script(engine, index) == Err::<
                Seq<StepView>,
                ProtocolError,
            >(ProtocolError::UnknownOffset(0)),
            MenuItemView::Text { text, state } => if index < engine.number_of_plans {
                tray_script(engine, index) == Ok::<Seq<StepView>, ProtocolError>(
                    select_script(text),
                )
            } else if index == engine.number_of_plans + 1 {
                &&& text == "Reload configuration"@
                &&& tray_script(engine, index) == Ok::<Seq<StepView>, ProtocolError>(
                    reload_script(),
                )
            } else if index == engine.number_of_plans + 2 {
                &&& text == "Edit configuration"@
                &&& tray_script(engine, index) == Ok::<Seq<StepView>, ProtocolError>(
                    seq![StepView::Perform(OperationView::EditConfiguration)],
                )
            } else {
                &&& index == engine.number_of_plans + 3
                &&& text == "Quit application"@
                &&& tray_script(engine, index) == Ok::<Seq<StepView>, ProtocolError>(
                    seq![StepView::Perform(OperationView::Quit)],
                )
            },
        },
{
}

} // verus!
