//! What each event calls for: the steps to take, in order.

use vstd::prelude::*;
use vstd::string::*;
use crate::codec::{classify, decode, MenuAction};
use crate::command::{Operation, OperationView, Step, StepView, SystemEvent};
use crate::engine::{EngineState, EngineStateView};
use crate::error::ProtocolError;

verus! {

/// The text shown when the pointer rests on the tray icon.
pub open spec fn tooltip_text() -> Seq<char> {
    "Control fan curve and power profile for Asus Zephyrus ROG G14."@
}

/// The apply step: push the active plan into effect, then arm the timer.
pub open spec fn apply_script() -> Seq<StepView> {
    seq![StepView::Perform(OperationView::ApplyPlan), StepView::ArmTimer]
}

/// The work at startup: load the configuration, apply, build the tray menu,
/// set the tooltip.
pub open spec fn startup_script() -> Seq<StepView> {
    seq![StepView::Perform(OperationView::LoadConfiguration)] + apply_script() + seq![
        StepView::RenderTray,
        StepView::Perform(OperationView::SetTooltip(tooltip_text())),
    ]
}

/// The work after a plan was chosen: make it the active plan, save the
/// configuration, apply, build the tray menu again.
pub open spec fn select_script(name: Seq<char>) -> Seq<StepView> {
    seq![
        StepView::Perform(OperationView::SetActivePlan(name)),
        StepView::Perform(OperationView::SaveConfiguration),
    ] + apply_script() + seq![StepView::RenderTray]
}

/// The work after "Reload configuration": load the configuration, build the
/// tray menu again, apply.
pub open spec fn reload_script() -> Seq<StepView> {
    seq![StepView::Perform(OperationView::LoadConfiguration), StepView::RenderTray]
        + apply_script()
}

/// The work that the activation of menu position `index` calls for, or the
/// reason why the position cannot be served.
pub open spec fn tray_script(engine: EngineStateView, index: u64) -> Result<
    Seq<StepView>,
    ProtocolError,
> {
    match classify(engine.number_of_plans, index) {
        Ok(MenuAction::SelectPlan(i)) => if i < engine.plan_names.len() {
            Ok(select_script(engine.plan_names[i as int]))
        } else {
            Err(ProtocolError::PlanNotFound(index))
        },
        Ok(MenuAction::Separator) => Err(ProtocolError::UnknownOffset(0)),
        Ok(MenuAction::ReloadConfiguration) => Ok(reload_script()),
        Ok(MenuAction::EditConfiguration) => Ok(
            seq![StepView::Perform(OperationView::EditConfiguration)],
        ),
        Ok(MenuAction::QuitApplication) => Ok(seq![StepView::Perform(OperationView::Quit)]),
        Err(error) => Err(error),
    }
}

/// The work that an event calls for.
pub open spec fn event_script(engine: EngineStateView, event: SystemEvent) -> Result<
    Seq<StepView>,
    ProtocolError,
> {
    match event {
        SystemEvent::Timer => Ok(apply_script()),
        SystemEvent::TrayActivation(index) => tray_script(engine, index),
    }
}

/// Appends the apply step to `steps`.
fn push_apply(steps: &mut Vec<Step>)
    ensures
        final(steps).deep_view() == old(steps).deep_view() + apply_script(),
{
    let ghost before = steps.deep_view();
    steps.push(Step::Perform(Operation::ApplyPlan));
    steps.push(Step::ArmTimer);
    assert(steps.deep_view() =~= before + apply_script());
}

/// The steps of the apply step.
pub fn apply() -> (steps: Vec<Step>)
    ensures
        steps.deep_view() == apply_script(),
{
    let mut steps: Vec<Step> = Vec::new();
    assert(steps.deep_view() =~= Seq::<StepView>::empty());
    push_apply(&mut steps);
    assert(steps.deep_view() =~= apply_script());
    steps
}

/// The steps to take at startup.
pub fn startup() -> (steps: Vec<Step>)
    ensures
        steps.deep_view() == startup_script(),
{
    let mut steps: Vec<Step> = Vec::new();
    steps.push(Step::Perform(Operation::LoadConfiguration));
    assert(steps.deep_view() =~= seq![StepView::Perform(OperationView::LoadConfiguration)]);
    push_apply(&mut steps);
    let ghost before = steps.deep_view();
    steps.push(Step::RenderTray);
    steps.push(
        Step::Perform(
            Operation::SetTooltip(
                String::from_str("Control fan curve and power profile for Asus Zephyrus ROG G14."),
            ),
        ),
    );
    assert(steps.deep_view() =~= before + seq![
        StepView::RenderTray,
        StepView::Perform(OperationView::SetTooltip(tooltip_text())),
    ]);
    steps
}

/// The steps to take after the menu entry at position `index` was activated.
///
/// A position among the plans makes that plan the active one, saves, applies
/// and builds the menu again, in this order; it is refused with
/// `PlanNotFound` where the engine's list does not reach that far. The
/// separator is refused as offset 0, and a position behind the menu with its
/// offset.
pub fn on_tray(engine: &EngineState, index: u64) -> (steps: Result<Vec<Step>, ProtocolError>)
    ensures
        steps is Ok <==> tray_script(engine.deep_view(), index) is Ok,
        steps matches Ok(list) ==> list.deep_view() == tray_script(
            engine.deep_view(),
            index,
        )->Ok_0,
        steps matches Err(error) ==> error == tray_script(engine.deep_view(), index)->Err_0,
{
    let mut steps: Vec<Step> = Vec::new();
    assert(steps.deep_view() =~= Seq::<StepView>::empty());
    match decode(engine.number_of_plans, index) {
        Ok(MenuAction::SelectPlan(position)) => {
            match engine.plan_by_index(position) {
                Some(name) => {
                    assert(engine.deep_view().plan_names[position as int] == name@);
                    steps.push(Step::Perform(Operation::SetActivePlan(name.clone())));
                    steps.push(Step::Perform(Operation::SaveConfiguration));
                    assert(steps.deep_view() =~= seq![
                        StepView::Perform(OperationView::SetActivePlan(name@)),
                        StepView::Perform(OperationView::SaveConfiguration),
                    ]);
                    push_apply(&mut steps);
                    let ghost before = steps.deep_view();
                    steps.push(Step::RenderTray);
                    assert(steps.deep_view() =~= before + seq![StepView::RenderTray]);
                    Ok(steps)
                },
                None => Err(ProtocolError::PlanNotFound(index)),
            }
        },
        Ok(MenuAction::Separator) => Err(ProtocolError::UnknownOffset(0)),
        Ok(MenuAction::ReloadConfiguration) => {
            steps.push(Step::Perform(Operation::LoadConfiguration));
            steps.push(Step::RenderTray);
            assert(steps.deep_view() =~= seq![
                StepView::Perform(OperationView::LoadConfiguration),
                StepView::RenderTray,
            ]);
            push_apply(&mut steps);
            Ok(steps)
        },
        Ok(MenuAction::EditConfiguration) => {
            steps.push(Step::Perform(Operation::EditConfiguration));
            assert(steps.deep_view() =~= seq![StepView::Perform(OperationView::EditConfiguration)]);
            Ok(steps)
        },
        Ok(MenuAction::QuitApplication) => {
            steps.push(Step::Perform(Operation::Quit));
            assert(steps.deep_view() =~= seq![StepView::Perform(OperationView::Quit)]);
            Ok(steps)
        },
        Err(error) => Err(error),
    }
}

/// The steps to take after an event: the apply step when the timer fired,
/// and what the activated entry stands for when the tray was used.
pub fn on_event(engine: &EngineState, event: SystemEvent) -> (steps: Result<
    Vec<Step>,
    ProtocolError,
>)
    ensures
        steps is Ok <==> event_script(engine.deep_view(), event) is Ok,
        steps matches Ok(list) ==> list.deep_view() == event_script(
            engine.deep_view(),
            event,
        )->Ok_0,
        steps matches Err(error) ==> error == event_script(engine.deep_view(), event)->Err_0,
{
    match event {
        SystemEvent::Timer => Ok(apply()),
        SystemEvent::TrayActivation(index) => on_tray(engine, index),
    }
}

} // verus!
