use atrofac_gui::command::{Operation, Step, SystemEvent};
use atrofac_gui::dispatch::{apply, on_event, on_tray, startup};
use atrofac_gui::engine::{ActivePlan, EngineState};
use atrofac_gui::error::ProtocolError;

fn three_plans() -> EngineState {
    EngineState::new(
        vec!["Silent".to_string(), "Balanced".to_string(), "Turbo".to_string()],
        Some(ActivePlan { name: "Balanced".to_string(), update_interval_sec: None }),
    )
}

fn apply_steps() -> Vec<Step> {
    vec![Step::Perform(Operation::ApplyPlan), Step::ArmTimer]
}

#[test]
fn apply_step_applies_then_arms_the_timer() {
    assert_eq!(apply(), apply_steps());
}

#[test]
fn startup_loads_applies_renders_and_sets_the_tooltip() {
    assert_eq!(
        startup(),
        vec![
            Step::Perform(Operation::LoadConfiguration),
            Step::Perform(Operation::ApplyPlan),
            Step::ArmTimer,
            Step::RenderTray,
            Step::Perform(Operation::SetTooltip(
                "Control fan curve and power profile for Asus Zephyrus ROG G14.".to_string()
            )),
        ]
    );
}

#[test]
fn activating_a_plan_selects_saves_applies_and_renders() {
    assert_eq!(
        on_tray(&three_plans(), 2),
        Ok(vec![
            Step::Perform(Operation::SetActivePlan("Turbo".to_string())),
            Step::Perform(Operation::SaveConfiguration),
            Step::Perform(Operation::ApplyPlan),
            Step::ArmTimer,
            Step::RenderTray,
        ])
    );
}

#[test]
fn position_one_selects_the_second_plan() {
    let steps = on_tray(&three_plans(), 1).unwrap();
    assert_eq!(steps[0], Step::Perform(Operation::SetActivePlan("Balanced".to_string())));
}

#[test]
fn saving_comes_before_applying() {
    let steps = on_tray(&three_plans(), 2).unwrap();
    let select = steps
        .iter()
        .position(|step| matches!(step, Step::Perform(Operation::SetActivePlan(_))))
        .unwrap();
    let save = steps
        .iter()
        .position(|step| *step == Step::Perform(Operation::SaveConfiguration))
        .unwrap();
    let apply = steps.iter().position(|step| *step == Step::Perform(Operation::ApplyPlan)).unwrap();
    assert!(select < save);
    assert!(save < apply);
}

#[test]
fn reload_loads_renders_and_applies() {
    assert_eq!(
        on_tray(&three_plans(), 4),
        Ok(vec![
            Step::Perform(Operation::LoadConfiguration),
            Step::RenderTray,
            Step::Perform(Operation::ApplyPlan),
            Step::ArmTimer,
        ])
    );
}

#[test]
fn edit_opens_the_configuration_and_nothing_else() {
    assert_eq!(on_tray(&three_plans(), 5), Ok(vec![Step::Perform(Operation::EditConfiguration)]));
}

#[test]
fn quit_asks_the_system_to_quit() {
    assert_eq!(on_tray(&three_plans(), 6), Ok(vec![Step::Perform(Operation::Quit)]));
}

#[test]
fn the_separator_is_refused() {
    assert_eq!(on_tray(&three_plans(), 3), Err(ProtocolError::UnknownOffset(0)));
}

#[test]
fn a_position_behind_the_menu_is_refused() {
    assert_eq!(on_tray(&three_plans(), 7), Err(ProtocolError::UnknownOffset(4)));
    assert_eq!(on_tray(&three_plans(), 100), Err(ProtocolError::UnknownOffset(97)));
}

#[test]
fn a_plan_that_the_list_does_not_hold_is_refused() {
    let mut engine = three_plans();
    engine.plan_names.pop();
    assert_eq!(engine.number_of_plans, 3);
    assert_eq!(on_tray(&engine, 2), Err(ProtocolError::PlanNotFound(2)));
    assert!(on_tray(&engine, 1).is_ok());
}

#[test]
fn timer_event_calls_for_the_apply_step() {
    assert_eq!(on_event(&three_plans(), SystemEvent::Timer), Ok(apply_steps()));
}

#[test]
fn tray_event_is_decoded() {
    assert_eq!(
        on_event(&three_plans(), SystemEvent::TrayActivation(5)),
        on_tray(&three_plans(), 5)
    );
    assert_eq!(
        on_event(&three_plans(), SystemEvent::TrayActivation(9)),
        Err(ProtocolError::UnknownOffset(6))
    );
}
