use atrofac_gui::command::{Command, Operation, Outcome, SystemEvent};
use atrofac_gui::controller::{Controller, Phase};
use atrofac_gui::engine::{ActivePlan, EngineState};
use atrofac_gui::tray::{MenuItem, MenuItemState};
use std::collections::VecDeque;

const TOOLTIP: &str = "Control fan curve and power profile for Asus Zephyrus ROG G14.";

/// An engine and an operating system in memory. It carries out what the
/// controller asks for, keeps a record of it, and fails where it is told to.
struct Recorder {
    stored: Vec<(String, Option<u32>)>,
    stored_active: Option<String>,
    plans: Vec<(String, Option<u32>)>,
    active: Option<String>,
    saved_active: Option<String>,
    events: VecDeque<SystemEvent>,
    fail_at: Option<(usize, String)>,
    record: Vec<Command>,
}

impl Recorder {
    fn new(plans: &[(&str, Option<u32>)], active: Option<&str>) -> Recorder {
        Recorder {
            stored: plans.iter().map(|(name, interval)| (name.to_string(), *interval)).collect(),
            stored_active: active.map(|name| name.to_string()),
            plans: Vec::new(),
            active: None,
            saved_active: None,
            events: VecDeque::new(),
            fail_at: None,
            record: Vec::new(),
        }
    }

    fn with_events(mut self, events: &[SystemEvent]) -> Recorder {
        self.events = events.iter().copied().collect();
        self
    }

    fn failing_at(mut self, position: usize, message: &str) -> Recorder {
        self.fail_at = Some((position, message.to_string()));
        self
    }

    fn snapshot(&self) -> EngineState {
        let active_plan = self.active.as_ref().and_then(|name| {
            self.plans.iter().find(|(plan, _)| plan == name).map(|(plan, interval)| ActivePlan {
                name: plan.clone(),
                update_interval_sec: *interval,
            })
        });
        EngineState::new(self.plans.iter().map(|(name, _)| name.clone()).collect(), active_plan)
    }

    fn perform(&mut self, command: &Command) -> Outcome {
        let position = self.record.len();
        self.record.push(command.clone());
        if let Some((at, message)) = &self.fail_at {
            if *at == position {
                return Outcome::Failed(message.clone());
            }
        }
        match command {
            Command::Perform(Operation::LoadConfiguration) => {
                self.plans = self.stored.clone();
                self.active = self.stored_active.clone();
            }
            Command::Perform(Operation::SaveConfiguration) => {
                self.saved_active = self.active.clone();
            }
            Command::Perform(Operation::SetActivePlan(name)) => {
                self.active = Some(name.clone());
            }
            Command::ReceiveEvent => {
                return match self.events.pop_front() {
                    Some(event) => Outcome::Event(event),
                    None => Outcome::Shutdown,
                };
            }
            _ => {}
        }
        Outcome::Done
    }

    /// Runs a controller from its start until it says `Exit`.
    fn run(&mut self) -> Controller {
        let mut controller = Controller::new();
        let mut outcome = Outcome::Done;
        for _ in 0..1000 {
            let command = controller.step(&self.snapshot(), outcome);
            if command == Command::Exit {
                self.record.push(command);
                return controller;
            }
            outcome = self.perform(&command);
        }
        panic!("the run does not end");
    }
}

fn perform(operation: Operation) -> Command {
    Command::Perform(operation)
}

fn add(text: &str, state: MenuItemState) -> Command {
    perform(Operation::TrayAdd(MenuItem::Text { text: text.to_string(), state }))
}

fn timer(seconds: u64) -> Command {
    perform(Operation::SetTimer { seconds })
}

fn dialog(message: &str) -> Command {
    Command::ShowError { title: "Error".to_string(), message: message.to_string() }
}

/// The commands that build the menu of Silent, Balanced and Turbo with the
/// plan at `checked` active.
fn menu(checked: usize) -> Vec<Command> {
    let state = |i: usize| if i == checked { MenuItemState::Checked } else { MenuItemState::Default };
    vec![
        perform(Operation::TrayClear),
        add("Silent", state(0)),
        add("Balanced", state(1)),
        add("Turbo", state(2)),
        perform(Operation::TrayAdd(MenuItem::Separator)),
        add("Reload configuration", MenuItemState::Default),
        add("Edit configuration", MenuItemState::Default),
        add("Quit application", MenuItemState::Default),
    ]
}

/// The commands of a startup with Silent (60 s), Balanced and Turbo, and
/// Balanced active.
fn startup_commands() -> Vec<Command> {
    let mut commands = vec![
        perform(Operation::LoadConfiguration),
        perform(Operation::ApplyPlan),
        timer(120),
    ];
    commands.extend(menu(1));
    commands.push(perform(Operation::SetTooltip(TOOLTIP.to_string())));
    commands
}

fn three_plans() -> Recorder {
    Recorder::new(&[("Silent", Some(60)), ("Balanced", None), ("Turbo", Some(30))], Some("Balanced"))
}

fn joined(parts: &[Vec<Command>]) -> Vec<Command> {
    parts.iter().flat_map(|part| part.iter().cloned()).collect()
}

#[test]
fn a_new_controller_is_starting() {
    let controller = Controller::new();
    assert_eq!(controller.phase(), Phase::Starting);
    assert_eq!(controller.pending_steps(), 5);
}

#[test]
fn startup_then_shutdown() {
    let mut recorder = three_plans();
    let controller = recorder.run();
    assert_eq!(
        recorder.record,
        joined(&[startup_commands(), vec![Command::ReceiveEvent, Command::Exit]])
    );
    assert_eq!(controller.phase(), Phase::Terminated);
    assert_eq!(controller.pending_steps(), 0);
}

#[test]
fn the_phase_turns_to_running_with_the_first_wait() {
    let mut recorder = three_plans();
    let mut controller = Controller::new();
    let mut outcome = Outcome::Done;
    loop {
        let command = controller.step(&recorder.snapshot(), outcome);
        if command == Command::ReceiveEvent {
            break;
        }
        assert_eq!(controller.phase(), Phase::Starting);
        outcome = recorder.perform(&command);
    }
    assert_eq!(controller.phase(), Phase::Running);
    assert_eq!(controller.pending_steps(), 0);
}

#[test]
fn building_the_menu_adds_seven_entries_in_order() {
    let mut recorder = three_plans();
    recorder.run();
    let adds: Vec<MenuItem> = recorder
        .record
        .iter()
        .filter_map(|command| match command {
            Command::Perform(Operation::TrayAdd(item)) => Some(item.clone()),
            _ => None,
        })
        .collect();
    let text = |text: &str, state: MenuItemState| MenuItem::Text { text: text.to_string(), state };
    assert_eq!(
        adds,
        vec![
            text("Silent", MenuItemState::Default),
            text("Balanced", MenuItemState::Checked),
            text("Turbo", MenuItemState::Default),
            MenuItem::Separator,
            text("Reload configuration", MenuItemState::Default),
            text("Edit configuration", MenuItemState::Default),
            text("Quit application", MenuItemState::Default),
        ]
    );
}

#[test]
fn applying_a_plan_with_an_interval_arms_the_timer_for_it() {
    let mut recorder = Recorder::new(&[("Silent", Some(60))], Some("Silent"));
    recorder.run();
    assert_eq!(recorder.record[1], perform(Operation::ApplyPlan));
    assert_eq!(recorder.record[2], timer(60));
}

#[test]
fn applying_a_plan_without_an_interval_arms_the_timer_for_120_seconds() {
    let mut recorder = Recorder::new(&[("Silent", None)], Some("Silent"));
    recorder.run();
    assert_eq!(recorder.record[1], perform(Operation::ApplyPlan));
    assert_eq!(recorder.record[2], timer(120));
}

#[test]
fn applying_without_an_active_plan_arms_no_timer() {
    let mut recorder = Recorder::new(&[("Silent", Some(60))], None);
    recorder.run();
    assert_eq!(recorder.record[1], perform(Operation::ApplyPlan));
    assert_eq!(recorder.record[2], perform(Operation::TrayClear));
    assert!(recorder
        .record
        .iter()
        .all(|command| !matches!(command, Command::Perform(Operation::SetTimer { .. }))));
}

#[test]
fn timer_event_applies_and_arms_again() {
    let mut recorder = three_plans().with_events(&[SystemEvent::Timer, SystemEvent::Timer]);
    recorder.run();
    let again = vec![Command::ReceiveEvent, perform(Operation::ApplyPlan), timer(120)];
    assert_eq!(
        recorder.record,
        joined(&[
            startup_commands(),
            again.clone(),
            again,
            vec![Command::ReceiveEvent, Command::Exit]
        ])
    );
}

#[test]
fn selecting_a_plan_saves_before_it_applies() {
    let mut recorder = three_plans().with_events(&[SystemEvent::TrayActivation(2)]);
    recorder.run();
    assert_eq!(
        recorder.record,
        joined(&[
            startup_commands(),
            vec![
                Command::ReceiveEvent,
                perform(Operation::SetActivePlan("Turbo".to_string())),
                perform(Operation::SaveConfiguration),
                perform(Operation::ApplyPlan),
                timer(30),
            ],
            menu(2),
            vec![Command::ReceiveEvent, Command::Exit],
        ])
    );
    assert_eq!(recorder.saved_active, Some("Turbo".to_string()));
}

#[test]
fn position_one_selects_balanced() {
    let mut recorder = Recorder::new(
        &[("Silent", None), ("Balanced", None), ("Turbo", None)],
        Some("Silent"),
    )
    .with_events(&[SystemEvent::TrayActivation(1)]);
    recorder.run();
    assert!(recorder.record.contains(&perform(Operation::SetActivePlan("Balanced".to_string()))));
    assert_eq!(recorder.active, Some("Balanced".to_string()));
}

#[test]
fn reload_renders_before_it_applies() {
    let mut recorder = three_plans().with_events(&[SystemEvent::TrayActivation(4)]);
    recorder.run();
    assert_eq!(
        recorder.record,
        joined(&[
            startup_commands(),
            vec![Command::ReceiveEvent, perform(Operation::LoadConfiguration)],
            menu(1),
            vec![
                perform(Operation::ApplyPlan),
                timer(120),
                Command::ReceiveEvent,
                Command::Exit
            ],
        ])
    );
}

#[test]
fn reload_shows_the_plans_that_were_loaded() {
    let mut recorder = three_plans().with_events(&[SystemEvent::TrayActivation(4)]);
    let mut controller = Controller::new();
    let mut outcome = Outcome::Done;
    let mut waits = 0;
    loop {
        let command = controller.step(&recorder.snapshot(), outcome);
        if command == Command::Exit {
            break;
        }
        if command == Command::ReceiveEvent {
            waits += 1;
            if waits == 1 {
                recorder.stored = vec![("Quiet".to_string(), Some(10))];
                recorder.stored_active = Some("Quiet".to_string());
                recorder.record.clear();
            }
        }
        outcome = recorder.perform(&command);
    }
    assert_eq!(
        recorder.record,
        vec![
            Command::ReceiveEvent,
            perform(Operation::LoadConfiguration),
            perform(Operation::TrayClear),
            add("Quiet", MenuItemState::Checked),
            perform(Operation::TrayAdd(MenuItem::Separator)),
            add("Reload configuration", MenuItemState::Default),
            add("Edit configuration", MenuItemState::Default),
            add("Quit application", MenuItemState::Default),
            perform(Operation::ApplyPlan),
            timer(10),
            Command::ReceiveEvent,
        ]
    );
}

#[test]
fn edit_touches_neither_engine_nor_tray() {
    let mut recorder = three_plans().with_events(&[SystemEvent::TrayActivation(5)]);
    recorder.run();
    assert_eq!(
        recorder.record,
        joined(&[
            startup_commands(),
            vec![
                Command::ReceiveEvent,
                perform(Operation::EditConfiguration),
                Command::ReceiveEvent,
                Command::Exit
            ],
        ])
    );
}

#[test]
fn quit_asks_the_system_and_waits_for_the_shutdown() {
    let mut recorder = three_plans().with_events(&[SystemEvent::TrayActivation(6)]);
    let controller = recorder.run();
    assert_eq!(
        recorder.record,
        joined(&[
            startup_commands(),
            vec![
                Command::ReceiveEvent,
                perform(Operation::Quit),
                Command::ReceiveEvent,
                Command::Exit
            ],
        ])
    );
    assert_eq!(controller.phase(), Phase::Terminated);
}

#[test]
fn shutdown_ends_the_run_in_success() {
    let mut recorder = three_plans().with_events(&[SystemEvent::Timer]);
    let controller = recorder.run();
    let waits: Vec<usize> = recorder
        .record
        .iter()
        .enumerate()
        .filter(|(_, command)| **command == Command::ReceiveEvent)
        .map(|(position, _)| position)
        .collect();
    let last_wait = *waits.last().unwrap();
    assert_eq!(&recorder.record[last_wait + 1..], &[Command::Exit]);
    assert!(recorder.record.iter().all(|command| !matches!(command, Command::ShowError { .. })));
    assert_eq!(controller.phase(), Phase::Terminated);
}

#[test]
fn shutdown_drops_what_is_pending() {
    let recorder = three_plans();
    let mut controller = Controller::new();
    let first = controller.step(&recorder.snapshot(), Outcome::Done);
    assert_eq!(first, perform(Operation::LoadConfiguration));
    assert_eq!(controller.pending_steps(), 4);
    assert_eq!(controller.step(&recorder.snapshot(), Outcome::Shutdown), Command::Exit);
    assert_eq!(controller.phase(), Phase::Terminated);
    assert_eq!(controller.pending_steps(), 0);
}

#[test]
fn a_run_that_is_over_only_says_exit() {
    let mut recorder = three_plans();
    let mut controller = recorder.run();
    let engine = recorder.snapshot();
    assert_eq!(controller.step(&engine, Outcome::Done), Command::Exit);
    assert_eq!(controller.step(&engine, Outcome::Event(SystemEvent::Timer)), Command::Exit);
    assert_eq!(controller.step(&engine, Outcome::Failed("late".to_string())), Command::Exit);
    assert_eq!(controller.step(&engine, Outcome::Shutdown), Command::Exit);
    assert_eq!(controller.phase(), Phase::Terminated);
}

#[test]
fn a_failure_at_any_step_shows_one_dialog_and_ends_the_run() {
    let mut complete = three_plans().with_events(&[
        SystemEvent::Timer,
        SystemEvent::TrayActivation(0),
        SystemEvent::TrayActivation(4),
        SystemEvent::TrayActivation(5),
        SystemEvent::TrayActivation(6),
    ]);
    complete.run();
    let length = complete.record.len() - 1;
    assert_eq!(length, 45);
    for position in 0..length {
        let mut recorder = three_plans()
            .with_events(&[
                SystemEvent::Timer,
                SystemEvent::TrayActivation(0),
                SystemEvent::TrayActivation(4),
                SystemEvent::TrayActivation(5),
                SystemEvent::TrayActivation(6),
            ])
            .failing_at(position, "the fan does not answer");
        let controller = recorder.run();
        assert_eq!(&recorder.record[..=position], &complete.record[..=position]);
        assert_eq!(
            &recorder.record[position + 1..],
            &[dialog("the fan does not answer"), Command::Exit]
        );
        assert_eq!(controller.phase(), Phase::Terminated);
    }
}

#[test]
fn a_failing_load_at_startup_is_reported() {
    let mut recorder = three_plans().failing_at(0, "configuration file is missing");
    recorder.run();
    assert_eq!(
        recorder.record,
        vec![
            perform(Operation::LoadConfiguration),
            dialog("configuration file is missing"),
            Command::Exit
        ]
    );
}

#[test]
fn a_failing_dialog_is_not_shown_again() {
    let mut recorder = three_plans();
    let mut controller = Controller::new();
    let engine = recorder.snapshot();
    let first = controller.step(&engine, Outcome::Done);
    recorder.perform(&first);
    let report = controller.step(&engine, Outcome::Failed("no driver".to_string()));
    assert_eq!(report, dialog("no driver"));
    assert_eq!(controller.phase(), Phase::Terminated);
    assert_eq!(
        controller.step(&engine, Outcome::Failed("no display".to_string())),
        Command::Exit
    );
}

#[test]
fn an_unknown_offset_is_reported() {
    let mut recorder = three_plans().with_events(&[SystemEvent::TrayActivation(10)]);
    recorder.run();
    assert_eq!(
        recorder.record,
        joined(&[
            startup_commands(),
            vec![
                Command::ReceiveEvent,
                dialog("Unknown menu item offset 7."),
                Command::Exit
            ],
        ])
    );
}

#[test]
fn the_separator_is_reported() {
    let mut recorder = three_plans().with_events(&[SystemEvent::TrayActivation(3)]);
    recorder.run();
    let length = recorder.record.len();
    assert_eq!(
        &recorder.record[length - 3..],
        &[Command::ReceiveEvent, dialog("Unknown menu item offset 0."), Command::Exit]
    );
}

#[test]
fn a_plan_that_is_gone_is_reported() {
    let mut recorder = three_plans();
    let mut controller = Controller::new();
    let mut outcome = Outcome::Done;
    loop {
        let command = controller.step(&recorder.snapshot(), outcome);
        outcome = recorder.perform(&command);
        if command == Command::ReceiveEvent {
            break;
        }
    }
    let mut engine = recorder.snapshot();
    engine.plan_names.truncate(2);
    let command = controller.step(&engine, Outcome::Event(SystemEvent::TrayActivation(2)));
    assert_eq!(command, dialog("Plan #2 not found."));
    assert_eq!(controller.phase(), Phase::Terminated);
}

#[test]
fn an_event_is_served_behind_what_is_pending() {
    let recorder = {
        let mut recorder = three_plans();
        recorder.perform(&perform(Operation::LoadConfiguration));
        recorder
    };
    let engine = recorder.snapshot();
    let mut controller = Controller::new();
    assert_eq!(controller.step(&engine, Outcome::Done), perform(Operation::LoadConfiguration));
    assert_eq!(
        controller.step(&engine, Outcome::Event(SystemEvent::TrayActivation(5))),
        perform(Operation::ApplyPlan)
    );
    let mut commands = Vec::new();
    loop {
        let command = controller.step(&engine, Outcome::Done);
        if command == Command::ReceiveEvent {
            break;
        }
        commands.push(command);
    }
    assert_eq!(
        commands,
        joined(&[
            vec![timer(120)],
            menu(1),
            vec![
                perform(Operation::SetTooltip(TOOLTIP.to_string())),
                perform(Operation::EditConfiguration)
            ],
        ])
    );
}

#[test]
fn the_menu_is_that_of_the_engine_when_building_began() {
    let mut recorder = three_plans();
    recorder.perform(&perform(Operation::LoadConfiguration));
    let before = recorder.snapshot();
    let mut controller = Controller::new();
    assert_eq!(controller.step(&before, Outcome::Done), perform(Operation::LoadConfiguration));
    assert_eq!(controller.step(&before, Outcome::Done), perform(Operation::ApplyPlan));
    assert_eq!(controller.step(&before, Outcome::Done), timer(120));
    assert_eq!(controller.step(&before, Outcome::Done), perform(Operation::TrayClear));
    let after = EngineState::new(vec!["Other".to_string()], None);
    assert_eq!(controller.step(&after, Outcome::Done), add("Silent", MenuItemState::Default));
    assert_eq!(controller.step(&after, Outcome::Done), add("Balanced", MenuItemState::Checked));
    assert_eq!(controller.step(&after, Outcome::Done), add("Turbo", MenuItemState::Default));
}

#[test]
fn the_menu_is_whole_whenever_the_controller_waits() {
    let mut recorder = three_plans().with_events(&[
        SystemEvent::TrayActivation(2),
        SystemEvent::Timer,
        SystemEvent::TrayActivation(4),
        SystemEvent::TrayActivation(0),
        SystemEvent::TrayActivation(5),
    ]);
    let mut controller = Controller::new();
    let mut outcome = Outcome::Done;
    let mut shown: Vec<MenuItem> = Vec::new();
    let mut waits = 0;
    loop {
        let engine = recorder.snapshot();
        let command = controller.step(&engine, outcome);
        match &command {
            Command::Perform(Operation::TrayClear) => shown.clear(),
            Command::Perform(Operation::TrayAdd(item)) => shown.push(item.clone()),
            Command::ReceiveEvent => {
                waits += 1;
                assert_eq!(shown, atrofac_gui::tray::render(&engine));
                assert_eq!(controller.pending_steps(), 0);
                assert_eq!(controller.phase(), Phase::Running);
            }
            Command::Exit => break,
            _ => {}
        }
        outcome = recorder.perform(&command);
    }
    assert_eq!(waits, 6);
    assert_eq!(recorder.active, Some("Silent".to_string()));
}

#[test]
fn the_phase_never_moves_back() {
    let mut recorder = three_plans()
        .with_events(&[SystemEvent::Timer, SystemEvent::TrayActivation(1)])
        .failing_at(20, "no luck");
    let mut controller = Controller::new();
    let mut outcome = Outcome::Done;
    let rank = |phase: Phase| match phase {
        Phase::Starting => 0,
        Phase::Running => 1,
        Phase::Terminated => 2,
    };
    let mut reached = rank(controller.phase());
    let mut dialogs = 0;
    loop {
        let command = controller.step(&recorder.snapshot(), outcome);
        assert!(rank(controller.phase()) >= reached);
        reached = rank(controller.phase());
        if matches!(command, Command::ShowError { .. }) {
            dialogs += 1;
        }
        if command == Command::Exit {
            break;
        }
        outcome = recorder.perform(&command);
    }
    assert_eq!(reached, 2);
    assert_eq!(dialogs, 1);
}
