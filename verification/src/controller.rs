//! The dispatch loop as a state machine.
//!
//! The controller never acts. Each call of [`Controller::step`] takes the
//! outcome of the command before and answers with the next command. The
//! driver is the loop around it: it carries the command out and comes back
//! with the outcome, until the command is [`Command::Exit`].
//!
//! The controller blocks at one point only, [`Command::ReceiveEvent`], and
//! takes up an event only after the work for the event before it is done.

use vstd::prelude::*;
use vstd::string::*;
use crate::apply::{timer_interval, timer_seconds};
use crate::command::{
    Command, CommandView, Operation, OperationView, Outcome, OutcomeView, Step, StepView,
};
use crate::dispatch::{event_script, on_event, startup, startup_script};
use crate::engine::{EngineState, EngineStateView};
use crate::tray::{menu_layout, render, MenuItem, MenuItemView};

verus! {

/// Where a run stands.
#[derive(Clone, Copy, Debug, PartialEq, Eq, Structural)]
pub enum Phase {
    /// The startup work is under way.
    Starting,
    /// Startup is done; events are served.
    Running,
    /// The run is over, in success or after its one diagnostic.
    Terminated,
}

/// The state of a run: its phase and the steps still to take before the next
/// event is asked for.
pub struct Controller {
    phase: Phase,
    pending: Vec<Step>,
}

/// Mathematical value of a [`Controller`].
pub struct ControllerView {
    pub phase: Phase,
    pub pending: Seq<StepView>,
}

impl DeepView for Controller {
    type V = ControllerView;

    closed spec fn deep_view(&self) -> ControllerView {
        ControllerView { phase: self.phase, pending: self.pending.deep_view() }
    }
}

impl ControllerView {
    /// The state of a run that is yet to start.
    pub open spec fn initial() -> ControllerView {
        ControllerView { phase: Phase::Starting, pending: startup_script() }
    }

    /// The state of a run that waits for an event with nothing left to do.
    pub open spec fn idle() -> ControllerView {
        ControllerView { phase: Phase::Running, pending: Seq::empty() }
    }

    /// The state of a run that is over.
    pub open spec fn terminated() -> ControllerView {
        ControllerView { phase: Phase::Terminated, pending: Seq::empty() }
    }
}

/// The title of the dialog that reports a failed run.
pub open spec fn error_title() -> Seq<char> {
    "Error"@
}

/// The steps that add the entries of a menu, in the menu's order.
pub open spec fn add_steps(layout: Seq<MenuItemView>) -> Seq<StepView> {
    Seq::new(layout.len(), |i: int| StepView::Perform(OperationView::TrayAdd(layout[i])))
}

/// Takes the next step of `pending` and gives the command it comes to, with
/// the state that is left.
///
/// An operation is handed on as it is. Arming the timer becomes the
/// operation that the active plan asks for; with no plan active it is passed
/// over. Building the menu becomes the operation that clears it, followed by
/// one step for each entry of the menu that belongs to the engine as it is
/// now. When no step is left, startup is over, and the command is to wait
/// for an event.
pub open spec fn advance(phase: Phase, pending: Seq<StepView>, engine: EngineStateView) -> (
    ControllerView,
    CommandView,
)
    decreases pending.len(),
{
    if pending.len() == 0 {
        (ControllerView { phase: Phase::Running, pending }, CommandView::ReceiveEvent)
    } else {
        let rest = pending.drop_first();
        match pending[0] {
            StepView::Perform(operation) => (
                ControllerView { phase, pending: rest },
                CommandView::Perform(operation),
            ),
            StepView::ArmTimer => match timer_interval(engine) {
                Some(seconds) => (
                    ControllerView { phase, pending: rest },
                    CommandView::Perform(OperationView::SetTimer { seconds }),
                ),
                None => advance(phase, rest, engine),
            },
            StepView::RenderTray => (
                ControllerView { phase, pending: add_steps(menu_layout(engine)) + rest },
                CommandView::Perform(OperationView::TrayClear),
            ),
        }
    }
}

/// Ends the run with its one diagnostic.
pub open spec fn report(message: Seq<char>) -> (ControllerView, CommandView) {
    (ControllerView::terminated(), CommandView::ShowError { title: error_title(), message })
}

/// The transition of the controller: from a state, the engine as it is now
/// and the outcome of the command before, to the next state and command.
///
/// A run that is over stays over. Otherwise a failure ends the run with a
/// dialog that carries the failure's description, and so does an event that
/// cannot be served. The shutdown of the event source ends the run at once
/// and in success. An event puts its steps behind those still pending. In
/// every other case the next pending step is taken.
pub open spec fn next(state: ControllerView, engine: EngineStateView, outcome: OutcomeView) -> (
    ControllerView,
    CommandView,
) {
    if state.phase == Phase::Terminated {
        (ControllerView::terminated(), CommandView::Exit)
    } else {
        match outcome {
            OutcomeView::Done => advance(state.phase, state.pending, engine),
            OutcomeView::Failed(message) => report(message),
            OutcomeView::Event(event) => match event_script(engine, event) {
                Ok(script) => advance(state.phase, state.pending + script, engine),
                Err(error) => report(error.message_text()),
            },
            OutcomeView::Shutdown => (ControllerView::terminated(), CommandView::Exit),
        }
    }
}

impl Controller {
    /// A controller for a run that is yet to start.
    pub fn new() -> (controller: Controller)
        ensures
            controller.deep_view() == ControllerView::initial(),
    {
        Controller { phase: Phase::Starting, pending: startup() }
    }

    /// Where the run stands.
    pub fn phase(&self) -> (phase: Phase)
        ensures
            phase == self.deep_view().phase,
    {
        self.phase
    }

    /// The number of steps still to take before the next event is asked for.
    pub fn pending_steps(&self) -> (count: usize)
        ensures
            count == self.deep_view().pending.len(),
    {
        self.pending.len()
    }

    /// Takes the outcome of the command before and gives the next command.
    ///
    /// `engine` is the engine as it is now. Before the first command there is
    /// nothing to report, and the outcome to pass is `Done`.
    pub fn step(&mut self, engine: &EngineState, outcome: Outcome) -> (command: Command)
        ensures
            (final(self).deep_view(), command.deep_view()) == next(
                old(self).deep_view(),
                engine.deep_view(),
                outcome.deep_view(),
            ),
    {
        match self.phase {
            Phase::Terminated => {
                self.terminate();
                Command::Exit
            },
            _ => match outcome {
                Outcome::Done => self.advance(engine),
                Outcome::Failed(message) => self.report(message),
                Outcome::Event(event) => match on_event(engine, event) {
                    Ok(script) => {
                        let mut script: Vec<Step> = script;
                        let ghost before = self.pending.deep_view();
                        let ghost added = script.deep_view();
                        self.pending.append(&mut script);
                        assert(self.pending.deep_view() =~= before + added);
                        self.advance(engine)
                    },
                    Err(error) => self.report(error.message()),
                },
                Outcome::Shutdown => {
                    self.terminate();
                    Command::Exit
                },
            },
        }
    }

    /// Ends the run and drops what was pending.
    fn terminate(&mut self)
        ensures
            final(self).deep_view() == ControllerView::terminated(),
    {
        self.phase = Phase::Terminated;
        self.pending.clear();
        assert(self.pending.deep_view() =~= Seq::<StepView>::empty());
    }

    /// Ends the run with the dialog that carries `message`.
    fn report(&mut self, message: String) -> (command: Command)
        ensures
            (final(self).deep_view(), command.deep_view()) == report(message@),
    {
        self.terminate();
        Command::ShowError { title: String::from_str("Error"), message }
    }

    /// Puts one step for each entry of the engine's menu in front of the
    /// pending steps.
    fn expand_render(&mut self, engine: &EngineState)
        ensures
            final(self).phase == old(self).phase,
            final(self).pending.deep_view() == add_steps(menu_layout(engine.deep_view())) + old(
                self,
            ).pending.deep_view(),
    {
        let ghost rest = self.pending.deep_view();
        let ghost layout = menu_layout(engine.deep_view());
        let mut items: Vec<MenuItem> = render(engine);
        assert(self.pending.deep_view() =~= add_steps(layout).skip(items.len() as int) + rest);
        while items.len() > 0
            invariant
                self.phase == old(self).phase,
                items.deep_view() == layout.take(items.len() as int),
                items.len() <= layout.len(),
                self.pending.deep_view() == add_steps(layout).skip(items.len() as int) + rest,
            decreases items.len(),
        {
            let ghost before = self.pending.deep_view();
            let ghost count = items.len() as int;
            let ghost shown = items.deep_view();
            let item: Option<MenuItem> = items.pop();
            match item {
                Some(item) => {
                    proof {
                        assert(item.deep_view() == shown[count - 1]);
                        assert(items.deep_view() =~= layout.take(count - 1));
                    }
                    let ghost step = StepView::Perform(OperationView::TrayAdd(item.deep_view()));
                    self.pending.insert(0, Step::Perform(Operation::TrayAdd(item)));
                    proof {
                        assert(self.pending.deep_view() =~= seq![step] + before);
                        assert(self.pending.deep_view() =~= add_steps(layout).skip(count - 1)
                            + rest);
                    }
                },
                None => {},
            }
        }
        assert(add_steps(layout).skip(0) =~= add_steps(layout));
    }

    /// Takes pending steps until one of them comes to a command.
    fn advance(&mut self, engine: &EngineState) -> (command: Command)
        ensures
            (final(self).deep_view(), command.deep_view()) == advance(
                old(self).phase,
                old(self).pending.deep_view(),
                engine.deep_view(),
            ),
    {
        let ghost goal = advance(self.phase, self.pending.deep_view(), engine.deep_view());
        while self.pending.len() > 0
            invariant
                goal == advance(
                    old(self).phase,
                    old(self).pending.deep_view(),
                    engine.deep_view(),
                ),
                advance(self.phase, self.pending.deep_view(), engine.deep_view()) == goal,
            decreases self.pending.len(),
        {
            let ghost before = self.pending.deep_view();
            let step: Step = self.pending.remove(0);
            proof {
                assert(step.deep_view() == before[0]);
                assert(self.pending.deep_view() =~= before.drop_first());
            }
            match step {
                Step::Perform(operation) => {
                    return Command::Perform(operation);
                },
                Step::ArmTimer => {
                    match timer_seconds(engine) {
                        Some(seconds) => {
                            return Command::Perform(Operation::SetTimer { seconds });
                        },
                        None => {},
                    }
                },
                Step::RenderTray => {
                    self.expand_render(engine);
                    return Command::Perform(Operation::TrayClear);
                },
            }
        }
        self.phase = Phase::Running;
        assert(self.pending.deep_view() =~= Seq::<StepView>::empty());
        Command::ReceiveEvent
    }
}

} // verus!
