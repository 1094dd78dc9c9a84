//! The vocabulary between the control core and its driver.
//!
//! The core hands the driver one [`Command`] at a time. The driver carries it
//! out on the engine or the operating system and reports an [`Outcome`].

use vstd::prelude::*;
use crate::tray::{MenuItem, MenuItemView};

verus! {

/// One operation on the engine or on the operating system. Each of them can
/// fail.
#[derive(Clone, Debug, PartialEq, Eq)]
pub enum Operation {
    /// Have the engine read its configuration file.
    LoadConfiguration,
    /// Have the engine write its configuration file.
    SaveConfiguration,
    /// Make the plan of this name the engine's active plan.
    SetActivePlan(String),
    /// Have the engine push the settings of its active plan into effect.
    ApplyPlan,
    /// Arm the timer for this many seconds, in place of any timer armed
    /// before.
    SetTimer { seconds: u64 },
    /// Remove every entry from the tray menu.
    TrayClear,
    /// Add this entry at the end of the tray menu.
    TrayAdd(MenuItem),
    /// Set the text shown when the pointer rests on the tray icon.
    SetTooltip(String),
    /// Open the engine's configuration file in an editor.
    EditConfiguration,
    /// Ask the operating system to wind the application down.
    Quit,
}

/// Mathematical value of an [`Operation`].
pub enum OperationView {
    LoadConfiguration,
    SaveConfiguration,
    SetActivePlan(Seq<char>),
    ApplyPlan,
    SetTimer { seconds: u64 },
    TrayClear,
    TrayAdd(MenuItemView),
    SetTooltip(Seq<char>),
    EditConfiguration,
    Quit,
}

impl DeepView for Operation {
    type V = OperationView;

    open spec fn deep_view(&self) -> OperationView {
        match self {
            Operation::LoadConfiguration => OperationView::LoadConfiguration,
            Operation::SaveConfiguration => OperationView::SaveConfiguration,
            Operation::SetActivePlan(name) => OperationView::SetActivePlan(name@),
            Operation::ApplyPlan => OperationView::ApplyPlan,
            Operation::SetTimer { seconds } => OperationView::SetTimer { seconds: *seconds },
            Operation::TrayClear => OperationView::TrayClear,
            Operation::TrayAdd(item) => OperationView::TrayAdd(item.deep_view()),
            Operation::SetTooltip(text) => OperationView::SetTooltip(text@),
            Operation::EditConfiguration => OperationView::EditConfiguration,
            Operation::Quit => OperationView::Quit,
        }
    }
}

/// One thing for the driver to do.
#[derive(Clone, Debug, PartialEq, Eq)]
pub enum Command {
    /// Carry out this operation and report whether it failed.
    Perform(Operation),
    /// Block until the operating system delivers the next event, and report
    /// the event, or that the event source has shut down.
    ReceiveEvent,
    /// Show a modal dialog with this title and message. The run is over.
    ShowError { title: String, message: String },
    /// Stop: the run is over.
    Exit,
}

/// Mathematical value of a [`Command`].
pub enum CommandView {
    Perform(OperationView),
    ReceiveEvent,
    ShowError { title: Seq<char>, message: Seq<char> },
    Exit,
}

impl DeepView for Command {
    type V = CommandView;

    open spec fn deep_view(&self) -> CommandView {
        match self {
            Command::Perform(operation) => CommandView::Perform(operation.deep_view()),
            Command::ReceiveEvent => CommandView::ReceiveEvent,
            Command::ShowError { title, message } => CommandView::ShowError {
                title: title@,
                message: message@,
            },
            Command::Exit => CommandView::Exit,
        }
    }
}

/// One step of the work that an event calls for.
///
/// Most steps are operations. Two are decided only when their turn comes,
/// because they depend on the state in which the steps before them leave the
/// engine.
#[derive(Clone, Debug, PartialEq, Eq)]
pub enum Step {
    /// Carry out this operation.
    Perform(Operation),
    /// Arm the timer as the active plan asks, if a plan is active.
    ArmTimer,
    /// Clear the tray menu and build it again.
    RenderTray,
}

/// Mathematical value of a [`Step`].
pub enum StepView {
    Perform(OperationView),
    ArmTimer,
    RenderTray,
}

impl DeepView for Step {
    type V = StepView;

    open spec fn deep_view(&self) -> StepView {
        match self {
            Step::Perform(operation) => StepView::Perform(operation.deep_view()),
            Step::ArmTimer => StepView::ArmTimer,
            Step::RenderTray => StepView::RenderTray,
        }
    }
}

/// An event of the operating system.
#[derive(Clone, Copy, Debug, PartialEq, Eq, Structural)]
pub enum SystemEvent {
    /// The timer has fired.
    Timer,
    /// The menu entry at this position has been activated.
    TrayActivation(u64),
}

/// How the last command went.
#[derive(Clone, Debug, PartialEq, Eq)]
pub enum Outcome {
    /// It was carried out. Also what the driver reports before the first
    /// command, when there is nothing to report yet.
    Done,
    /// It failed, with this description of the error.
    Failed(String),
    /// The operating system delivered this event.
    Event(SystemEvent),
    /// The operating system has shut down and delivers no more events.
    Shutdown,
}

/// Mathematical value of an [`Outcome`].
pub enum OutcomeView {
    Done,
    Failed(Seq<char>),
    Event(SystemEvent),
    Shutdown,
}

impl DeepView for Outcome {
    type V = OutcomeView;

    open spec fn deep_view(&self) -> OutcomeView {
        match self {
            Outcome::Done => OutcomeView::Done,
            Outcome::Failed(message) => OutcomeView::Failed(message@),
            Outcome::Event(event) => OutcomeView::Event(*event),
            Outcome::Shutdown => OutcomeView::Shutdown,
        }
    }
}

} // verus!
