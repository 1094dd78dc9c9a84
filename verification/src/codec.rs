//! The index codec: what an activated menu position means.
//!
//! The tray menu is a flat list. The plans come first, in the engine's order,
//! then a separator, then the three fixed actions. The operating system hands
//! back nothing but the position of the entry that was activated, so the
//! meaning of a position follows from the number of plans alone.

use vstd::prelude::*;
use crate::error::ProtocolError;

verus! {

/// Offset of the separator behind the last plan.
pub const MENU_ITEM_SEPARATOR_OFFSET: u64 = 0;

/// Offset of "Reload configuration" behind the last plan.
pub const MENU_ITEM_RELOAD_CONFIG_OFFSET: u64 = 1;

/// Offset of "Edit configuration" behind the last plan.
pub const MENU_ITEM_EDIT_CONFIG_OFFSET: u64 = 2;

/// Offset of "Quit application" behind the last plan.
pub const MENU_ITEM_EDIT_EXIT_OFFSET: u64 = 3;

/// What an activated menu entry stands for.
#[derive(Clone, Copy, Debug, PartialEq, Eq, Structural)]
pub enum MenuAction {
    /// Make the plan at this position of the engine's list the active one.
    SelectPlan(usize),
    /// The separator line. The operating system is not expected to report it.
    Separator,
    /// Read the configuration file again.
    ReloadConfiguration,
    /// Open the configuration file in an editor.
    EditConfiguration,
    /// Leave the application.
    QuitApplication,
}

/// The meaning of position `index` in a menu built for `number_of_plans`
/// plans.
pub open spec fn classify(number_of_plans: usize, index: u64) -> Result<MenuAction, ProtocolError> {
    if index < number_of_plans {
        Ok(MenuAction::SelectPlan(index as usize))
    } else if index - number_of_plans == MENU_ITEM_SEPARATOR_OFFSET {
        Ok(MenuAction::Separator)
    } else if index - number_of_plans == MENU_ITEM_RELOAD_CONFIG_OFFSET {
        Ok(MenuAction::ReloadConfiguration)
    } else if index - number_of_plans == MENU_ITEM_EDIT_CONFIG_OFFSET {
        Ok(MenuAction::EditConfiguration)
    } else if index - number_of_plans == MENU_ITEM_EDIT_EXIT_OFFSET {
        Ok(MenuAction::QuitApplication)
    } else {
        Err(ProtocolError::UnknownOffset((index - number_of_plans) as u64))
    }
}

/// Decodes the position of an activated menu entry.
///
/// Positions below `number_of_plans` select the plan at that position. The
/// positions behind them are the separator and the three actions; anything
/// further out is refused with the offset behind the last plan.
pub fn decode(number_of_plans: usize, index: u64) -> (action: Result<MenuAction, ProtocolError>)
    ensures
        action == classify(number_of_plans, index),
        index < number_of_plans ==> action == Ok::<MenuAction, ProtocolError>(
            MenuAction::SelectPlan(index as usize),
        ),
        index == number_of_plans ==> action == Ok::<MenuAction, ProtocolError>(
            MenuAction::Separator,
        ),
        index == number_of_plans + 1 ==> action == Ok::<MenuAction, ProtocolError>(
            MenuAction::ReloadConfiguration,
        ),
        index == number_of_plans + 2 ==> action == Ok::<MenuAction, ProtocolError>(
            MenuAction::EditConfiguration,
        ),
        index == number_of_plans + 3 ==> action == Ok::<MenuAction, ProtocolError>(
            MenuAction::QuitApplication,
        ),
        index > number_of_plans + 3 ==> action == Err::<MenuAction, ProtocolError>(
            ProtocolError::UnknownOffset((index - number_of_plans) as u64),
        ),
{
    let plans: u64 = number_of_plans as u64;
    if index < plans {
        Ok(MenuAction::SelectPlan(index as usize))
    } else {
        let offset: u64 = index - plans;
        if offset == MENU_ITEM_SEPARATOR_OFFSET {
            Ok(MenuAction::Separator)
        } else if offset == MENU_ITEM_RELOAD_CONFIG_OFFSET {
            Ok(MenuAction::ReloadConfiguration)
        } else if offset == MENU_ITEM_EDIT_CONFIG_OFFSET {
            Ok(MenuAction::EditConfiguration)
        } else if offset == MENU_ITEM_EDIT_EXIT_OFFSET {
            Ok(MenuAction::QuitApplication)
        } else {
            Err(ProtocolError::UnknownOffset(offset))
        }
    }
}

} // verus!
