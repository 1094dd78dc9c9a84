//! What can go wrong inside the control core itself.

use vstd::prelude::*;
use vstd::string::*;
use crate::text::{decimal, to_decimal};

verus! {

/// A tray activation that the menu, as it was last built, cannot account for.
///
/// Either one means that the tray and the engine no longer agree on what the
/// menu holds.
#[derive(Clone, Copy, Debug, PartialEq, Eq, Structural)]
pub enum ProtocolError {
    /// The activated entry lies behind the plans, at an offset that names no
    /// action.
    UnknownOffset(u64),
    /// The activated entry lies among the plans, but the engine lists no plan
    /// at that position.
    PlanNotFound(u64),
}

impl ProtocolError {
    /// The text shown to the user for this error.
    pub open spec fn message_text(self) -> Seq<char> {
        match self {
            ProtocolError::UnknownOffset(offset) => "Unknown menu item offset "@ + decimal(
                offset as nat,
            ) + "."@,
            ProtocolError::PlanNotFound(index) => "Plan #"@ + decimal(index as nat)
                + " not found."@,
        }
    }

    /// Renders the error as the text shown to the user.
    pub fn message(&self) -> (text: String)
        ensures
            text@ == self.message_text(),
    {
        match self {
            ProtocolError::UnknownOffset(offset) => {
                let mut text: String = String::from_str("Unknown menu item offset ");
                let number: String = to_decimal(*offset);
                text.append(number.as_str());
                text.append(".");
                text
            },
            ProtocolError::PlanNotFound(index) => {
                let mut text: String = String::from_str("Plan #");
                let number: String = to_decimal(*index);
                text.append(number.as_str());
                text.append(" not found.");
                text
            },
        }
    }
}

} // verus!
