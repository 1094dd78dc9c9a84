//! The tray renderer: the menu that belongs to an engine snapshot.
//!
//! A menu is never patched. Whenever the engine's state may have changed, the
//! whole menu is cleared and built again, always in the one order that the
//! index codec assumes.

use vstd::prelude::*;
use vstd::string::*;
use crate::codec::{classify, MenuAction};
use crate::engine::{EngineState, EngineStateView};

verus! {

/// How a menu entry is drawn.
#[derive(Clone, Copy, Debug, PartialEq, Eq, Structural)]
pub enum MenuItemState {
    /// A plain entry.
    Default,
    /// An entry with a check mark.
    Checked,
}

/// One entry of the tray menu.
#[derive(Clone, Debug, PartialEq, Eq)]
pub enum MenuItem {
    /// An entry that shows a text and can be activated.
    Text { text: String, state: MenuItemState },
    /// A separator line.
    Separator,
}

/// Mathematical value of a [`MenuItem`].
pub enum MenuItemView {
    Text { text: Seq<char>, state: MenuItemState },
    Separator,
}

impl DeepView for MenuItem {
    type V = MenuItemView;

    open spec fn deep_view(&self) -> MenuItemView {
        match self {
            MenuItem::Text { text, state } => MenuItemView::Text { text: text@, state: *state },
            MenuItem::Separator => MenuItemView::Separator,
        }
    }
}

/// The entry of the plan at position `i`: it shows the plan's name, with a
/// check mark exactly when the plan is the active one.
pub open spec fn plan_entry(engine: EngineStateView, i: int) -> MenuItemView {
    MenuItemView::Text {
        text: engine.plan_names[i],
        state: if engine.is_active(i) {
            MenuItemState::Checked
        } else {
            MenuItemState::Default
        },
    }
}

/// A plain entry with the given text.
pub open spec fn plain_entry(text: Seq<char>) -> MenuItemView {
    MenuItemView::Text { text, state: MenuItemState::Default }
}

/// The entries that every menu ends with.
pub open spec fn trailing_entries() -> Seq<MenuItemView> {
    seq![
        MenuItemView::Separator,
        plain_entry("Reload configuration"@),
        plain_entry("Edit configuration"@),
        plain_entry("Quit application"@),
    ]
}

/// The menu that belongs to an engine snapshot: one entry per plan in the
/// engine's order, then the trailing entries.
pub open spec fn menu_layout(engine: EngineStateView) -> Seq<MenuItemView> {
    Seq::new(engine.plan_names.len(), |i: int| plan_entry(engine, i)) + trailing_entries()
}

/// The entry that stands in the menu for an action.
pub open spec fn entry_of(engine: EngineStateView, action: MenuAction) -> MenuItemView {
    match action {
        MenuAction::SelectPlan(i) => plan_entry(engine, i as int),
        MenuAction::Separator => MenuItemView::Separator,
        MenuAction::ReloadConfiguration => plain_entry("Reload configuration"@),
        MenuAction::EditConfiguration => plain_entry("Edit configuration"@),
        MenuAction::QuitApplication => plain_entry("Quit application"@),
    }
}

/// Builds the entries of the tray menu for an engine snapshot, in the order
/// in which they are to be added to an empty menu.
pub fn render(engine: &EngineState) -> (items: Vec<MenuItem>)
    ensures
        items.deep_view() == menu_layout(engine.deep_view()),
        items.len() == engine.plan_names.len() + 4,
{
    let ghost view = engine.deep_view();
    let mut items: Vec<MenuItem> = Vec::new();
    let mut i: usize = 0;
    while i < engine.plan_names.len()
        invariant
            view == engine.deep_view(),
            i <= engine.plan_names.len(),
            items.len() == i,
            items.deep_view() =~= Seq::new(i as nat, |k: int| plan_entry(view, k)),
        decreases engine.plan_names.len() - i,
    {
        let state: MenuItemState = if engine.is_active(i) {
            MenuItemState::Checked
        } else {
            MenuItemState::Default
        };
        let text: String = engine.plan_names[i].clone();
        let ghost before = items.deep_view();
        items.push(MenuItem::Text { text, state });
        proof {
            assert(view.plan_names[i as int] == engine.plan_names@[i as int]@);
            assert(items.deep_view() =~= before.push(plan_entry(view, i as int)));
        }
        i += 1;
    }
    items.push(MenuItem::Separator);
    items.push(
        MenuItem::Text {
            text: String::from_str("Reload configuration"),
            state: MenuItemState::Default,
        },
    );
    items.push(
        MenuItem::Text {
            text: String::from_str("Edit configuration"),
            state: MenuItemState::Default,
        },
    );
    items.push(
        MenuItem::Text { text: String::from_str("Quit application"), state: MenuItemState::Default },
    );
    assert(items.deep_view() =~= menu_layout(view));
    items
}

/// The menu and the codec agree. In the menu of a snapshot whose count is the
/// length of its list, the entry at every position is the entry of the action
/// that the position decodes to, and no position outside the menu decodes to
/// an action.
pub proof fn lemma_layout_matches_codec(engine: EngineStateView, index: u64)
    requires
        engine.number_of_plans == engine.plan_names.len(),
    ensures
        menu_layout(engine).len() == engine.number_of_plans + 4,
        index < menu_layout(engine).len() ==> classify(engine.number_of_plans, index) is Ok
            && menu_layout(engine)[index as int] == entry_of(
            engine,
            classify(engine.number_of_plans, index)->Ok_0,
        ),
        index >= menu_layout(engine).len() ==> classify(engine.number_of_plans, index) is Err,
{
}

/// At most one entry of a menu carries a check mark: in the menu of a
/// consistent snapshot, two checked entries are the same entry.
pub proof fn lemma_one_check_mark(engine: EngineStateView, i: int, j: int)
    requires
        engine.is_consistent(),
        0 <= i < menu_layout(engine).len(),
        0 <= j < menu_layout(engine).len(),
        menu_layout(engine)[i] matches MenuItemView::Text { state, .. } && state
            == MenuItemState::Checked,
        menu_layout(engine)[j] matches MenuItemView::Text { state, .. } && state
            == MenuItemState::Checked,
    ensures
        i == j,
        i < engine.plan_names.len(),
        engine.active_plan matches Some(plan) && plan.name == engine.plan_names[i],
{
}

/// The active plan of a consistent snapshot has its check mark: some entry
/// among the plans shows its name, checked.
pub proof fn lemma_active_plan_is_checked(engine: EngineStateView) -> (i: int)
    requires
        engine.is_consistent(),
        engine.active_plan is Some,
    ensures
        0 <= i < engine.plan_names.len(),
        menu_layout(engine)[i] == (MenuItemView::Text {
            text: engine.active_plan->Some_0.name,
            state: MenuItemState::Checked,
        }),
{
    let name = engine.active_plan->Some_0.name;
    let i = choose|i: int| 0 <= i < engine.plan_names.len() && engine.plan_names[i] == name;
    i
}

} // verus!
