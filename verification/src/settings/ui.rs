//! The navigation menu: a list of labelled options, a cursor moved by
//! the rotary input, and a click that either enters the chosen option or
//! backs out past the end of the list.

use crate::settings::rendering::{SettingsRenderer, TextType};
use crate::settings::{RotorInput, SettingsMenu};
use crate::sight::Sight;
use vstd::prelude::*;

verus! {

/// One entry of a navigation menu: a label and the target the entry
/// navigates to when clicked.
#[derive(Clone, Copy, Debug)]
pub struct MenuOption<TResult> {
    /// The text the entry is drawn with.
    pub label: &'static str,
    /// Where a click on the entry navigates.
    pub action: TResult,
}

/// A list of menu entries.
pub struct NavigationMenu {
    /// The entries, in display order.
    pub options: Vec<MenuOption<SettingsMenu>>,
}

/// The cursor of a navigation menu.
#[derive(Clone, Copy, Debug, PartialEq, Eq, Structural)]
pub struct NavigationMenuState {
    /// The highlighted entry; one past the last entry means the
    /// back-out position.
    pub selected_index: i32,
}

/// What a click inside a menu did.
#[derive(Clone, Copy, Debug, PartialEq, Eq, Structural)]
pub enum ClickResult<TResult> {
    /// Leave the current menu.
    Back,
    /// Enter the given target.
    Navigate(TResult),
    /// Stay where we are.
    Nothing,
}

/// Where the cursor moves on one notch of rotation: up decrements
/// never below zero by wrapping to the end, down advances modulo one
/// past the option count.
pub open spec fn nav_input_spec(len: int, idx: int, input: RotorInput) -> int {
    let moved = match input {
        RotorInput::Up => idx + 1,
        RotorInput::Down => idx - 1,
    };
    if moved < 0 {
        len - 1
    } else {
        moved % (len + 1)
    }
}

/// What a click at the given cursor yields: the chosen entry's target,
/// or backing out on the position past the last entry.
pub open spec fn nav_click_spec(
    options: Seq<MenuOption<SettingsMenu>>,
    idx: int,
) -> ClickResult<SettingsMenu> {
    if idx < options.len() {
        ClickResult::Navigate(options[idx].action)
    } else {
        ClickResult::Back
    }
}

impl NavigationMenu {
    /// Moves the cursor one notch.
    pub fn handle_input(
        &self,
        state: &mut NavigationMenuState,
        _sight: &mut Sight,
        input: RotorInput,
    )
        requires
            i32::MIN < old(state).selected_index < i32::MAX,
            self.options.len() < i32::MAX as usize,
        ensures
            final(state).selected_index as int == nav_input_spec(
                self.options@.len() as int,
                old(state).selected_index as int,
                input,
            ),
            *final(_sight) == *old(_sight),
    {
        state.selected_index = match input {
            RotorInput::Up => state.selected_index + 1,
            RotorInput::Down => state.selected_index - 1,
        };
        if state.selected_index < 0 {
            state.selected_index = self.options.len() as i32 - 1;
        } else {
            state.selected_index = state.selected_index % (self.options.len() as i32 + 1);
        }
    }

    /// Clicks the highlighted entry.
    pub fn handle_click(
        &self,
        state: &mut NavigationMenuState,
        _sight: &mut Sight,
    ) -> (r: ClickResult<SettingsMenu>)
        requires
            0 <= old(state).selected_index,
            self.options.len() < i32::MAX as usize,
        ensures
            r == nav_click_spec(self.options@, old(state).selected_index as int),
            *final(state) == *old(state),
            *final(_sight) == *old(_sight),
    {
        if state.selected_index < (self.options.len() as i32) {
            ClickResult::Navigate(self.options[state.selected_index as usize].action)
        } else {
            ClickResult::Back
        }
    }

    /// Draws every entry, highlighting the one under the cursor.
    pub fn draw<R: SettingsRenderer>(
        &self,
        state: &NavigationMenuState,
        display: &mut R,
        _sight: &Sight,
    )
        requires
            0 <= state.selected_index,
    {
        let end = self.options.len();
        let mut index: usize = 0;
        while index < end
            invariant
                end == self.options.len(),
                0 <= state.selected_index,
            decreases end - index,
        {
            let text_type = if index == state.selected_index as usize {
                TextType::Highlighted
            } else {
                TextType::Normal
            };
            display.render_text(self.options[index].label, #[verifier::truncate] (index as u8),
                text_type);
            index = index + 1;
        }
    }
}

} // verus!
