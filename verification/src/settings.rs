//! The settings screens: which menu is open, how rotary input and the
//! push button move through it, and what each page does to the sight.
//! All decisions are made here on plain values; the control loop outside
//! the library reads the encoder and hands its position and button state
//! in.

pub mod rendering;
pub mod settings_page;
pub mod sub_menus;
pub mod ui;

use crate::settings::rendering::SettingsRenderer;
use crate::settings::settings_page::{
    page_click_spec, page_draw, page_handle_click, page_handle_input, page_input_spec,
    SettingsPage, SettingsPageClickResult, SettingsPageState,
};
use crate::settings::sub_menus::{
    about_page, main_menu, sight_menu, AboutPage, MainMenuState, MainMenuType, SightMenu,
};
use crate::settings::ui::{nav_click_spec, nav_input_spec, ClickResult};
use crate::sight::Sight;
use vstd::prelude::*;

verus! {

/// One notch of rotation of the input knob.
#[derive(Clone, Copy, Debug, PartialEq, Eq, Structural)]
pub enum RotorInput {
    /// The knob moved towards the user.
    Up,
    /// The knob moved away from the user.
    Down,
}

/// The menus a click can navigate to.
#[derive(Clone, Copy, Debug, PartialEq, Eq, Structural)]
pub enum SettingsMenu {
    /// The top-level list of sub-menus.
    MainMenu,
    /// The sight zeroing page.
    Sight,
    /// The general settings entry, present in the menu but without a
    /// page of its own.
    Settings,
    /// The firmware information page.
    About,
}

/// The three menus the sight can show, each with its cursor state.
pub struct SubMenuStates {
    /// The top-level navigation menu.
    pub main_menu: MainMenuType,
    /// Cursor of the top-level menu.
    pub main_menu_state: MainMenuState,
    /// The zeroing page.
    pub sight_settings: SightMenu,
    /// Cursor of the zeroing page.
    pub sight_state: SettingsPageState,
    /// The firmware information page.
    pub about: AboutPage,
    /// Cursor of the firmware information page.
    pub about_state: SettingsPageState,
}

impl SubMenuStates {
    /// Builds every menu with a fresh cursor.
    pub fn new() -> (r: Self)
        ensures
            r.main_menu_state.selected_index == 0,
            r.sight_state.active_control == 0 && !r.sight_state.focused,
            r.about_state.active_control == 0 && !r.about_state.focused,
            r.main_menu.options@.len() == 3,
            r.main_menu.options@[0].action == SettingsMenu::Sight,
            r.main_menu.options@[1].action == SettingsMenu::Settings,
            r.main_menu.options@[2].action == SettingsMenu::About,
            r.sight_settings.back_button.action == SettingsPageClickResult::Exit,
            r.about.exit.action == SettingsPageClickResult::Exit,
    {
        SubMenuStates {
            main_menu: main_menu(),
            main_menu_state: MainMenuState { selected_index: 0 },
            sight_settings: sight_menu(),
            sight_state: SettingsPageState::new(),
            about: about_page(),
            about_state: SettingsPageState::new(),
        }
    }
}

/// Which menu is open, where the input knob last stood, and every
/// menu's cursor.
pub struct SettingsState {
    /// The open menu, if the settings are open at all.
    pub current_menu: Option<SettingsMenu>,
    /// The knob position the last input was measured against.
    pub rotor_position: i32,
    /// The menus and their cursors.
    pub states: SubMenuStates,
}

/// The cursor bounds the menu dispatch relies on.
pub open spec fn settings_wf(st: SettingsState) -> bool {
    &&& 0 <= st.states.main_menu_state.selected_index < i32::MAX
    &&& 1 <= st.states.main_menu.options@.len() < i32::MAX as nat
}

/// The state with one sub-cursor replaced.
pub open spec fn with_nav_index(st: SettingsState, idx: int) -> SettingsState {
    SettingsState {
        current_menu: st.current_menu,
        rotor_position: st.rotor_position,
        states: SubMenuStates {
            main_menu: st.states.main_menu,
            main_menu_state: MainMenuState { selected_index: idx as i32 },
            sight_settings: st.states.sight_settings,
            sight_state: st.states.sight_state,
            about: st.states.about,
            about_state: st.states.about_state,
        },
    }
}

/// The state with the zeroing page cursor replaced.
pub open spec fn with_sight_state(st: SettingsState, ps: SettingsPageState) -> SettingsState {
    SettingsState {
        current_menu: st.current_menu,
        rotor_position: st.rotor_position,
        states: SubMenuStates {
            main_menu: st.states.main_menu,
            main_menu_state: st.states.main_menu_state,
            sight_settings: st.states.sight_settings,
            sight_state: ps,
            about: st.states.about,
            about_state: st.states.about_state,
        },
    }
}

/// The state with the information page cursor replaced.
pub open spec fn with_about_state(st: SettingsState, ps: SettingsPageState) -> SettingsState {
    SettingsState {
        current_menu: st.current_menu,
        rotor_position: st.rotor_position,
        states: SubMenuStates {
            main_menu: st.states.main_menu,
            main_menu_state: st.states.main_menu_state,
            sight_settings: st.states.sight_settings,
            sight_state: st.states.sight_state,
            about: st.states.about,
            about_state: ps,
        },
    }
}

/// The state with another menu open (or none).
pub open spec fn with_menu(st: SettingsState, menu: Option<SettingsMenu>) -> SettingsState {
    SettingsState {
        current_menu: menu,
        rotor_position: st.rotor_position,
        states: st.states,
    }
}

/// What one notch of rotation does to the whole settings state and the
/// sight: nothing while the settings are closed, otherwise the open
/// menu handles it.
pub open spec fn rotation_spec(st: SettingsState, sight: Sight, change: RotorInput) -> (
    SettingsState,
    Sight,
) {
    match st.current_menu {
        Option::Some(SettingsMenu::MainMenu) => (
            with_nav_index(
                st,
                nav_input_spec(
                    st.states.main_menu.options@.len() as int,
                    st.states.main_menu_state.selected_index as int,
                    change,
                ),
            ),
            sight,
        ),
        Option::Some(SettingsMenu::Sight) => {
            let stepped = page_input_spec(
                st.states.sight_settings.controls_spec(),
                st.states.sight_state,
                sight,
                change,
            );
            (with_sight_state(st, stepped.0), stepped.1)
        },
        Option::Some(SettingsMenu::About) => {
            let stepped = page_input_spec(
                st.states.about.controls_spec(),
                st.states.about_state,
                sight,
                change,
            );
            (with_about_state(st, stepped.0), stepped.1)
        },
        _ => (st, sight),
    }
}

/// What a press of the knob does: opens the top-level menu when the
/// settings are closed; otherwise the open menu handles the click and
/// its result navigates, backs out, or stays.
pub open spec fn press_spec(st: SettingsState, sight: Sight) -> SettingsState {
    match st.current_menu {
        Option::None => with_menu(st, Option::Some(SettingsMenu::MainMenu)),
        Option::Some(SettingsMenu::MainMenu) => {
            let result = nav_click_spec(
                st.states.main_menu.options@,
                st.states.main_menu_state.selected_index as int,
            );
            match result {
                ClickResult::Navigate(menu) => with_menu(st, Option::Some(menu)),
                ClickResult::Back => with_menu(st, Option::None),
                ClickResult::Nothing => st,
            }
        },
        Option::Some(SettingsMenu::Sight) => {
            let clicked = page_click_spec(
                st.states.sight_settings.controls_spec(),
                st.states.sight_state,
            );
            let st2 = with_sight_state(st, clicked.0);
            match clicked.1 {
                ClickResult::Navigate(menu) => with_menu(st2, Option::Some(menu)),
                ClickResult::Back => with_menu(st2, Option::None),
                ClickResult::Nothing => st2,
            }
        },
        Option::Some(SettingsMenu::About) => {
            let clicked = page_click_spec(st.states.about.controls_spec(), st.states.about_state);
            let st2 = with_about_state(st, clicked.0);
            match clicked.1 {
                ClickResult::Navigate(menu) => with_menu(st2, Option::Some(menu)),
                ClickResult::Back => with_menu(st2, Option::None),
                ClickResult::Nothing => st2,
            }
        },
        _ => st,
    }
}

impl SettingsState {
    /// A closed settings screen with the knob at zero.
    pub fn new() -> (r: Self)
        ensures
            r.current_menu is None,
            r.rotor_position == 0,
            r.states.main_menu_state.selected_index == 0,
            settings_wf(r),
    {
        SettingsState { current_menu: None, rotor_position: 0, states: SubMenuStates::new() }
    }

    /// Whether a settings menu is open.
    pub fn is_open(&self) -> (r: bool)
        ensures
            r <==> self.current_menu is Some,
    {
        self.current_menu.is_some()
    }

    /// Feeds one observation of the knob into the settings: a press
    /// clicks, a changed position rotates, anything else does nothing.
    /// Returns whether the observation was consumed by an open menu or
    /// a press.
    ///
    /// The general settings entry has no page: with it open, input is
    /// a caller error, as it was in the control loop this serves.
    pub fn update(&mut self, sight: &mut Sight, pressed: bool, position: i32) -> (r: bool)
        requires
            settings_wf(*old(self)),
            old(self).current_menu != Some(SettingsMenu::Settings),
        ensures
            settings_wf(*final(self)),
            pressed ==> {
                &&& *final(self) == press_spec(
                    with_rotor(*old(self), position),
                    *old(sight),
                )
                &&& *final(sight) == *old(sight)
                &&& r
            },
            !pressed && old(self).rotor_position == position ==> *final(self) == *old(self)
                && *final(sight) == *old(sight) && !r,
            !pressed && old(self).rotor_position != position ==> ({
                let change = if old(self).rotor_position > position {
                    RotorInput::Up
                } else {
                    RotorInput::Down
                };
                let stepped = rotation_spec(with_rotor(*old(self), position), *old(sight), change);
                &&& *final(self) == stepped.0
                &&& *final(sight) == stepped.1
                &&& (r <==> old(self).current_menu is Some)
            }),
    {
        if pressed {
            self.rotor_position = position;
            self.handle_press(sight)
        } else {
            let change = if self.rotor_position > position {
                RotorInput::Up
            } else if self.rotor_position < position {
                RotorInput::Down
            } else {
                return false;
            };
            self.rotor_position = position;
            self.handle_rotation(sight, change)
        }
    }

    /// Draws the open menu, if any.
    pub fn draw<R: SettingsRenderer>(&self, display: &mut R, sight: &Sight)
        requires
            settings_wf(*self),
            self.current_menu != Some(SettingsMenu::Settings),
    {
        match &self.current_menu {
            Some(SettingsMenu::MainMenu) => {
                self.states.main_menu.draw(&self.states.main_menu_state, display, sight);
            },
            Some(SettingsMenu::Sight) => {
                page_draw(&self.states.sight_settings, &self.states.sight_state, display, sight);
            },
            Some(SettingsMenu::About) => {
                page_draw(&self.states.about, &self.states.about_state, display, sight);
            },
            _ => {
            },
        }
    }

    /// Routes a rotation into the open menu.
    fn handle_rotation(&mut self, sight: &mut Sight, change: RotorInput) -> (r: bool)
        requires
            settings_wf(*old(self)),
            old(self).current_menu != Some(SettingsMenu::Settings),
        ensures
            settings_wf(*final(self)),
            *final(self) == rotation_spec(*old(self), *old(sight), change).0,
            *final(sight) == rotation_spec(*old(self), *old(sight), change).1,
            r <==> old(self).current_menu is Some,
    {
        match &self.current_menu {
            Some(SettingsMenu::MainMenu) => {
                self.states.main_menu.handle_input(
                    &mut self.states.main_menu_state,
                    sight,
                    change,
                );
                proof {
                    let len = self.states.main_menu.options@.len() as int;
                    vstd::arithmetic::div_mod::lemma_mod_division_less_than_divisor(
                        old(self).states.main_menu_state.selected_index as int + 1,
                        len + 1,
                    );
                    vstd::arithmetic::div_mod::lemma_mod_division_less_than_divisor(
                        old(self).states.main_menu_state.selected_index as int - 1,
                        len + 1,
                    );
                }
                true
            },
            Some(SettingsMenu::Sight) => {
                page_handle_input(
                    &self.states.sight_settings,
                    &mut self.states.sight_state,
                    sight,
                    change,
                );
                true
            },
            Some(SettingsMenu::About) => {
                page_handle_input(&self.states.about, &mut self.states.about_state, sight, change);
                true
            },
            _ => false,
        }
    }

    /// Routes a press into the open menu, or opens the top-level menu.
    fn handle_press(&mut self, sight: &mut Sight) -> (r: bool)
        requires
            settings_wf(*old(self)),
            old(self).current_menu != Some(SettingsMenu::Settings),
        ensures
            settings_wf(*final(self)),
            *final(self) == press_spec(*old(self), *old(sight)),
            *final(sight) == *old(sight),
            r,
    {
        match &self.current_menu {
            Some(SettingsMenu::MainMenu) => {
                let result = self.states.main_menu.handle_click(
                    &mut self.states.main_menu_state,
                    sight,
                );
                match result {
                    ClickResult::Navigate(next_menu) => {
                        self.current_menu = Some(next_menu);
                    },
                    ClickResult::Back => {
                        self.current_menu = None;
                    },
                    ClickResult::Nothing => {
                    },
                }
                true
            },
            Some(SettingsMenu::Sight) => {
                let result = page_handle_click(
                    &self.states.sight_settings,
                    &mut self.states.sight_state,
                    sight,
                );
                match result {
                    ClickResult::Navigate(next_menu) => {
                        self.current_menu = Some(next_menu);
                    },
                    ClickResult::Back => {
                        self.current_menu = None;
                    },
                    ClickResult::Nothing => {
                    },
                }
                true
            },
            Some(SettingsMenu::About) => {
                let result = page_handle_click(
                    &self.states.about,
                    &mut self.states.about_state,
                    sight,
                );
                match result {
                    ClickResult::Navigate(next_menu) => {
                        self.current_menu = Some(next_menu);
                    },
                    ClickResult::Back => {
                        self.current_menu = None;
                    },
                    ClickResult::Nothing => {
                    },
                }
                true
            },
            _ => {
                self.current_menu = Some(SettingsMenu::MainMenu);
                true
            },
        }
    }
}

/// The state with the knob position replaced.
pub open spec fn with_rotor(st: SettingsState, position: i32) -> SettingsState {
    SettingsState {
        current_menu: st.current_menu,
        rotor_position: position,
        states: st.states,
    }
}

} // verus!
