//! The concrete menus of the sight: the top-level navigation menu, the
//! zeroing page with its two sliders, and the firmware information
//! page.

use crate::settings::settings_page::{
    Control, NavigationButton, SettingsPage, SettingsPageClickResult, Slider, SliderTarget,
    TextLine,
};
use crate::settings::ui::{MenuOption, NavigationMenu, NavigationMenuState};
use crate::settings::SettingsMenu;
use vstd::prelude::*;

verus! {

/// The top-level menu type.
pub type MainMenuType = NavigationMenu;

/// The top-level menu cursor.
pub type MainMenuState = NavigationMenuState;

/// Builds the top-level menu: sight zeroing, general settings, and the
/// firmware information page.
pub fn main_menu() -> (r: NavigationMenu)
    ensures
        r.options@.len() == 3,
        r.options@[0].action == SettingsMenu::Sight,
        r.options@[1].action == SettingsMenu::Settings,
        r.options@[2].action == SettingsMenu::About,
{
    let mut options: Vec<MenuOption<SettingsMenu>> = Vec::new();
    options.push(MenuOption { label: "Sight", action: SettingsMenu::Sight });
    options.push(MenuOption { label: "Settings", action: SettingsMenu::Settings });
    options.push(MenuOption { label: "About", action: SettingsMenu::About });
    NavigationMenu { options }
}

/// The firmware information page: two text lines and an exit button.
pub struct AboutPage {
    /// The firmware version line.
    pub version: TextLine,
    /// The author line.
    pub author: TextLine,
    /// The exit button.
    pub exit: NavigationButton,
}

impl SettingsPage for AboutPage {
    open spec fn controls_spec(&self) -> Seq<Control> {
        seq![Control::Text(self.version), Control::Text(self.author), Control::Button(self.exit)]
    }

    fn controls(&self) -> (r: Vec<Control>) {
        let mut r: Vec<Control> = Vec::new();
        r.push(Control::Text(self.version));
        r.push(Control::Text(self.author));
        r.push(Control::Button(self.exit));
        proof {
            assert(r@ =~= self.controls_spec());
        }
        r
    }
}

/// Builds the firmware information page.
pub fn about_page() -> (r: AboutPage)
    ensures
        r.exit.action == SettingsPageClickResult::Exit,
{
    AboutPage {
        version: TextLine { text: "Firmware Version: 0.1.0" },
        author: TextLine { text: "Author: Adam Grabski" },
        exit: NavigationButton { label: "Exit", action: SettingsPageClickResult::Exit },
    }
}

/// The zeroing page: sliders for the two zeroing offsets and a back
/// button.
pub struct SightMenu {
    /// Returns to the previous menu.
    pub back_button: NavigationButton,
    /// Adjusts the horizontal zero.
    pub x_slider: Slider,
    /// Adjusts the vertical zero.
    pub y_slider: Slider,
}

impl SettingsPage for SightMenu {
    open spec fn controls_spec(&self) -> Seq<Control> {
        seq![
            Control::Slider(self.x_slider),
            Control::Slider(self.y_slider),
            Control::Button(self.back_button),
        ]
    }

    fn controls(&self) -> (r: Vec<Control>) {
        let mut r: Vec<Control> = Vec::new();
        r.push(Control::Slider(self.x_slider));
        r.push(Control::Slider(self.y_slider));
        r.push(Control::Button(self.back_button));
        proof {
            assert(r@ =~= self.controls_spec());
        }
        r
    }
}

/// Builds the zeroing page: both sliders step within plus and minus
/// fifty pixels.
pub fn sight_menu() -> (r: SightMenu)
    ensures
        r.back_button.action == SettingsPageClickResult::Exit,
        r.x_slider.min == -50 && r.x_slider.max == 50 && r.x_slider.target == SliderTarget::XZero,
        r.y_slider.min == -50 && r.y_slider.max == 50 && r.y_slider.target == SliderTarget::YZero,
{
    SightMenu {
        back_button: NavigationButton { label: "Back", action: SettingsPageClickResult::Exit },
        x_slider: Slider { label: "X Zero", min: -50, max: 50, target: SliderTarget::XZero },
        y_slider: Slider { label: "Y Zero", min: -50, max: 50, target: SliderTarget::YZero },
    }
}

} // verus!
