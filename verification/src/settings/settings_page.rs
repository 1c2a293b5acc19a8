//! A settings page: a fixed list of controls — text lines, sliders
//! bound to a sight field, navigation buttons — with one active control,
//! an optional focus on it, and the page-level input and click handling
//! shared by every page.

use crate::settings::rendering::{SettingsRenderer, TextType};
use crate::settings::ui::ClickResult;
use crate::settings::{RotorInput, SettingsMenu};
use crate::sight::Sight;
use crate::formatting::format_two_digit_16;
use vstd::prelude::*;

verus! {

/// What a click on a control asks the page to do.
#[derive(Clone, Copy, Debug, PartialEq, Eq, Structural)]
pub enum SettingsPageClickResult {
    /// Release the focused control.
    LoseFocus,
    /// Focus the active control.
    GainFocus,
    /// Leave the page.
    Exit,
    /// Switch to another menu.
    Navigate(SettingsMenu),
    /// Do nothing.
    Nothing,
}

/// The sight field a slider adjusts.
#[derive(Clone, Copy, Debug, PartialEq, Eq, Structural)]
pub enum SliderTarget {
    /// The horizontal zeroing offset.
    XZero,
    /// The vertical zeroing offset.
    YZero,
}

/// A button that yields a fixed page action when clicked.
#[derive(Clone, Copy, Debug)]
pub struct NavigationButton {
    /// The text the button is drawn with.
    pub label: &'static str,
    /// The action a click yields.
    pub action: SettingsPageClickResult,
}

/// A slider over a bounded integer field of the sight.
#[derive(Clone, Copy, Debug)]
pub struct Slider {
    /// The text the slider is drawn with.
    pub label: &'static str,
    /// Smallest value the slider steps down to.
    pub min: i16,
    /// Largest value the slider steps up to.
    pub max: i16,
    /// The sight field the slider reads and writes.
    pub target: SliderTarget,
}

/// A line of plain text.
#[derive(Clone, Copy, Debug)]
pub struct TextLine {
    /// The text of the line.
    pub text: &'static str,
}

/// The value a slider currently shows.
pub open spec fn slider_current(s: Slider, sight: Sight) -> i16 {
    match s.target {
        SliderTarget::XZero => sight.x_zero as i16,
        SliderTarget::YZero => sight.y_zero as i16,
    }
}

/// The value after one notch of rotation: one step towards the bound,
/// stopping at it.
pub open spec fn slider_stepped(s: Slider, sight: Sight, input: RotorInput) -> i16 {
    let cur = slider_current(s, sight);
    match input {
        RotorInput::Up => if cur < s.max {
            (cur + 1) as i16
        } else {
            cur
        },
        RotorInput::Down => if cur > s.min {
            (cur - 1) as i16
        } else {
            cur
        },
    }
}

/// The sight with the slider's target field set to the given value.
pub open spec fn slider_applied(s: Slider, sight: Sight, value: i16) -> Sight {
    match s.target {
        SliderTarget::XZero => Sight {
            x_zero: value as i8,
            y_zero: sight.y_zero,
            battery_power: sight.battery_power,
            range: sight.range,
            last_range: sight.last_range,
            configuration: sight.configuration,
            drift: sight.drift,
        },
        SliderTarget::YZero => Sight {
            x_zero: sight.x_zero,
            y_zero: value as i8,
            battery_power: sight.battery_power,
            range: sight.range,
            last_range: sight.last_range,
            configuration: sight.configuration,
            drift: sight.drift,
        },
    }
}

/// One control of a settings page.  Rotation may adjust the sight;
/// a click never changes the sight, only reports what the page should
/// do.
pub trait SettingsPageControl: Sized {
    /// What handling one notch of rotation does to the sight.
    spec fn input_spec(&self, sight: Sight, input: RotorInput) -> Sight;

    /// What a click yields, given whether the control holds focus.
    spec fn click_spec(&self, has_focus: bool) -> SettingsPageClickResult;

    /// Applies one notch of rotation.
    fn handle_input(&self, sight: &mut Sight, input: RotorInput)
        ensures
            *final(sight) == self.input_spec(*old(sight), input),
    ;

    /// Reports what a click on this control does.
    fn handle_click(&self, has_focus: bool, sight: &mut Sight) -> (r: SettingsPageClickResult)
        ensures
            *final(sight) == *old(sight),
            r == self.click_spec(has_focus),
    ;
}

impl SettingsPageControl for TextLine {
    open spec fn input_spec(&self, sight: Sight, input: RotorInput) -> Sight {
        sight
    }

    open spec fn click_spec(&self, has_focus: bool) -> SettingsPageClickResult {
        SettingsPageClickResult::Nothing
    }

    fn handle_input(&self, _sight: &mut Sight, _input: RotorInput) {
        // Text lines do not handle input
    }

    fn handle_click(&self, _has_focus: bool, _sight: &mut Sight) -> (r: SettingsPageClickResult) {
        SettingsPageClickResult::Nothing
    }
}

impl SettingsPageControl for Slider {
    open spec fn input_spec(&self, sight: Sight, input: RotorInput) -> Sight {
        slider_applied(*self, sight, slider_stepped(*self, sight, input))
    }

    open spec fn click_spec(&self, has_focus: bool) -> SettingsPageClickResult {
        if has_focus {
            SettingsPageClickResult::LoseFocus
        } else {
            SettingsPageClickResult::GainFocus
        }
    }

    fn handle_input(&self, sight: &mut Sight, input: RotorInput) {
        let mut current_value: i16 = match self.target {
            SliderTarget::XZero => sight.x_zero as i16,
            SliderTarget::YZero => sight.y_zero as i16,
        };
        // Step towards the bound, stopping at it
        match input {
            RotorInput::Up => {
                if current_value < self.max {
                    current_value = current_value + 1;
                }
            },
            RotorInput::Down => {
                if current_value > self.min {
                    current_value = current_value - 1;
                }
            },
        }
        match self.target {
            SliderTarget::XZero => {
                sight.x_zero = #[verifier::truncate] (current_value as i8);
            },
            SliderTarget::YZero => {
                sight.y_zero = #[verifier::truncate] (current_value as i8);
            },
        }
    }

    fn handle_click(&self, has_focus: bool, _sight: &mut Sight) -> (r: SettingsPageClickResult) {
        if has_focus {
            SettingsPageClickResult::LoseFocus
        } else {
            SettingsPageClickResult::GainFocus
        }
    }
}

impl SettingsPageControl for NavigationButton {
    open spec fn input_spec(&self, sight: Sight, input: RotorInput) -> Sight {
        sight
    }

    open spec fn click_spec(&self, has_focus: bool) -> SettingsPageClickResult {
        self.action
    }

    fn handle_input(&self, _sight: &mut Sight, _input: RotorInput) {
        // Buttons do not handle input
    }

    fn handle_click(&self, _has_focus: bool, _sight: &mut Sight) -> (r: SettingsPageClickResult) {
        // Yield the action associated with the button
        self.action
    }
}

/// One control slot of a page, ready for dispatch without dynamic
/// calls.
#[derive(Clone, Copy, Debug)]
pub enum Control {
    /// A plain text line.
    Text(TextLine),
    /// A fixed-action button.
    Button(NavigationButton),
    /// A slider bound to a sight field.
    Slider(Slider),
}

/// What rotation on a control slot does to the sight.
pub open spec fn control_input_spec(c: Control, sight: Sight, input: RotorInput) -> Sight {
    match c {
        Control::Text(t) => t.input_spec(sight, input),
        Control::Button(b) => b.input_spec(sight, input),
        Control::Slider(s) => s.input_spec(sight, input),
    }
}

/// What a click on a control slot yields.
pub open spec fn control_click_spec(c: Control, has_focus: bool) -> SettingsPageClickResult {
    match c {
        Control::Text(t) => t.click_spec(has_focus),
        Control::Button(b) => b.click_spec(has_focus),
        Control::Slider(s) => s.click_spec(has_focus),
    }
}

impl Control {
    /// Applies one notch of rotation to the wrapped control.
    pub fn handle_input(&self, sight: &mut Sight, input: RotorInput)
        ensures
            *final(sight) == control_input_spec(*self, *old(sight), input),
    {
        match self {
            Control::Text(t) => t.handle_input(sight, input),
            Control::Button(b) => b.handle_input(sight, input),
            Control::Slider(s) => s.handle_input(sight, input),
        }
    }

    /// Clicks the wrapped control.
    pub fn handle_click(&self, has_focus: bool, sight: &mut Sight) -> (r: SettingsPageClickResult)
        ensures
            *final(sight) == *old(sight),
            r == control_click_spec(*self, has_focus),
    {
        match self {
            Control::Text(t) => t.handle_click(has_focus, sight),
            Control::Button(b) => b.handle_click(has_focus, sight),
            Control::Slider(s) => s.handle_click(has_focus, sight),
        }
    }

    /// Draws the wrapped control on its row.
    pub fn draw<R: SettingsRenderer>(
        &self,
        display: &mut R,
        sight: &Sight,
        row: u8,
        active: bool,
        focused: bool,
    ) {
        match self {
            Control::Text(t) => {
                display.render_text(t.text, row, if active {
                    TextType::Highlighted
                } else {
                    TextType::Normal
                });
            },
            Control::Button(b) => {
                display.render_text(b.label, row, if active {
                    TextType::Highlighted
                } else {
                    TextType::Normal
                });
            },
            Control::Slider(s) => {
                display.render_text(s.label, row, if active {
                    if focused {
                        TextType::Selected
                    } else {
                        TextType::Highlighted
                    }
                } else {
                    TextType::Normal
                });
                if active {
                    display.render_sight_preview(sight);
                    let current: i16 = match s.target {
                        SliderTarget::XZero => sight.x_zero as i16,
                        SliderTarget::YZero => sight.y_zero as i16,
                    };
                    let mut buffer: Vec<u8> = vec![65u8, 66u8, 67u8, 68u8];
                    format_two_digit_16(current, &mut buffer);
                    display.render_aditional_text(&buffer, row, TextType::Normal, 4);
                }
            },
        }
    }
}

/// A settings page is its list of controls.
pub trait SettingsPage: Sized {
    /// The page's controls, in display order.
    spec fn controls_spec(&self) -> Seq<Control>;

    /// Builds the page's controls.  Every page has at least one.
    fn controls(&self) -> (r: Vec<Control>)
        ensures
            r@ == self.controls_spec(),
            r@.len() >= 1,
    ;
}

/// The cursor of a settings page: which control is active, and whether
/// it holds focus.
#[derive(Clone, Copy, Debug, PartialEq, Eq, Structural)]
pub struct SettingsPageState {
    /// Index of the active control.
    pub active_control: usize,
    /// Whether the active control is being edited.
    pub focused: bool,
}

impl SettingsPageState {
    /// A fresh cursor: first control, not focused.
    pub fn new() -> (r: Self)
        ensures
            r.active_control == 0,
            !r.focused,
    {
        SettingsPageState { active_control: 0, focused: false }
    }
}

/// What one notch of rotation does on a page: forwarded to the focused
/// control, or else moving the cursor within bounds, resetting it to
/// the top if it ran past the end.
pub open spec fn page_input_spec(
    controls: Seq<Control>,
    state: SettingsPageState,
    sight: Sight,
    input: RotorInput,
) -> (SettingsPageState, Sight) {
    if state.active_control < controls.len() && state.focused {
        (state, control_input_spec(controls[state.active_control as int], sight, input))
    } else {
        let moved = match input {
            RotorInput::Up => if state.active_control > 0 {
                state.active_control - 1
            } else {
                state.active_control as int
            },
            RotorInput::Down => if (state.active_control as int) < controls.len() - 1 {
                state.active_control + 1
            } else {
                state.active_control as int
            },
        };
        let reset = if moved >= controls.len() {
            0int
        } else {
            moved
        };
        (SettingsPageState { active_control: reset as usize, focused: state.focused }, sight)
    }
}

/// What a click does on a page: the active control decides, and the
/// page folds the decision into its cursor and the menu-level result.
pub open spec fn page_click_spec(
    controls: Seq<Control>,
    state: SettingsPageState,
) -> (SettingsPageState, ClickResult<SettingsMenu>) {
    if state.active_control < controls.len() {
        let decision = control_click_spec(controls[state.active_control as int], state.focused);
        match decision {
            SettingsPageClickResult::LoseFocus => (
                SettingsPageState { active_control: state.active_control, focused: false },
                ClickResult::Nothing,
            ),
            SettingsPageClickResult::GainFocus => (
                SettingsPageState { active_control: state.active_control, focused: true },
                ClickResult::Nothing,
            ),
            SettingsPageClickResult::Exit => (state, ClickResult::Back),
            SettingsPageClickResult::Navigate(menu) => (state, ClickResult::Navigate(menu)),
            SettingsPageClickResult::Nothing => (state, ClickResult::Nothing),
        }
    } else {
        (state, ClickResult::Nothing)
    }
}

/// Routes one notch of rotation into a page.
pub fn page_handle_input<T: SettingsPage>(
    page: &T,
    state: &mut SettingsPageState,
    sight: &mut Sight,
    input: RotorInput,
)
    ensures
        *final(state) == page_input_spec(page.controls_spec(), *old(state), *old(sight), input).0,
        *final(sight) == page_input_spec(page.controls_spec(), *old(state), *old(sight), input).1,
{
    let controls = page.controls();
    if state.active_control < controls.len() && state.focused {
        let control = &controls[state.active_control];
        control.handle_input(sight, input);
    } else {
        match input {
            RotorInput::Up => {
                if state.active_control > 0 {
                    state.active_control = state.active_control - 1;
                }
            },
            RotorInput::Down => {
                if state.active_control < controls.len() - 1 {
                    state.active_control = state.active_control + 1;
                }
            },
        }
        if state.active_control >= controls.len() {
            state.active_control = 0;  // Reset to the first control if out of bounds
        }
    }
}

/// Routes a click into a page.
pub fn page_handle_click<T: SettingsPage>(
    page: &T,
    state: &mut SettingsPageState,
    sight: &mut Sight,
) -> (r: ClickResult<SettingsMenu>)
    ensures
        *final(state) == page_click_spec(page.controls_spec(), *old(state)).0,
        r == page_click_spec(page.controls_spec(), *old(state)).1,
        *final(sight) == *old(sight),
{
    let controls = page.controls();
    if state.active_control < controls.len() {
        let result = controls[state.active_control].handle_click(state.focused, sight);
        match result {
            SettingsPageClickResult::LoseFocus => {
                state.focused = false;
                ClickResult::Nothing
            },
            SettingsPageClickResult::GainFocus => {
                state.focused = true;
                ClickResult::Nothing
            },
            SettingsPageClickResult::Exit => ClickResult::Back,
            SettingsPageClickResult::Navigate(menu) => ClickResult::Navigate(menu),
            SettingsPageClickResult::Nothing => ClickResult::Nothing,
        }
    } else {
        ClickResult::Nothing
    }
}

/// Draws every control of a page, marking the active and focused one.
pub fn page_draw<T: SettingsPage, R: SettingsRenderer>(
    page: &T,
    state: &SettingsPageState,
    display: &mut R,
    sight: &Sight,
)
{
    let controls = page.controls();
    let end = controls.len();
    let mut index: usize = 0;
    while index < end
        invariant
            end == controls.len(),
        decreases end - index,
    {
        let active = index == state.active_control;
        controls[index].draw(display, sight, #[verifier::truncate] (index as u8), active, active
            && state.focused);
        index = index + 1;
    }
}

} // verus!
