use ballistic_sight::ballistic_calculator::{BBDrift, CalculatorConfiguration, Float};
use ballistic_sight::encoder::RotaryEncoder;
use ballistic_sight::formatting::{absolute_difference, format_two_digit, format_two_digit_16};
use ballistic_sight::settings::rendering::{SettingsRenderer, TextType};
use ballistic_sight::settings::{SettingsMenu, SettingsState};
use ballistic_sight::sight::{Point, Sight};

fn make_sight() -> Sight {
    Sight {
        x_zero: 0,
        y_zero: 0,
        battery_power: 15,
        range: 33,
        last_range: 0,
        configuration: CalculatorConfiguration::default(),
        drift: BBDrift::default(),
    }
}

struct RecordingRenderer {
    lines: Vec<(String, u8)>,
}

impl SettingsRenderer for RecordingRenderer {
    fn render_text(&mut self, text: &str, row: u8, _text_type: TextType) {
        self.lines.push((text.to_string(), row));
    }

    fn render_aditional_text(&mut self, text: &Vec<u8>, row: u8, _text_type: TextType, _length: u8) {
        self.lines.push((String::from_utf8(text.clone()).unwrap(), row));
    }

    fn render_sight_preview(&mut self, _sight: &Sight) {}
}

#[test]
fn test_point_of_aim_centers_reticle() {
    let mut sight = make_sight();
    sight.x_zero = -4;
    sight.y_zero = 6;
    let p = sight.point_of_aim();
    assert_eq!(p, Point::new(60, 54));
}

#[test]
fn test_point_of_impact_with_zero_drift() {
    let sight = make_sight();
    let poi = sight.calculated_point_of_impact();
    assert_eq!(poi, sight.point_of_aim());
}

#[test]
fn test_sight_update_recomputes_once() {
    let mut sight = make_sight();
    sight.range = 10;
    sight.update();
    assert_eq!(sight.last_range, 10);
    assert!(sight.drift.drift_y.numerator < 0);

    let before = sight.clone();
    sight.update();
    assert_eq!(sight, before);
}

#[test]
fn test_settings_press_opens_main_menu() {
    let mut settings = SettingsState::new();
    let mut sight = make_sight();
    assert!(!settings.is_open());
    let consumed = settings.update(&mut sight, true, 0);
    assert!(consumed);
    assert!(settings.is_open());
    assert_eq!(settings.current_menu, Some(SettingsMenu::MainMenu));
}

#[test]
fn test_settings_navigate_to_sight_page_and_slide() {
    let mut settings = SettingsState::new();
    let mut sight = make_sight();
    settings.update(&mut sight, true, 0);
    // The cursor starts on the first entry: the sight page.
    settings.update(&mut sight, true, 0);
    assert_eq!(settings.current_menu, Some(SettingsMenu::Sight));

    // Focus the first control (the horizontal slider), then turn the
    // knob one notch up.
    settings.update(&mut sight, true, 0);
    let moved = settings.update(&mut sight, false, -1);
    assert!(moved);
    assert_eq!(sight.x_zero, 1);
    assert_eq!(sight.y_zero, 0);
}

#[test]
fn test_settings_unmoved_knob_is_ignored() {
    let mut settings = SettingsState::new();
    let mut sight = make_sight();
    let before = sight.clone();
    let consumed = settings.update(&mut sight, false, 0);
    assert!(!consumed);
    assert_eq!(sight, before);
    assert!(!settings.is_open());
}

#[test]
fn test_settings_draw_main_menu_lists_entries() {
    let mut settings = SettingsState::new();
    let mut sight = make_sight();
    settings.update(&mut sight, true, 0);
    let mut renderer = RecordingRenderer { lines: Vec::new() };
    settings.draw(&mut renderer, &sight);
    let labels: Vec<&str> = renderer.lines.iter().map(|(s, _)| s.as_str()).collect();
    assert_eq!(labels, vec!["Sight", "Settings", "About"]);
}

#[test]
fn test_encoder_counts_edges() {
    let mut encoder = RotaryEncoder::new(false);
    assert_eq!(encoder.position(), 0);

    // Rising edge with line B low: one step forward.
    encoder.update(true, false);
    assert_eq!(encoder.position(), 1);
    // Falling edge: no movement.
    encoder.update(false, false);
    assert_eq!(encoder.position(), 1);
    // Rising edge with line B high: one step back.
    encoder.update(true, true);
    assert_eq!(encoder.position(), 0);
    // No edge: no movement.
    encoder.update(true, true);
    assert_eq!(encoder.position(), 0);

    encoder.reset();
    assert_eq!(encoder.position(), 0);
}

#[test]
fn test_format_two_digit_writes_last_three() {
    let mut buf: Vec<u8> = b"RNG: XXX".to_vec();
    format_two_digit(207, &mut buf);
    assert_eq!(&buf, b"RNG: 207");

    let mut buf: Vec<u8> = b"XXX".to_vec();
    format_two_digit(9, &mut buf);
    assert_eq!(&buf, b"009");
}

#[test]
fn test_format_two_digit_16_signs() {
    let mut buf: Vec<u8> = b"ABCD".to_vec();
    format_two_digit_16(-42, &mut buf);
    assert_eq!(&buf, b"-042");

    let mut buf: Vec<u8> = b"ABCD".to_vec();
    format_two_digit_16(317, &mut buf);
    assert_eq!(&buf, b" 317");
}

#[test]
fn test_absolute_difference() {
    assert_eq!(absolute_difference(10, 3), 7);
    assert_eq!(absolute_difference(3, 10), 7);
    assert_eq!(absolute_difference(255, 0), 255);
    assert_eq!(absolute_difference(8, 8), 0);
}
