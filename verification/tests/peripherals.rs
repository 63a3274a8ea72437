use wand_control::button::{ActiveLevel, ButtonConfig, ButtonEvent};
use wand_control::led_strip::{LedColorFormat, LedModel, LedStripConfig};
use wand_control::ntc::{ThermistorCircuitMode, ThermistorConfig};

#[test]
fn default_button() {
    let config = ButtonConfig::default();
    assert_eq!(config.long_press_time, None);
    assert_eq!(config.short_press_time, None);
    assert_eq!(config.active_level, ActiveLevel::High);
    assert!(!config.enable_power_save);
    assert!(!config.disable_pull);
}

#[test]
fn active_level_codes() {
    assert_eq!(ActiveLevel::Low.code(), 0);
    assert_eq!(ActiveLevel::High.code(), 1);
}

#[test]
fn button_event_codes() {
    let all = [
        ButtonEvent::PressDown,
        ButtonEvent::PressUp,
        ButtonEvent::PressRepeat,
        ButtonEvent::PressRepeatDone,
        ButtonEvent::SingleClick,
        ButtonEvent::DoubleClick,
        ButtonEvent::MultipleClick,
        ButtonEvent::LongPressStart,
        ButtonEvent::LongPressHold,
        ButtonEvent::LongPressUp,
        ButtonEvent::PressEnd,
        ButtonEvent::EventMax,
        ButtonEvent::NonePress,
    ];
    for (number, event) in all.iter().enumerate() {
        assert_eq!(event.code(), number as u32);
        assert_eq!(ButtonEvent::from_code(number as u32), Some(*event));
    }
    assert_eq!(ButtonEvent::from_code(13), None);
    assert_eq!(ButtonEvent::from_code(u32::MAX), None);
    assert_eq!(ButtonEvent::default(), ButtonEvent::PressDown);
}

#[test]
fn led_model_codes() {
    assert_eq!(LedModel::WS2812.code(), 0);
    assert_eq!(LedModel::SK6812.code(), 1);
    assert_eq!(LedModel::WS2811.code(), 2);
}

#[test]
fn colour_formats() {
    assert_eq!(
        LedColorFormat::grb(),
        LedColorFormat { r_pos: 1, g_pos: 0, b_pos: 2, w_pos: 3, num_components: 3 }
    );
    assert_eq!(
        LedColorFormat::grbw(),
        LedColorFormat { r_pos: 1, g_pos: 0, b_pos: 2, w_pos: 3, num_components: 4 }
    );
    assert_eq!(
        LedColorFormat::rgb(),
        LedColorFormat { r_pos: 0, g_pos: 1, b_pos: 2, w_pos: 3, num_components: 3 }
    );
    assert_eq!(
        LedColorFormat::rgbw(),
        LedColorFormat { r_pos: 0, g_pos: 1, b_pos: 2, w_pos: 3, num_components: 4 }
    );
}

#[test]
fn strip_settings_hold_their_values() {
    let config = LedStripConfig { max_leds: 4, model: LedModel::WS2812, color_format: LedColorFormat::grb() };
    assert_eq!(config.max_leds, 4);
    assert_eq!(config.model.code(), 0);
    assert_eq!(config.color_format.num_components, 3);
}

#[test]
fn thermistor_codes() {
    assert_eq!(ThermistorCircuitMode::NtcVcc.code(), 0);
    assert_eq!(ThermistorCircuitMode::NtcGnd.code(), 1);
    let config = ThermistorConfig {
        b_value: 3950,
        r25_ohm: 10000,
        fixed_ohm: 10000,
        vdd_mv: 3300,
        circuit_mode: ThermistorCircuitMode::NtcGnd,
    };
    assert_eq!(config.circuit_mode.code(), 1);
    assert_eq!(config.b_value, 3950);
}
