//! Settings that are kept.
use ronsole::config::{
    config_entries, config_path, format_config_content, normalize_scroll_sensitivity,
    normalize_terminal_font_size, parse_config_content, AppConfig, RgbColor, DEFAULT_SCROLL_SENSITIVITY,
    DEFAULT_TERMINAL_FONT_SIZE, MAX_SCROLL_SENSITIVITY, MAX_TERMINAL_FONT_SIZE,
    MIN_SCROLL_SENSITIVITY, MIN_TERMINAL_FONT_SIZE, SCROLL_SENSITIVITY_STEP,
    TERMINAL_FONT_SIZE_STEP,
};
use ronsole::number::reading::{read_double, read_single};
use ronsole::number::{
    add_within, close, push_double, push_hundredths, push_single, push_thousandths, single_rounded,
};

#[test]
fn config_defaults_match_terminal_display_contract() {
    let config = AppConfig::default();
    assert_eq!(f64::from_bits(config.window_width), 1100.0);
    assert_eq!(f64::from_bits(config.window_height), 720.0);
    assert_eq!(f32::from_bits(config.terminal_font_size), 16.0);
    assert_eq!(f32::from_bits(config.scroll_sensitivity), 1.0);
}

#[test]
fn config_round_trip_preserves_supported_values() {
    let config = AppConfig {
        window_width: 1280.0f64.to_bits(),
        window_height: 800.0f64.to_bits(),
        terminal_font_size: 21.0f32.to_bits(),
        scroll_sensitivity: 1.75f32.to_bits(),
        ..AppConfig::default()
    };
    assert_eq!(parse_config_content(&format_config_content(&config)), config);
}

#[test]
fn config_parser_ignores_unknown_and_recovers_from_malformed_values() {
    let config = parse_config_content(
        "unknown=42\nwindow_width=nope\nwindow_height=0\nterminal_font_size=NaN\nscroll_sensitivity=inf\n",
    );
    assert_eq!(config, AppConfig::default());
}

#[test]
fn config_parser_clamps_supported_settings_and_rejects_nonfinite_values() {
    let low = parse_config_content("terminal_font_size=-5\nscroll_sensitivity=-1\n");
    assert_eq!(low.terminal_font_size, MIN_TERMINAL_FONT_SIZE);
    assert_eq!(low.scroll_sensitivity, MIN_SCROLL_SENSITIVITY);

    let high = parse_config_content("terminal_font_size=100\nscroll_sensitivity=99\n");
    assert_eq!(high.terminal_font_size, MAX_TERMINAL_FONT_SIZE);
    assert_eq!(high.scroll_sensitivity, MAX_SCROLL_SENSITIVITY);

    for invalid in ["NaN", "inf", "-inf"] {
        let parsed = parse_config_content(&format!(
            "terminal_font_size={invalid}\nscroll_sensitivity={invalid}\n"
        ));
        assert_eq!(parsed.terminal_font_size, DEFAULT_TERMINAL_FONT_SIZE);
        assert_eq!(parsed.scroll_sensitivity, DEFAULT_SCROLL_SENSITIVITY);
    }
}

#[test]
fn last_line_of_a_setting_counts() {
    let entries = config_entries(" window_width = 1 \nwindow_width=2=3\nnothing\n=\n");
    assert_eq!(entries.window_width.as_deref(), Some("2=3"));
    assert_eq!(entries.window_height, None);
}

#[test]
fn settings_are_written_with_fixed_places() {
    let content = format_config_content(&AppConfig::default());
    assert_eq!(
        content,
        "window_width=1100.000\nwindow_height=720.000\nterminal_font_size=16.00\nscroll_sensitivity=1.00\n"
    );
    let mut out = String::new();
    push_hundredths(&mut out, 1205);
    assert_eq!(out, "12.05");
    push_thousandths(&mut out, 70_041);
    assert_eq!(out, "12.0570.041");
    assert_eq!(
        config_path(Some(b"/home/u/.config".to_vec())),
        Some(b"/home/u/.config/ronsole/config".to_vec())
    );
    assert_eq!(config_path(None), None);
}

#[test]
fn colors_are_written_and_read() {
    let color = RgbColor::new(0x12, 0xab, 0xcf);
    assert_eq!(color.to_hex(), "#12ABCF");
    assert_eq!(RgbColor::parse_hex("#12abCF"), Some(color));
    assert_eq!(RgbColor::parse_hex("12abCF"), None);
    assert_eq!(RgbColor::parse_hex("#12abC"), None);
    assert_eq!(RgbColor::parse_hex("#12abCG"), None);
    assert_eq!(RgbColor::default_background().to_hex(), "#282A36");
}

#[test]
fn steps_stop_at_the_bounds() {
    let mut config = AppConfig::default();
    assert!(config.adjust_terminal_font_size(TERMINAL_FONT_SIZE_STEP));
    assert_eq!(f32::from_bits(config.terminal_font_size), 17.0);
    for _ in 0..40 {
        config.adjust_terminal_font_size(TERMINAL_FONT_SIZE_STEP);
    }
    assert_eq!(config.terminal_font_size, MAX_TERMINAL_FONT_SIZE);
    assert!(!config.adjust_terminal_font_size(TERMINAL_FONT_SIZE_STEP));
    assert!(config.adjust_scroll_sensitivity(-SCROLL_SENSITIVITY_STEP));
    assert_eq!(f32::from_bits(config.scroll_sensitivity), 1.0 - 0.1);
    let (five, six) = (5.0f64.to_bits(), 6.25f64.to_bits());
    assert!(config.set_window_size(five, six));
    assert!(!config.set_window_size(five, six));
    for wrong in [0.0, -0.0, -1.0, f64::INFINITY, f64::NEG_INFINITY, f64::NAN] {
        assert!(!config.set_window_size(wrong.to_bits(), six));
        assert!(!config.set_window_size(five, wrong.to_bits()));
    }
    assert_eq!(normalize_terminal_font_size(12.345f32.to_bits()), 12.345f32.to_bits());
    assert_eq!(normalize_terminal_font_size(f32::NAN.to_bits()), DEFAULT_TERMINAL_FONT_SIZE);
    assert_eq!(normalize_terminal_font_size((-0.0f32).to_bits()), MIN_TERMINAL_FONT_SIZE);
    assert_eq!(normalize_scroll_sensitivity(0.01f32.to_bits()), MIN_SCROLL_SENSITIVITY);
}

#[test]
fn numbers_are_kept_as_they_were_given() {
    let config = parse_config_content(
        "window_width=1100.0004\nwindow_height=1e-7\nterminal_font_size=16.005\nscroll_sensitivity=1.2345678\n",
    );
    assert_eq!(f64::from_bits(config.window_width), 1100.0004);
    assert_eq!(f64::from_bits(config.window_height), 1e-7);
    assert_eq!(f32::from_bits(config.terminal_font_size), 16.005);
    assert_eq!(f32::from_bits(config.scroll_sensitivity), 1.2345678);
}

#[test]
fn settings_with_few_places_are_read_back() {
    for i in (0..2300u32).step_by(7) {
        let size = 10.0 + i as f32 / 100.0;
        let text = format!("{size:.2}");
        let size = text.parse::<f32>().unwrap().clamp(10.0, 32.0);
        let sensitivity = (0.25 + i as f32 / 100.0).clamp(0.25, 3.0);
        let sensitivity = format!("{sensitivity:.2}").parse::<f32>().unwrap();
        let width = format!("{}.{:03}", 7 + i * 977, i % 1000).parse::<f64>().unwrap();
        let config = AppConfig {
            window_width: width.to_bits(),
            window_height: (width * 1e9).round().to_bits(),
            terminal_font_size: size.to_bits(),
            scroll_sensitivity: sensitivity.to_bits(),
            ..AppConfig::default()
        };
        assert_eq!(parse_config_content(&format_config_content(&config)), config);
    }
}

#[test]
fn large_and_small_numbers_are_written_with_three_places() {
    let values = [
        1e-320, 5e-324, 0.0004, 0.0005, 0.0015, 0.0025, 0.0125, 0.0625, 1.0005, 1100.0, 720.125,
        4503599627370497.5, 9007199254740993.0, 1e16, 1.5e18, 1e19, 1.8446744073709552e19, 1e20,
        1e22, 1e100, 1.7976931348623157e308,
    ];
    for value in values {
        let mut out = String::new();
        push_double(&mut out, f64::to_bits(value));
        assert_eq!(out, format!("{value:.3}"));
    }
}

#[test]
fn sums_are_rounded_as_numbers_of_32_bits() {
    let low = MIN_SCROLL_SENSITIVITY;
    let high = MAX_TERMINAL_FONT_SIZE;
    let mut bits: u32 = low;
    while bits <= high {
        let value = f32::from_bits(bits);
        for (delta, step) in [
            (SCROLL_SENSITIVITY_STEP, 0.1f32),
            (-SCROLL_SENSITIVITY_STEP, -0.1),
            (TERMINAL_FONT_SIZE_STEP, 1.0),
            (-TERMINAL_FONT_SIZE_STEP, -1.0),
        ] {
            let sum = (value + step).clamp(0.25, 32.0);
            assert_eq!(f32::from_bits(add_within(bits, delta, low, high)), sum);
        }
        let near = bits + bits % 40;
        if near <= high {
            let apart = (f32::from_bits(near) - value).abs();
            assert_eq!(close(bits, near), apart < f32::EPSILON);
        }
        let mut out = String::new();
        push_single(&mut out, bits);
        assert_eq!(out, format!("{value:.2}"));
        assert_eq!(format!("{}", single_rounded(bits, 1)), format!("{value:.0}"));
        bits += 9973;
    }
    assert_eq!(single_rounded(10.5f32.to_bits(), 1), 10);
    assert_eq!(single_rounded(11.5f32.to_bits(), 1), 12);
}

#[test]
fn texts_are_read_as_the_nearest_numbers() {
    let texts = [
        "0", "-0", "+0.0", "1", "-1.5", "+2.", ".25", "1e3", "1E+3", "1.e-3", "12.5e1", "0.1", "0.3",
        "1e22", "1e23", "8.5e22", "9007199254740993", "9007199254740992.5", "9007199254740993.0001",
        "4.9e-324", "2.4703282292062327e-324", "2.4703282292062328e-324", "2e-324", "1e-400",
        "2.2250738585072011e-308", "1.7976931348623157e308", "1.7976931348623158e308",
        "1.7976931348623159e308", "1e309", "-1e309", "1e99999999999999999999999999999999999999",
        "1e-99999999999999999999999999999999999999", "0e99999999999999999999999999999999999999",
        "00000000000000000000000000000000012.50", "3.4028235e38", "3.4028236e38", "1.4e-45", "7e-46",
        "16777217", "16777219", "0.1000000014901161193847656250000000000001", "16.005",
        "123456789012345678901234567890123456789012345678901234567890e-50",
        "", "+", "-", ".", "e5", ".e5", "1e", "1e+", "1e5.5", "1..2", "1.2.3", "--1", "1 ", " 1", "0x10",
        "1_000", "nan", "inf", "-infinity", "NaN", "1e5e5", "\u{661}",
    ];
    for text in texts {
        let double = text.parse::<f64>().ok().filter(|value| value.is_finite());
        assert_eq!(read_double(text), double.map(f64::to_bits), "{text}");
        let single = text.parse::<f32>().ok().filter(|value| value.is_finite());
        assert_eq!(read_single(text), single.map(f32::to_bits), "{text}");
    }
}
