use riri_imgui_vulkano::logger::{
    fmt_game_module, fmt_log_level, format_log_line, get_game_code, log_level_for_severity,
    multiplayer_get_color, Escape5B, LogColor, LogLevel, Logger, TerminalEscape,
    TerminalFormat, TrueColor,
};

#[test]
fn escape_sequences() {
    assert_eq!(Escape5B::get_escape(), "\x1b[");
    assert_eq!(Escape5B::get_return(), "m");
    let c = LogColor::from_rgb_u8(1, 22, 255);
    assert_eq!(TrueColor::set_foreground_color_code::<Escape5B>(c), "\x1b[38;2;1;22;255m");
    assert_eq!(TrueColor::reset::<Escape5B>(), "\x1b[0m");
}

#[test]
fn level_colors() {
    assert_eq!(multiplayer_get_color(LogLevel::Verbose), LogColor::from_rgb_u8(255, 192, 203));
    assert_eq!(multiplayer_get_color(LogLevel::Debug), LogColor::from_rgb_u8(238, 130, 238));
    assert_eq!(multiplayer_get_color(LogLevel::Information), LogColor::from_rgb_u8(255, 105, 180));
    assert_eq!(multiplayer_get_color(LogLevel::Warning), LogColor::from_rgb_u8(244, 164, 96));
    assert_eq!(multiplayer_get_color(LogLevel::Error), LogColor::from_rgb_u8(255, 0, 0));
    let c = LogColor::from_rgb_u8(9, 8, 7);
    assert_eq!((c.get_red(), c.get_green(), c.get_blue()), (9, 8, 7));
}

#[test]
fn log_levels_are_padded_to_five() {
    assert_eq!(fmt_log_level(LogLevel::Error), "[\x1b[38;2;255;0;0mERROR\x1b[0m]");
    assert_eq!(fmt_log_level(LogLevel::Information), "[\x1b[38;2;255;105;180mINFO \x1b[0m]");
    assert_eq!(fmt_log_level(LogLevel::Verbose), "[\x1b[38;2;255;192;203mVERB \x1b[0m]");
    assert_eq!(fmt_log_level(LogLevel::Warning), "[\x1b[38;2;244;164;96mWARN \x1b[0m]");
    assert_eq!(fmt_log_level(LogLevel::Debug), "[\x1b[38;2;238;130;238mDEBUG\x1b[0m]");
    for l in [LogLevel::Verbose, LogLevel::Debug, LogLevel::Information, LogLevel::Warning, LogLevel::Error] {
        assert!(l.name().len() <= 5);
    }
}

#[test]
fn game_modules() {
    assert_eq!(fmt_game_module("xrd759"), "\x1b[38;2;78;207;147mXRD759\x1b[0m");
    assert_eq!(fmt_game_module("XRD768"), "\x1b[38;2;78;207;83mXRD768\x1b[0m");
    assert_eq!(fmt_game_module("xRd777"), "\x1b[38;2;66;135;245mXRD777\x1b[0m");
    assert_eq!(fmt_game_module("p5r_mod"), "P5R_MOD");
    assert_eq!(fmt_game_module("ünïcode"), "üNïCODE");
}

#[test]
fn game_codes_from_module_paths() {
    assert_eq!(get_game_code("my_crate"), "");
    assert_eq!(get_game_code("my_crate::xrd777"), "");
    assert_eq!(get_game_code("my_crate::xrd777::ui"), "xrd777");
    assert_eq!(get_game_code("a::b::c::d"), "b");
    assert_eq!(get_game_code("a::::b"), "");
    assert_eq!(get_game_code("a:::b::c"), ":b");
}

#[test]
fn log_lines() {
    assert_eq!(
        format_log_line("2025-01-01T00:00:00.000Z", LogLevel::Warning, "hello"),
        "[2025-01-01T00:00:00.000Z] [\x1b[38;2;244;164;96mWARN \x1b[0m] hello"
    );
}

#[test]
fn driver_message_levels() {
    assert_eq!(log_level_for_severity(true, true, true), LogLevel::Error);
    assert_eq!(log_level_for_severity(false, true, true), LogLevel::Warning);
    assert_eq!(log_level_for_severity(false, false, true), LogLevel::Information);
    assert_eq!(log_level_for_severity(false, false, false), LogLevel::Debug);
}

#[test]
fn logger_new() {
    let _l: Logger = Logger::new();
}
