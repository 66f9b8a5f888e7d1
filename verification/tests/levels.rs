use doglog::level::collector_level_name;
use doglog::level::display_code;
use doglog::level::display_color;
use doglog::level::Level;
use doglog::level::LevelColor;

#[test]
fn display_codes_are_the_five_fixed_codes() {
    assert_eq!(display_code(Level::Trace), "TRC");
    assert_eq!(display_code(Level::Debug), "DBG");
    assert_eq!(display_code(Level::Info), "LOG");
    assert_eq!(display_code(Level::Warn), "WRN");
    assert_eq!(display_code(Level::Error), "ERR");
}

#[test]
fn display_code_is_a_pure_function_of_the_level() {
    let levels = vec![Level::Trace, Level::Debug, Level::Info, Level::Warn, Level::Error];
    for l in levels {
        let first = display_code(l);
        let second = display_code(l);
        assert_eq!(first, second);
        assert_eq!(first.len(), 3);
    }
}

#[test]
fn collector_names_use_warning_for_warn() {
    assert_eq!(collector_level_name(Level::Trace), "trace");
    assert_eq!(collector_level_name(Level::Debug), "debug");
    assert_eq!(collector_level_name(Level::Info), "info");
    assert_eq!(collector_level_name(Level::Warn), "warning");
    assert_eq!(collector_level_name(Level::Error), "error");
}

#[test]
fn display_colors() {
    assert_eq!(display_color(Level::Trace), LevelColor::Purple);
    assert_eq!(display_color(Level::Debug), LevelColor::Blue);
    assert_eq!(display_color(Level::Info), LevelColor::Green);
    assert_eq!(display_color(Level::Warn), LevelColor::Yellow);
    assert_eq!(display_color(Level::Error), LevelColor::Red);
}
