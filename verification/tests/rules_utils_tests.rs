use tacky_borders::colors::ColorBrushConfig;
use tacky_borders::config::{Config, GlobalConfig, MatchKind, MatchStrategy, WindowRule};
use tacky_borders::rules::get_window_rule;
use tacky_borders::utils::{
    are_rects_same_size, has_filtered_style, has_native_border, is_rect_visible, text_before_nul,
    Rect, EX_STYLE_NOACTIVATE, EX_STYLE_TOOLWINDOW, EX_STYLE_WINDOWEDGE, STYLE_CHILD,
    STYLE_MAXIMIZE,
};
use tacky_borders::UNIT;

fn named_rule(
    kind: MatchKind,
    pattern: &str,
    strategy: Option<MatchStrategy>,
    width: i64,
) -> WindowRule {
    WindowRule {
        kind: Some(kind),
        pattern: Some(pattern.to_string()),
        strategy,
        border_width: Some(width),
        ..WindowRule::default()
    }
}

fn config_with(rules: Vec<WindowRule>) -> Config {
    Config {
        global: GlobalConfig {
            border_width: 2 * UNIT,
            border_offset: -1,
            border_radius: 0,
            active_color: ColorBrushConfig::Solid("accent".to_string()),
            inactive_color: ColorBrushConfig::Solid("accent".to_string()),
            animations: None,
            initialize_delay: None,
            unminimize_delay: None,
        },
        window_rules: rules,
    }
}

#[test]
fn equals_strategy_folds_case() {
    let config = config_with(vec![named_rule(
        MatchKind::Title,
        "FIREFOX",
        Some(MatchStrategy::Equals),
        7 * UNIT,
    )]);
    let rule = get_window_rule("firefox", "MozillaWindowClass", &config);
    assert_eq!(rule.border_width, Some(7 * UNIT));
    let miss = get_window_rule("firebird", "MozillaWindowClass", &config);
    assert_eq!(miss.border_width, None);
}

#[test]
fn missing_strategy_means_equals() {
    let config = config_with(vec![named_rule(MatchKind::Title, "Files", None, 3 * UNIT)]);
    assert_eq!(get_window_rule("files", "x", &config).border_width, Some(3 * UNIT));
    assert_eq!(get_window_rule("my files", "x", &config).border_width, None);
}

#[test]
fn contains_strategy_folds_case() {
    let config = config_with(vec![named_rule(
        MatchKind::Title,
        "Fox",
        Some(MatchStrategy::Contains),
        5 * UNIT,
    )]);
    assert_eq!(get_window_rule("firefox browser", "x", &config).border_width, Some(5 * UNIT));
    assert_eq!(get_window_rule("chrome", "x", &config).border_width, None);
}

#[test]
fn regex_strategy_matches_through_the_regex_crate() {
    let config = config_with(vec![named_rule(
        MatchKind::Class,
        "^Mozilla.*Class$",
        Some(MatchStrategy::Regex),
        9 * UNIT,
    )]);
    assert_eq!(get_window_rule("firefox", "MozillaWindowClass", &config).border_width, Some(9 * UNIT));
    assert_eq!(get_window_rule("firefox", "Chrome_WidgetWin_1", &config).border_width, None);
}

#[test]
fn invalid_regex_matches_nothing() {
    let config = config_with(vec![named_rule(
        MatchKind::Title,
        "(unclosed",
        Some(MatchStrategy::Regex),
        9 * UNIT,
    )]);
    assert_eq!(get_window_rule("(unclosed", "x", &config).border_width, None);
}

#[test]
fn first_matching_rule_wins() {
    let config = config_with(vec![
        named_rule(MatchKind::Title, "nothing", Some(MatchStrategy::Equals), 1 * UNIT),
        named_rule(MatchKind::Title, "term", Some(MatchStrategy::Contains), 2 * UNIT),
        named_rule(MatchKind::Title, "terminal", Some(MatchStrategy::Equals), 3 * UNIT),
    ]);
    assert_eq!(get_window_rule("terminal", "x", &config).border_width, Some(2 * UNIT));
}

#[test]
fn rules_without_kind_or_pattern_are_skipped() {
    let no_kind = WindowRule {
        pattern: Some("terminal".to_string()),
        border_width: Some(1 * UNIT),
        ..WindowRule::default()
    };
    let no_pattern = WindowRule {
        kind: Some(MatchKind::Title),
        border_width: Some(2 * UNIT),
        ..WindowRule::default()
    };
    let real = named_rule(MatchKind::Title, "terminal", Some(MatchStrategy::Equals), 3 * UNIT);
    let config = config_with(vec![no_kind, no_pattern, real]);
    assert_eq!(get_window_rule("terminal", "x", &config).border_width, Some(3 * UNIT));
}

#[test]
fn filtered_styles_are_recognized() {
    assert!(has_filtered_style(STYLE_CHILD, 0));
    assert!(has_filtered_style(0, EX_STYLE_TOOLWINDOW));
    assert!(has_filtered_style(0, EX_STYLE_NOACTIVATE));
    assert!(!has_filtered_style(0, 0));
    assert!(!has_filtered_style(STYLE_MAXIMIZE, EX_STYLE_WINDOWEDGE));
}

#[test]
fn native_border_requires_edge_and_no_maximize() {
    assert!(has_native_border(0, EX_STYLE_WINDOWEDGE));
    assert!(!has_native_border(STYLE_MAXIMIZE, EX_STYLE_WINDOWEDGE));
    assert!(!has_native_border(0, 0));
}

#[test]
fn rect_visibility_and_size_comparisons() {
    let on_screen = Rect { left: 10, top: 10, right: 110, bottom: 210 };
    let off_screen = Rect { left: -500, top: -400, right: -300, bottom: -200 };
    assert!(is_rect_visible(&on_screen));
    assert!(!is_rect_visible(&off_screen));
    let moved = Rect { left: 30, top: 40, right: 130, bottom: 240 };
    assert!(are_rects_same_size(&on_screen, &moved));
    let grown = Rect { left: 10, top: 10, right: 120, bottom: 210 };
    assert!(!are_rects_same_size(&on_screen, &grown));
}

#[test]
fn window_text_stops_at_the_first_nul() {
    let buf: Vec<u16> = vec![104, 105, 0, 120, 0];
    assert_eq!(text_before_nul(&buf), vec![104, 105]);
    let no_nul: Vec<u16> = vec![104, 105];
    assert_eq!(text_before_nul(&no_nul), vec![104, 105]);
    let empty: Vec<u16> = vec![];
    assert_eq!(text_before_nul(&empty), Vec::<u16>::new());
}
