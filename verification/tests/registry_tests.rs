use tacky_borders::border::{BorderActor, BorderAction, BorderCommand, BorderState};
use tacky_borders::colors::{ColorBrush, ColorBrushConfig};
use tacky_borders::config::{
    compute_border_width, convert_config_radius, AnimationParams, Config, CornerPreference,
    GlobalConfig, WindowRule, RADIUS_SYSTEM,
};
use tacky_borders::registry::{create_border_for_window, BorderRegistry, CreateOutcome, ShowAction};
use tacky_borders::utils::Rect;
use tacky_borders::UNIT;

fn test_global() -> GlobalConfig {
    GlobalConfig {
        border_width: 2 * UNIT,
        border_offset: -1,
        border_radius: RADIUS_SYSTEM,
        active_color: ColorBrushConfig::Solid("accent".to_string()),
        inactive_color: ColorBrushConfig::Solid("accent".to_string()),
        animations: None,
        initialize_delay: None,
        unminimize_delay: None,
    }
}

fn test_rect() -> Rect {
    Rect { left: 0, top: 0, right: 800, bottom: 600 }
}

#[test]
fn upsert_creates_once_per_window() {
    let mut registry = BorderRegistry::new();
    let (h1, created1) = registry.upsert_if_absent(42, 1001);
    let (h2, created2) = registry.upsert_if_absent(42, 2002);
    assert!(created1);
    assert!(!created2);
    assert_eq!(h1, 1001);
    assert_eq!(h2, 1001);
    assert_eq!(registry.len(), 1);
    assert_eq!(registry.lookup(42), Some(1001));
}

#[test]
fn remove_forgets_the_window() {
    let mut registry = BorderRegistry::new();
    registry.upsert_if_absent(7, 70);
    assert_eq!(registry.remove(7), Some(70));
    assert_eq!(registry.remove(7), None);
    assert_eq!(registry.lookup(7), None);
    assert_eq!(registry.len(), 0);
}

#[test]
fn show_posts_to_an_existing_border() {
    let mut registry = BorderRegistry::new();
    registry.upsert_if_absent(5, 50);
    let (existed, action) = registry.show_border_for_window(5, true, false, false);
    assert!(existed);
    assert_eq!(action, ShowAction::PostShow(50));
}

#[test]
fn show_requests_creation_for_a_qualifying_window() {
    let registry = BorderRegistry::new();
    let (existed, action) = registry.show_border_for_window(5, true, false, false);
    assert!(!existed);
    assert_eq!(action, ShowAction::Create);
}

#[test]
fn show_ignores_cloaked_and_filtered_windows() {
    let registry = BorderRegistry::new();
    assert_eq!(registry.show_border_for_window(5, true, true, false), (false, ShowAction::Ignore));
    assert_eq!(registry.show_border_for_window(5, false, false, false), (false, ShowAction::Ignore));
    assert_eq!(registry.show_border_for_window(5, true, false, true), (false, ShowAction::Ignore));
}

#[test]
fn hide_reports_the_border_to_notify() {
    let mut registry = BorderRegistry::new();
    assert_eq!(registry.hide_border_for_window(9), (true, None));
    registry.upsert_if_absent(9, 90);
    assert_eq!(registry.hide_border_for_window(9), (true, Some(90)));
}

#[test]
fn destroy_removes_and_reports_the_border() {
    let mut registry = BorderRegistry::new();
    registry.upsert_if_absent(3, 30);
    assert_eq!(registry.destroy_border_for_window(3), Some(30));
    assert_eq!(registry.lookup(3), None);
    assert_eq!(registry.destroy_border_for_window(3), None);
}

#[test]
fn create_registers_and_configures_the_actor() {
    let mut registry = BorderRegistry::new();
    let rule = WindowRule {
        unminimize_delay: Some(150),
        border_offset: Some(4),
        ..WindowRule::default()
    };
    let outcome = create_border_for_window(
        &mut registry,
        11,
        1100,
        test_rect(),
        &rule,
        &test_global(),
        false,
        0x00336699,
        2,
        8 * UNIT,
    );
    match outcome {
        CreateOutcome::Created(actor) => {
            assert_eq!(actor.tracking_window, 11);
            assert_eq!(actor.state, BorderState::Created);
            assert!(!actor.is_active);
            assert_eq!(actor.border_offset, 4);
            assert_eq!(actor.initialize_delay, 250);
            assert_eq!(actor.unminimize_delay, 150);
            assert_eq!(
                actor.animation,
                tacky_borders::easing::AnimationCurve { x1: 0, y1: 0, x2: UNIT, y2: UNIT }
            );
        },
        _ => panic!("expected a created border"),
    }
    assert_eq!(registry.lookup(11), Some(1100));
}

#[test]
fn create_skips_disabled_and_duplicate_windows() {
    let mut registry = BorderRegistry::new();
    let disabled = WindowRule { enabled: Some(false), ..WindowRule::default() };
    let outcome = create_border_for_window(
        &mut registry,
        11,
        1100,
        test_rect(),
        &disabled,
        &test_global(),
        false,
        0,
        2,
        0,
    );
    assert!(matches!(outcome, CreateOutcome::Disabled));
    assert_eq!(registry.lookup(11), None);

    registry.upsert_if_absent(11, 1100);
    let outcome = create_border_for_window(
        &mut registry,
        11,
        2200,
        test_rect(),
        &WindowRule::default(),
        &test_global(),
        false,
        0,
        2,
        0,
    );
    assert!(matches!(outcome, CreateOutcome::AlreadyExists));
    assert_eq!(registry.lookup(11), Some(1100));
}

#[test]
fn create_skips_initialize_delay_for_initial_windows() {
    let mut registry = BorderRegistry::new();
    let outcome = create_border_for_window(
        &mut registry,
        12,
        1200,
        test_rect(),
        &WindowRule::default(),
        &test_global(),
        true,
        0,
        2,
        0,
    );
    match outcome {
        CreateOutcome::Created(actor) => assert_eq!(actor.initialize_delay, 0),
        _ => panic!("expected a created border"),
    }
}

fn test_actor(state: BorderState) -> BorderActor {
    BorderActor {
        tracking_window: 1,
        state,
        is_active: false,
        suspended: false,
        window_rect: test_rect(),
        border_width: 2,
        border_offset: -1,
        border_radius: 0,
        active_color: ColorBrush::default(),
        inactive_color: ColorBrush::default(),
        animation: tacky_borders::easing::AnimationCurve { x1: 0, y1: 0, x2: UNIT, y2: UNIT },
        initialize_delay: 250,
        unminimize_delay: 200,
    }
}

#[test]
fn hide_twice_hides_once() {
    let mut actor = test_actor(BorderState::Visible);
    assert_eq!(actor.handle_command(BorderCommand::Hide), BorderAction::BeginHideTransition);
    assert_eq!(actor.state, BorderState::Hidden);
    assert_eq!(actor.handle_command(BorderCommand::Hide), BorderAction::Nothing);
    assert_eq!(actor.state, BorderState::Hidden);
}

#[test]
fn show_on_visible_is_a_no_op() {
    let mut actor = test_actor(BorderState::Visible);
    assert_eq!(actor.handle_command(BorderCommand::Show), BorderAction::Nothing);
    assert_eq!(actor.state, BorderState::Visible);
}

#[test]
fn show_from_created_begins_the_transition() {
    let mut actor = test_actor(BorderState::Created);
    assert_eq!(actor.handle_command(BorderCommand::Show), BorderAction::BeginShowTransition);
    assert_eq!(actor.state, BorderState::Visible);
}

#[test]
fn destroy_tears_down_exactly_once() {
    let mut actor = test_actor(BorderState::Visible);
    assert_eq!(actor.handle_command(BorderCommand::Destroy), BorderAction::Teardown);
    assert_eq!(actor.state, BorderState::Destroyed);
    assert_eq!(actor.handle_command(BorderCommand::Destroy), BorderAction::Nothing);
    assert_eq!(actor.handle_command(BorderCommand::Show), BorderAction::Nothing);
    assert_eq!(actor.state, BorderState::Destroyed);
}

#[test]
fn location_and_focus_commands_do_not_change_visibility() {
    let mut actor = test_actor(BorderState::Visible);
    let moved = Rect { left: 5, top: 5, right: 105, bottom: 105 };
    assert_eq!(
        actor.handle_command(BorderCommand::LocationChange(moved)),
        BorderAction::UpdatePosition(moved)
    );
    assert_eq!(actor.window_rect, moved);
    assert_eq!(actor.state, BorderState::Visible);
    assert_eq!(actor.handle_command(BorderCommand::Reorder), BorderAction::UpdateZOrder);
    assert_eq!(
        actor.handle_command(BorderCommand::FocusChanged(true)),
        BorderAction::RetargetPaint(true)
    );
    assert!(actor.is_active);
    assert_eq!(actor.state, BorderState::Visible);
}

#[test]
fn minimize_suspends_and_restores_with_delay() {
    let mut actor = test_actor(BorderState::Visible);
    assert_eq!(actor.handle_command(BorderCommand::MinimizeStart), BorderAction::SuspendRendering);
    assert!(actor.suspended);
    assert_eq!(
        actor.handle_command(BorderCommand::MinimizeEnd),
        BorderAction::ResumeAfterDelay(200)
    );
    assert!(!actor.suspended);
}

#[test]
fn border_width_and_radius_formulas() {
    assert_eq!(compute_border_width(2 * UNIT, 96), 2);
    assert_eq!(compute_border_width(2 * UNIT, 144), 3);
    assert_eq!(convert_config_radius(4, RADIUS_SYSTEM, CornerPreference::Round, 96), 10 * UNIT);
    assert_eq!(
        convert_config_radius(4, RADIUS_SYSTEM, CornerPreference::RoundSmall, 96),
        6 * UNIT
    );
    assert_eq!(convert_config_radius(4, RADIUS_SYSTEM, CornerPreference::DoNotRound, 96), 0);
    assert_eq!(convert_config_radius(4, 6 * UNIT, CornerPreference::Round, 192), 12 * UNIT);
}

#[test]
fn animation_params_build_the_curve() {
    let mut registry = BorderRegistry::new();
    let rule = WindowRule {
        animations: Some(AnimationParams { x1: 250_000, y1: 100_000, x2: 250_000, y2: UNIT }),
        ..WindowRule::default()
    };
    let outcome = create_border_for_window(
        &mut registry,
        13,
        1300,
        test_rect(),
        &rule,
        &test_global(),
        false,
        0,
        2,
        0,
    );
    match outcome {
        CreateOutcome::Created(actor) => {
            assert_eq!(actor.animation.x1, 250_000);
            assert_eq!(actor.animation.y2, UNIT);
        },
        _ => panic!("expected a created border"),
    }
    let _ = Config { global: test_global(), window_rules: vec![] };
}

#[test]
fn invalid_animation_params_fall_back_to_linear() {
    let mut registry = BorderRegistry::new();
    let rule = WindowRule {
        animations: Some(AnimationParams { x1: -5, y1: 0, x2: UNIT, y2: UNIT }),
        ..WindowRule::default()
    };
    let outcome = create_border_for_window(
        &mut registry,
        14,
        1400,
        test_rect(),
        &rule,
        &test_global(),
        false,
        0,
        2,
        0,
    );
    match outcome {
        CreateOutcome::Created(actor) => {
            assert_eq!(
                actor.animation,
                tacky_borders::easing::AnimationCurve { x1: 0, y1: 0, x2: UNIT, y2: UNIT }
            );
        },
        _ => panic!("expected a created border"),
    }
}
