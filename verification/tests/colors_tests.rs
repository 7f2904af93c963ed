use tacky_borders::angle::UnitPoint;
use tacky_borders::colors::{
    get_accent_color, get_color_from_hex, get_color_from_rgb, parse_hex, parse_rgb, Color,
    ColorBrush, ColorBrushConfig, ColorParseError, GradientBrushConfig, GradientDirection,
    CHANNEL_STEP, CHANNEL_UNIT,
};

const WHITE: Color = Color { r: CHANNEL_UNIT, g: CHANNEL_UNIT, b: CHANNEL_UNIT, a: CHANNEL_UNIT };

#[test]
fn test_vertical_gradient_90() {
    let color_brush_config = ColorBrushConfig::Gradient(GradientBrushConfig {
        colors: vec!["#ffffff".to_string(), "#000000".to_string()],
        direction: GradientDirection::Angle("90deg".to_string()),
    });
    let color_brush = color_brush_config.to_color_brush(true, 0);

    if let ColorBrush::Gradient(ref gradient) = color_brush {
        assert!(gradient.direction.start == UnitPoint { x: 500_000, y: 1_000_000 });
        assert!(gradient.direction.end == UnitPoint { x: 500_000, y: 0 });
    } else {
        panic!("created incorrect color brush");
    }
}

#[test]
fn test_vertical_gradient_neg90() {
    let color_brush_config = ColorBrushConfig::Gradient(GradientBrushConfig {
        colors: vec!["#ffffff".to_string(), "#000000".to_string()],
        direction: GradientDirection::Angle("-90deg".to_string()),
    });
    let color_brush = color_brush_config.to_color_brush(true, 0);

    if let ColorBrush::Gradient(ref gradient) = color_brush {
        assert!(gradient.direction.start == UnitPoint { x: 500_000, y: 0 });
        assert!(gradient.direction.end == UnitPoint { x: 500_000, y: 1_000_000 });
    } else {
        panic!("created incorrect color brush");
    }
}

#[test]
fn test_gradient_excess_angle() {
    let color_brush_config = ColorBrushConfig::Gradient(GradientBrushConfig {
        colors: vec!["#ffffff".to_string(), "#000000".to_string()],
        direction: GradientDirection::Angle("-540deg".to_string()),
    });
    let color_brush = color_brush_config.to_color_brush(true, 0);

    if let ColorBrush::Gradient(ref gradient) = color_brush {
        assert!(gradient.direction.start == UnitPoint { x: 1_000_000, y: 500_000 });
        assert!(gradient.direction.end == UnitPoint { x: 0, y: 500_000 });
    } else {
        panic!("created incorrect color brush");
    }
}

#[test]
fn test_color_parser_translucent() {
    let color_brush_config = ColorBrushConfig::Solid("#ffffff80".to_string());
    let color_brush = color_brush_config.to_color_brush(true, 0);

    if let ColorBrush::Solid(ref solid) = color_brush {
        assert!(
            solid.color
                == Color {
                    r: CHANNEL_UNIT,
                    g: CHANNEL_UNIT,
                    b: CHANNEL_UNIT,
                    a: 128 * CHANNEL_STEP,
                }
        );
    } else {
        panic!("created incorrect color brush");
    }
}

#[test]
fn hex_full_form_is_opaque_white() {
    assert_eq!(get_color_from_hex("#ffffff"), WHITE);
}

#[test]
fn hex_prefix_is_optional() {
    assert_eq!(get_color_from_hex("a1b2c3"), get_color_from_hex("#a1b2c3"));
}

#[test]
fn hex_shorthand_duplicates_nibbles() {
    assert_eq!(get_color_from_hex("#abc"), get_color_from_hex("#aabbcc"));
    assert_eq!(get_color_from_hex("#abcd"), get_color_from_hex("#aabbccdd"));
    let c = get_color_from_hex("#abc");
    assert_eq!(c.r, 0xaa * CHANNEL_STEP);
    assert_eq!(c.g, 0xbb * CHANNEL_STEP);
    assert_eq!(c.b, 0xcc * CHANNEL_STEP);
    assert_eq!(c.a, CHANNEL_UNIT);
}

#[test]
fn hex_errors_fall_back_to_white() {
    assert_eq!(get_color_from_hex(""), WHITE);
    assert_eq!(get_color_from_hex("#ff"), WHITE);
    assert_eq!(get_color_from_hex("#fffff"), WHITE);
    assert_eq!(get_color_from_hex("#ggg"), WHITE);
    assert_eq!(get_color_from_hex("hello"), WHITE);
}

#[test]
fn rgb_parse_reports_invalid_input() {
    assert_eq!(parse_rgb("rgb(1,2)"), Err(ColorParseError::InvalidRgb));
    assert_eq!(
        parse_rgb("rgb(0,0,255)"),
        Ok(Color { r: 0, g: 0, b: CHANNEL_UNIT, a: CHANNEL_UNIT })
    );
}

#[test]
fn hex_parse_reports_invalid_input() {
    assert_eq!(parse_hex("xyz"), Err(ColorParseError::InvalidHex));
    assert_eq!(
        parse_hex("#102030"),
        Ok(Color { r: 0x10 * CHANNEL_STEP, g: 0x20 * CHANNEL_STEP, b: 0x30 * CHANNEL_STEP, a: CHANNEL_UNIT })
    );
}

#[test]
fn rgb_red_is_exact() {
    assert_eq!(
        get_color_from_rgb("rgb(255,0,0)"),
        Color { r: CHANNEL_UNIT, g: 0, b: 0, a: CHANNEL_UNIT }
    );
}

#[test]
fn rgba_half_alpha_is_exact() {
    assert_eq!(
        get_color_from_rgb("rgba(0,0,0,0.5)"),
        Color { r: 0, g: 0, b: 0, a: CHANNEL_UNIT / 2 }
    );
}

#[test]
fn rgba_alpha_forms() {
    // clamped above and below, bare integer, leading-dot fraction
    assert_eq!(get_color_from_rgb("rgba(1,2,3,2)").a, CHANNEL_UNIT);
    assert_eq!(get_color_from_rgb("rgba(1,2,3,-0.5)").a, 0);
    assert_eq!(get_color_from_rgb("rgba(1,2,3,1)").a, CHANNEL_UNIT);
    assert_eq!(get_color_from_rgb("rgba(1,2,3,.25)").a, CHANNEL_UNIT / 4);
}

#[test]
fn rgb_malformed_falls_back_to_opaque_black() {
    let black = Color { r: 0, g: 0, b: 0, a: CHANNEL_UNIT };
    assert_eq!(get_color_from_rgb("rgb(256,0,0)"), black);
    assert_eq!(get_color_from_rgb("rgb(1,2)"), black);
    assert_eq!(get_color_from_rgb("rgb(1,2,3,4,5)"), black);
    assert_eq!(get_color_from_rgb("rgb(1,2,3"), black);
    assert_eq!(get_color_from_rgb("rgb(a,b,c)"), black);
    assert_eq!(get_color_from_rgb("rgbx(1,2,3)"), black);
    assert_eq!(get_color_from_rgb("rgba(0,0,0,0.12345)"), black);
}

#[test]
fn accent_active_unpacks_channels() {
    let c = get_accent_color(true, 0x0012_3456);
    assert_eq!(c.r, 0x12 * CHANNEL_STEP);
    assert_eq!(c.g, 0x34 * CHANNEL_STEP);
    assert_eq!(c.b, 0x56 * CHANNEL_STEP);
    assert_eq!(c.a, CHANNEL_UNIT);
}

#[test]
fn accent_inactive_darkens_exactly() {
    // channels 18, 52, 86: each inactive channel is
    // (20 * (18 + 52 + 86) + 9 * channel) * 1000 channel units
    let c = get_accent_color(false, 0x0012_3456);
    assert_eq!(c.r, (20 * 156 + 9 * 18) * 1000);
    assert_eq!(c.g, (20 * 156 + 9 * 52) * 1000);
    assert_eq!(c.b, (20 * 156 + 9 * 86) * 1000);
    assert_eq!(c.a, CHANNEL_UNIT);
}

#[test]
fn accent_failure_reads_as_black() {
    let c = get_accent_color(true, 0);
    assert_eq!(c, Color { r: 0, g: 0, b: 0, a: CHANNEL_UNIT });
}

#[test]
fn solid_accent_token_uses_accent_color() {
    let cfg = ColorBrushConfig::Solid("accent".to_string());
    let brush = cfg.to_color_brush(false, 0x0012_3456);
    if let ColorBrush::Solid(ref solid) = brush {
        assert_eq!(solid.color, get_accent_color(false, 0x0012_3456));
        assert_eq!(solid.brush, None);
    } else {
        panic!("created incorrect color brush");
    }
}

#[test]
fn gradient_stops_are_evenly_spaced() {
    let cfg = ColorBrushConfig::Gradient(GradientBrushConfig {
        colors: vec!["#ff0000".to_string(), "#00ff00".to_string(), "#0000ff".to_string()],
        direction: GradientDirection::Angle("0deg".to_string()),
    });
    let brush = cfg.to_color_brush(true, 0);
    if let ColorBrush::Gradient(ref gradient) = brush {
        assert_eq!(gradient.gradient_stops.len(), 3);
        assert_eq!(gradient.gradient_stops[0].position, 0);
        assert_eq!(gradient.gradient_stops[1].position, 500_000);
        assert_eq!(gradient.gradient_stops[2].position, 1_000_000);
        assert_eq!(gradient.gradient_stops[0].color.r, CHANNEL_UNIT);
        assert_eq!(gradient.gradient_stops[1].color.g, CHANNEL_UNIT);
        assert_eq!(gradient.gradient_stops[2].color.b, CHANNEL_UNIT);
    } else {
        panic!("created incorrect color brush");
    }
}

#[test]
fn single_stop_gradient_resolves_as_solid() {
    let cfg = ColorBrushConfig::Gradient(GradientBrushConfig {
        colors: vec!["#123456".to_string()],
        direction: GradientDirection::Angle("90deg".to_string()),
    });
    let brush = cfg.to_color_brush(true, 0);
    if let ColorBrush::Solid(ref solid) = brush {
        assert_eq!(solid.color, get_color_from_hex("#123456"));
    } else {
        panic!("created incorrect color brush");
    }
}

#[test]
fn bad_angle_token_fails_whole_resolution() {
    let cfg = ColorBrushConfig::Gradient(GradientBrushConfig {
        colors: vec!["#ffffff".to_string(), "#000000".to_string()],
        direction: GradientDirection::Angle("sideways".to_string()),
    });
    let brush = cfg.to_color_brush(true, 0);
    if let ColorBrush::Solid(ref solid) = brush {
        assert_eq!(solid.color, Color { r: 0, g: 0, b: 0, a: 0 });
        assert_eq!(solid.brush, None);
    } else {
        panic!("created incorrect color brush");
    }
}

#[test]
fn explicit_coordinates_pass_through() {
    let coords = tacky_borders::angle::GradientCoordinates {
        start: UnitPoint { x: 0, y: 0 },
        end: UnitPoint { x: 1_000_000, y: 1_000_000 },
    };
    let cfg = ColorBrushConfig::Gradient(GradientBrushConfig {
        colors: vec!["#ffffff".to_string(), "#000000".to_string()],
        direction: GradientDirection::Coordinates(coords),
    });
    let brush = cfg.to_color_brush(true, 0);
    if let ColorBrush::Gradient(ref gradient) = brush {
        assert_eq!(gradient.direction, coords);
    } else {
        panic!("created incorrect color brush");
    }
}

#[test]
fn default_config_is_accent() {
    let cfg = ColorBrushConfig::default();
    assert_eq!(cfg, ColorBrushConfig::Solid("accent".to_string()));
}

#[test]
fn default_brush_is_transparent_solid() {
    let brush = ColorBrush::default();
    if let ColorBrush::Solid(ref solid) = brush {
        assert_eq!(solid.color, Color { r: 0, g: 0, b: 0, a: 0 });
        assert_eq!(solid.brush, None);
    } else {
        panic!("created incorrect color brush");
    }
}

#[test]
fn init_brush_records_the_resource() {
    let mut brush = ColorBrush::default();
    assert_eq!(brush.get_brush(), None);
    brush.init_brush(7);
    assert_eq!(brush.get_brush(), Some(7));
}

#[test]
fn gradient_pixel_points_scale_with_the_rect() {
    let cfg = ColorBrushConfig::Gradient(GradientBrushConfig {
        colors: vec!["#ffffff".to_string(), "#000000".to_string()],
        direction: GradientDirection::Coordinates(tacky_borders::angle::GradientCoordinates {
            start: UnitPoint { x: 0, y: 250_000 },
            end: UnitPoint { x: 1_000_000, y: 1_000_000 },
        }),
    });
    let brush = cfg.to_color_brush(true, 0);
    if let ColorBrush::Gradient(ref gradient) = brush {
        let rect = tacky_borders::utils::Rect { left: 10, top: 20, right: 110, bottom: 220 };
        let (start, end) = gradient.update_start_end_points(&rect);
        assert_eq!(start.x, 0);
        assert_eq!(start.y, 50);
        assert_eq!(end.x, 100);
        assert_eq!(end.y, 200);
    } else {
        panic!("created incorrect color brush");
    }
}
