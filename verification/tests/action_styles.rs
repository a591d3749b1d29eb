use rnote_ui::styles::{
    brush_style_icon_name, brush_style_to_target, color_scheme_to_state, doc_layout_to_target,
    eraser_style_to_target, parse_brush_style, parse_color_scheme, parse_doc_layout,
    parse_eraser_style, parse_pen_style, parse_pen_style_override, parse_selector_style,
    parse_shape_buildertype, parse_shaper_style, parse_tool_style, pen_style_action,
    pen_style_page_name, pen_style_to_target, reveal_fixedsize_quickactions,
    selector_style_to_target, shape_buildertype_icon_name, shape_buildertype_to_target,
    shaper_style_icon_name, shaper_style_to_target, tool_style_to_target, BrushStyle, ColorScheme,
    DocLayout, EraserStyle, PenStyle, SelectorStyle, ShapeBuilderType, ShaperStyle, ToolsStyle,
};

#[test]
fn doc_layout_targets() {
    assert_eq!(doc_layout_to_target(DocLayout::FixedSize), "fixed-size");
    assert_eq!(doc_layout_to_target(DocLayout::ContinuousVertical), "continuous-vertical");
    assert_eq!(doc_layout_to_target(DocLayout::Infinite), "infinite");
    assert_eq!(parse_doc_layout("infinite"), Some(DocLayout::Infinite));
    assert_eq!(parse_doc_layout("Infinite"), None);
    assert_eq!(parse_doc_layout(""), None);
    for l in [DocLayout::FixedSize, DocLayout::ContinuousVertical, DocLayout::Infinite] {
        assert_eq!(parse_doc_layout(doc_layout_to_target(l)), Some(l));
    }
    assert!(reveal_fixedsize_quickactions(DocLayout::FixedSize));
    assert!(!reveal_fixedsize_quickactions(DocLayout::Infinite));
}

#[test]
fn pen_style_targets_round_trip() {
    for s in [PenStyle::Brush, PenStyle::Shaper, PenStyle::Eraser, PenStyle::Selector, PenStyle::Tools] {
        assert_eq!(parse_pen_style(pen_style_to_target(s)), Some(s));
        assert_eq!(parse_pen_style_override(pen_style_to_target(s)), Some(Some(s)));
    }
    assert_eq!(pen_style_to_target(PenStyle::Selector), "selector");
    assert_eq!(parse_pen_style("typewriter"), None);
    assert_eq!(parse_pen_style_override("none"), Some(None));
    assert_eq!(parse_pen_style_override("nothing"), None);
}

#[test]
fn style_targets_round_trip() {
    for s in [BrushStyle::Marker, BrushStyle::Solid, BrushStyle::Textured] {
        assert_eq!(parse_brush_style(brush_style_to_target(s)), Some(s));
    }
    for s in [
        ShapeBuilderType::Line,
        ShapeBuilderType::Rectangle,
        ShapeBuilderType::Ellipse,
        ShapeBuilderType::FociEllipse,
        ShapeBuilderType::QuadBez,
        ShapeBuilderType::CubBez,
    ] {
        assert_eq!(parse_shape_buildertype(shape_buildertype_to_target(s)), Some(s));
    }
    for s in [ShaperStyle::Smooth, ShaperStyle::Rough] {
        assert_eq!(parse_shaper_style(shaper_style_to_target(s)), Some(s));
    }
    for s in [EraserStyle::TrashCollidingStrokes, EraserStyle::SplitCollidingStrokes] {
        assert_eq!(parse_eraser_style(eraser_style_to_target(s)), Some(s));
    }
    for s in [SelectorStyle::Polygon, SelectorStyle::Rectangle] {
        assert_eq!(parse_selector_style(selector_style_to_target(s)), Some(s));
    }
    for s in [ToolsStyle::VerticalSpace, ToolsStyle::DragProximity, ToolsStyle::OffsetCamera] {
        assert_eq!(parse_tool_style(tool_style_to_target(s)), Some(s));
    }
}

#[test]
fn style_targets_exact() {
    assert_eq!(eraser_style_to_target(EraserStyle::TrashCollidingStrokes), "trash-colliding-strokes");
    assert_eq!(shape_buildertype_to_target(ShapeBuilderType::FociEllipse), "fociellipse");
    assert_eq!(tool_style_to_target(ToolsStyle::OffsetCamera), "offsetcamera");
    assert_eq!(parse_selector_style("rectangle"), Some(SelectorStyle::Rectangle));
    assert_eq!(parse_shape_buildertype("rectangle"), Some(ShapeBuilderType::Rectangle));
    assert_eq!(parse_brush_style("felt"), None);
    assert_eq!(parse_shaper_style("Smooth"), None);
    assert_eq!(parse_eraser_style("trash"), None);
    assert_eq!(parse_tool_style(""), None);
}

#[test]
fn pages_and_icons() {
    assert_eq!(pen_style_page_name(PenStyle::Brush), "brush_page");
    assert_eq!(pen_style_page_name(PenStyle::Tools), "tools_page");
    assert_eq!(brush_style_icon_name(BrushStyle::Textured), "pen-brush-style-textured-symbolic");
    assert_eq!(shaper_style_icon_name(ShaperStyle::Rough), "pen-shaper-style-rough-symbolic");
    assert_eq!(shape_buildertype_icon_name(ShapeBuilderType::CubBez), "shape-cubbez-symbolic");
}

#[test]
fn pen_style_action_switches_only_when_different() {
    assert_eq!(pen_style_action("brush", PenStyle::Eraser), Some(PenStyle::Brush));
    assert_eq!(pen_style_action("brush", PenStyle::Brush), None);
    assert_eq!(pen_style_action("typewriter", PenStyle::Brush), None);
    for requested in [PenStyle::Brush, PenStyle::Shaper, PenStyle::Eraser, PenStyle::Selector, PenStyle::Tools] {
        for current in [PenStyle::Brush, PenStyle::Tools] {
            let expected = if requested == current { None } else { Some(requested) };
            assert_eq!(pen_style_action(pen_style_to_target(requested), current), expected);
        }
    }
}

#[test]
fn color_scheme_round_trip() {
    for c in [ColorScheme::Default, ColorScheme::ForceLight, ColorScheme::ForceDark] {
        assert_eq!(parse_color_scheme(color_scheme_to_state(c)), Some(c));
    }
    assert_eq!(color_scheme_to_state(ColorScheme::ForceDark), "force-dark");
    assert_eq!(parse_color_scheme("dark"), None);
}
