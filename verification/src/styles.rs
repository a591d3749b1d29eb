//! The styles and modes that the window's actions take as string targets,
//! and the names of the pages and icons that show them.

use vstd::prelude::*;
use crate::text::str_eq;

verus! {

/// The layout of the document.
#[derive(Clone, Copy, Debug, PartialEq, Eq, Structural)]
pub enum DocLayout {
    FixedSize,
    ContinuousVertical,
    Infinite,
}

/// The target string of the `doc-layout` action for a layout.
pub open spec fn doc_layout_target(layout: DocLayout) -> Seq<char> {
    match layout {
        DocLayout::FixedSize => "fixed-size"@,
        DocLayout::ContinuousVertical => "continuous-vertical"@,
        DocLayout::Infinite => "infinite"@,
    }
}

/// The layout that a target string names, if any.
pub open spec fn spec_parse_doc_layout(s: Seq<char>) -> Option<DocLayout> {
    if s == "fixed-size"@ {
        Some(DocLayout::FixedSize)
    } else if s == "continuous-vertical"@ {
        Some(DocLayout::ContinuousVertical)
    } else if s == "infinite"@ {
        Some(DocLayout::Infinite)
    } else {
        None
    }
}

/// Returns the target string of a layout.
pub fn doc_layout_to_target(layout: DocLayout) -> (s: &'static str)
    ensures
        s@ == doc_layout_target(layout),
{
    match layout {
        DocLayout::FixedSize => "fixed-size",
        DocLayout::ContinuousVertical => "continuous-vertical",
        DocLayout::Infinite => "infinite",
    }
}

/// Parses the target of the `doc-layout` action.
pub fn parse_doc_layout(s: &str) -> (r: Option<DocLayout>)
    ensures
        r == spec_parse_doc_layout(s@),
{
    if str_eq(s, "fixed-size") {
        Some(DocLayout::FixedSize)
    } else if str_eq(s, "continuous-vertical") {
        Some(DocLayout::ContinuousVertical)
    } else if str_eq(s, "infinite") {
        Some(DocLayout::Infinite)
    } else {
        None
    }
}

/// The quick actions for fixed-size documents are revealed exactly in the
/// fixed-size layout.
pub fn reveal_fixedsize_quickactions(layout: DocLayout) -> (r: bool)
    ensures
        r == (layout == DocLayout::FixedSize),
{
    matches!(layout, DocLayout::FixedSize)
}

/// Every layout's target string parses back to that layout.
pub proof fn lemma_doc_layout_round_trip(layout: DocLayout)
    ensures
        spec_parse_doc_layout(doc_layout_target(layout)) == Some(layout),
{
    reveal_strlit("fixed-size");
    reveal_strlit("continuous-vertical");
    reveal_strlit("infinite");
    assert("fixed-size"@.len() == 10);
    assert("continuous-vertical"@.len() == 19);
    assert("infinite"@.len() == 8);
}

/// The pen style.
#[derive(Clone, Copy, Debug, PartialEq, Eq, Structural)]
pub enum PenStyle {
    Brush,
    Shaper,
    Eraser,
    Selector,
    Tools,
}

/// The target string of the `pen-style` action for a pen style.
pub open spec fn pen_style_target(x: PenStyle) -> Seq<char> {
    match x {
        PenStyle::Brush => "brush"@,
        PenStyle::Shaper => "shaper"@,
        PenStyle::Eraser => "eraser"@,
        PenStyle::Selector => "selector"@,
        PenStyle::Tools => "tools"@,
    }
}

/// The pen style that a target string names, if any.
pub open spec fn spec_parse_pen_style(s: Seq<char>) -> Option<PenStyle> {
    if s == "brush"@ {
        Some(PenStyle::Brush)
    } else if s == "shaper"@ {
        Some(PenStyle::Shaper)
    } else if s == "eraser"@ {
        Some(PenStyle::Eraser)
    } else if s == "selector"@ {
        Some(PenStyle::Selector)
    } else if s == "tools"@ {
        Some(PenStyle::Tools)
    } else {
        None
    }
}

/// Returns the target string of a pen style.
pub fn pen_style_to_target(x: PenStyle) -> (s: &'static str)
    ensures
        s@ == pen_style_target(x),
{
    match x {
        PenStyle::Brush => "brush",
        PenStyle::Shaper => "shaper",
        PenStyle::Eraser => "eraser",
        PenStyle::Selector => "selector",
        PenStyle::Tools => "tools",
    }
}

/// Parses the target of the `pen-style` action.
pub fn parse_pen_style(s: &str) -> (r: Option<PenStyle>)
    ensures
        r == spec_parse_pen_style(s@),
{
    if str_eq(s, "brush") {
        Some(PenStyle::Brush)
    } else if str_eq(s, "shaper") {
        Some(PenStyle::Shaper)
    } else if str_eq(s, "eraser") {
        Some(PenStyle::Eraser)
    } else if str_eq(s, "selector") {
        Some(PenStyle::Selector)
    } else if str_eq(s, "tools") {
        Some(PenStyle::Tools)
    } else {
        None
    }
}

/// Every pen style's target string parses back to it.
pub proof fn lemma_pen_style_round_trip(x: PenStyle)
    ensures
        spec_parse_pen_style(pen_style_target(x)) == Some(x),
{
    reveal_strlit("brush");
    reveal_strlit("shaper");
    reveal_strlit("eraser");
    reveal_strlit("selector");
    reveal_strlit("tools");
    assert("brush"@.len() == 5);
    assert("shaper"@.len() == 6);
    assert("eraser"@.len() == 6);
    assert("selector"@.len() == 8);
    assert("tools"@.len() == 5);
    assert("brush"@[0] != "tools"@[0]);
    assert("shaper"@[0] != "eraser"@[0]);
}

/// The brush style.
#[derive(Clone, Copy, Debug, PartialEq, Eq, Structural)]
pub enum BrushStyle {
    Marker,
    Solid,
    Textured,
}

/// The target string of the `brush-style` action for a brush style.
pub open spec fn brush_style_target(x: BrushStyle) -> Seq<char> {
    match x {
        BrushStyle::Marker => "marker"@,
        BrushStyle::Solid => "solid"@,
        BrushStyle::Textured => "textured"@,
    }
}

/// The brush style that a target string names, if any.
pub open spec fn spec_parse_brush_style(s: Seq<char>) -> Option<BrushStyle> {
    if s == "marker"@ {
        Some(BrushStyle::Marker)
    } else if s == "solid"@ {
        Some(BrushStyle::Solid)
    } else if s == "textured"@ {
        Some(BrushStyle::Textured)
    } else {
        None
    }
}

/// Returns the target string of a brush style.
pub fn brush_style_to_target(x: BrushStyle) -> (s: &'static str)
    ensures
        s@ == brush_style_target(x),
{
    match x {
        BrushStyle::Marker => "marker",
        BrushStyle::Solid => "solid",
        BrushStyle::Textured => "textured",
    }
}

/// Parses the target of the `brush-style` action.
pub fn parse_brush_style(s: &str) -> (r: Option<BrushStyle>)
    ensures
        r == spec_parse_brush_style(s@),
{
    if str_eq(s, "marker") {
        Some(BrushStyle::Marker)
    } else if str_eq(s, "solid") {
        Some(BrushStyle::Solid)
    } else if str_eq(s, "textured") {
        Some(BrushStyle::Textured)
    } else {
        None
    }
}

/// Every brush style's target string parses back to it.
pub proof fn lemma_brush_style_round_trip(x: BrushStyle)
    ensures
        spec_parse_brush_style(brush_style_target(x)) == Some(x),
{
    reveal_strlit("marker");
    reveal_strlit("solid");
    reveal_strlit("textured");
    assert("marker"@.len() == 6);
    assert("solid"@.len() == 5);
    assert("textured"@.len() == 8);
}

/// The shape builder type.
#[derive(Clone, Copy, Debug, PartialEq, Eq, Structural)]
pub enum ShapeBuilderType {
    Line,
    Rectangle,
    Ellipse,
    FociEllipse,
    QuadBez,
    CubBez,
}

/// The target string of the `shape-buildertype` action for a shape builder type.
pub open spec fn shape_buildertype_target(x: ShapeBuilderType) -> Seq<char> {
    match x {
        ShapeBuilderType::Line => "line"@,
        ShapeBuilderType::Rectangle => "rectangle"@,
        ShapeBuilderType::Ellipse => "ellipse"@,
        ShapeBuilderType::FociEllipse => "fociellipse"@,
        ShapeBuilderType::QuadBez => "quadbez"@,
        ShapeBuilderType::CubBez => "cubbez"@,
    }
}

/// The shape builder type that a target string names, if any.
pub open spec fn spec_parse_shape_buildertype(s: Seq<char>) -> Option<ShapeBuilderType> {
    if s == "line"@ {
        Some(ShapeBuilderType::Line)
    } else if s == "rectangle"@ {
        Some(ShapeBuilderType::Rectangle)
    } else if s == "ellipse"@ {
        Some(ShapeBuilderType::Ellipse)
    } else if s == "fociellipse"@ {
        Some(ShapeBuilderType::FociEllipse)
    } else if s == "quadbez"@ {
        Some(ShapeBuilderType::QuadBez)
    } else if s == "cubbez"@ {
        Some(ShapeBuilderType::CubBez)
    } else {
        None
    }
}

/// Returns the target string of a shape builder type.
pub fn shape_buildertype_to_target(x: ShapeBuilderType) -> (s: &'static str)
    ensures
        s@ == shape_buildertype_target(x),
{
    match x {
        ShapeBuilderType::Line => "line",
        ShapeBuilderType::Rectangle => "rectangle",
        ShapeBuilderType::Ellipse => "ellipse",
        ShapeBuilderType::FociEllipse => "fociellipse",
        ShapeBuilderType::QuadBez => "quadbez",
        ShapeBuilderType::CubBez => "cubbez",
    }
}

/// Parses the target of the `shape-buildertype` action.
pub fn parse_shape_buildertype(s: &str) -> (r: Option<ShapeBuilderType>)
    ensures
        r == spec_parse_shape_buildertype(s@),
{
    if str_eq(s, "line") {
        Some(ShapeBuilderType::Line)
    } else if str_eq(s, "rectangle") {
        Some(ShapeBuilderType::Rectangle)
    } else if str_eq(s, "ellipse") {
        Some(ShapeBuilderType::Ellipse)
    } else if str_eq(s, "fociellipse") {
        Some(ShapeBuilderType::FociEllipse)
    } else if str_eq(s, "quadbez") {
        Some(ShapeBuilderType::QuadBez)
    } else if str_eq(s, "cubbez") {
        Some(ShapeBuilderType::CubBez)
    } else {
        None
    }
}

/// Every shape builder type's target string parses back to it.
pub proof fn lemma_shape_buildertype_round_trip(x: ShapeBuilderType)
    ensures
        spec_parse_shape_buildertype(shape_buildertype_target(x)) == Some(x),
{
    reveal_strlit("line");
    reveal_strlit("rectangle");
    reveal_strlit("ellipse");
    reveal_strlit("fociellipse");
    reveal_strlit("quadbez");
    reveal_strlit("cubbez");
    assert("line"@.len() == 4);
    assert("rectangle"@.len() == 9);
    assert("ellipse"@.len() == 7);
    assert("fociellipse"@.len() == 11);
    assert("quadbez"@.len() == 7);
    assert("cubbez"@.len() == 6);
    assert("ellipse"@[0] != "quadbez"@[0]);
}

/// The shaper style.
#[derive(Clone, Copy, Debug, PartialEq, Eq, Structural)]
pub enum ShaperStyle {
    Smooth,
    Rough,
}

/// The target string of the `shaper-style` action for a shaper style.
pub open spec fn shaper_style_target(x: ShaperStyle) -> Seq<char> {
    match x {
        ShaperStyle::Smooth => "smooth"@,
        ShaperStyle::Rough => "rough"@,
    }
}

/// The shaper style that a target string names, if any.
pub open spec fn spec_parse_shaper_style(s: Seq<char>) -> Option<ShaperStyle> {
    if s == "smooth"@ {
        Some(ShaperStyle::Smooth)
    } else if s == "rough"@ {
        Some(ShaperStyle::Rough)
    } else {
        None
    }
}

/// Returns the target string of a shaper style.
pub fn shaper_style_to_target(x: ShaperStyle) -> (s: &'static str)
    ensures
        s@ == shaper_style_target(x),
{
    match x {
        ShaperStyle::Smooth => "smooth",
        ShaperStyle::Rough => "rough",
    }
}

/// Parses the target of the `shaper-style` action.
pub fn parse_shaper_style(s: &str) -> (r: Option<ShaperStyle>)
    ensures
        r == spec_parse_shaper_style(s@),
{
    if str_eq(s, "smooth") {
        Some(ShaperStyle::Smooth)
    } else if str_eq(s, "rough") {
        Some(ShaperStyle::Rough)
    } else {
        None
    }
}

/// Every shaper style's target string parses back to it.
pub proof fn lemma_shaper_style_round_trip(x: ShaperStyle)
    ensures
        spec_parse_shaper_style(shaper_style_target(x)) == Some(x),
{
    reveal_strlit("smooth");
    reveal_strlit("rough");
    assert("smooth"@.len() == 6);
    assert("rough"@.len() == 5);
}

/// The eraser style.
#[derive(Clone, Copy, Debug, PartialEq, Eq, Structural)]
pub enum EraserStyle {
    TrashCollidingStrokes,
    SplitCollidingStrokes,
}

/// The target string of the `eraser-style` action for a eraser style.
pub open spec fn eraser_style_target(x: EraserStyle) -> Seq<char> {
    match x {
        EraserStyle::TrashCollidingStrokes => "trash-colliding-strokes"@,
        EraserStyle::SplitCollidingStrokes => "split-colliding-strokes"@,
    }
}

/// The eraser style that a target string names, if any.
pub open spec fn spec_parse_eraser_style(s: Seq<char>) -> Option<EraserStyle> {
    if s == "trash-colliding-strokes"@ {
        Some(EraserStyle::TrashCollidingStrokes)
    } else if s == "split-colliding-strokes"@ {
        Some(EraserStyle::SplitCollidingStrokes)
    } else {
        None
    }
}

/// Returns the target string of a eraser style.
pub fn eraser_style_to_target(x: EraserStyle) -> (s: &'static str)
    ensures
        s@ == eraser_style_target(x),
{
    match x {
        EraserStyle::TrashCollidingStrokes => "trash-colliding-strokes",
        EraserStyle::SplitCollidingStrokes => "split-colliding-strokes",
    }
}

/// Parses the target of the `eraser-style` action.
pub fn parse_eraser_style(s: &str) -> (r: Option<EraserStyle>)
    ensures
        r == spec_parse_eraser_style(s@),
{
    if str_eq(s, "trash-colliding-strokes") {
        Some(EraserStyle::TrashCollidingStrokes)
    } else if str_eq(s, "split-colliding-strokes") {
        Some(EraserStyle::SplitCollidingStrokes)
    } else {
        None
    }
}

/// Every eraser style's target string parses back to it.
pub proof fn lemma_eraser_style_round_trip(x: EraserStyle)
    ensures
        spec_parse_eraser_style(eraser_style_target(x)) == Some(x),
{
    reveal_strlit("trash-colliding-strokes");
    reveal_strlit("split-colliding-strokes");
    assert("trash-colliding-strokes"@.len() == 23);
    assert("split-colliding-strokes"@.len() == 23);
    assert("trash-colliding-strokes"@[0] != "split-colliding-strokes"@[0]);
}

/// The selector style.
#[derive(Clone, Copy, Debug, PartialEq, Eq, Structural)]
pub enum SelectorStyle {
    Polygon,
    Rectangle,
}

/// The target string of the `selector-style` action for a selector style.
pub open spec fn selector_style_target(x: SelectorStyle) -> Seq<char> {
    match x {
        SelectorStyle::Polygon => "polygon"@,
        SelectorStyle::Rectangle => "rectangle"@,
    }
}

/// The selector style that a target string names, if any.
pub open spec fn spec_parse_selector_style(s: Seq<char>) -> Option<SelectorStyle> {
    if s == "polygon"@ {
        Some(SelectorStyle::Polygon)
    } else if s == "rectangle"@ {
        Some(SelectorStyle::Rectangle)
    } else {
        None
    }
}

/// Returns the target string of a selector style.
pub fn selector_style_to_target(x: SelectorStyle) -> (s: &'static str)
    ensures
        s@ == selector_style_target(x),
{
    match x {
        SelectorStyle::Polygon => "polygon",
        SelectorStyle::Rectangle => "rectangle",
    }
}

/// Parses the target of the `selector-style` action.
pub fn parse_selector_style(s: &str) -> (r: Option<SelectorStyle>)
    ensures
        r == spec_parse_selector_style(s@),
{
    if str_eq(s, "polygon") {
        Some(SelectorStyle::Polygon)
    } else if str_eq(s, "rectangle") {
        Some(SelectorStyle::Rectangle)
    } else {
        None
    }
}

/// Every selector style's target string parses back to it.
pub proof fn lemma_selector_style_round_trip(x: SelectorStyle)
    ensures
        spec_parse_selector_style(selector_style_target(x)) == Some(x),
{
    reveal_strlit("polygon");
    reveal_strlit("rectangle");
    assert("polygon"@.len() == 7);
    assert("rectangle"@.len() == 9);
}

/// The tools style.
#[derive(Clone, Copy, Debug, PartialEq, Eq, Structural)]
pub enum ToolsStyle {
    VerticalSpace,
    DragProximity,
    OffsetCamera,
}

/// The target string of the `tool-style` action for a tools style.
pub open spec fn tool_style_target(x: ToolsStyle) -> Seq<char> {
    match x {
        ToolsStyle::VerticalSpace => "verticalspace"@,
        ToolsStyle::DragProximity => "dragproximity"@,
        ToolsStyle::OffsetCamera => "offsetcamera"@,
    }
}

/// The tools style that a target string names, if any.
pub open spec fn spec_parse_tool_style(s: Seq<char>) -> Option<ToolsStyle> {
    if s == "verticalspace"@ {
        Some(ToolsStyle::VerticalSpace)
    } else if s == "dragproximity"@ {
        Some(ToolsStyle::DragProximity)
    } else if s == "offsetcamera"@ {
        Some(ToolsStyle::OffsetCamera)
    } else {
        None
    }
}

/// Returns the target string of a tools style.
pub fn tool_style_to_target(x: ToolsStyle) -> (s: &'static str)
    ensures
        s@ == tool_style_target(x),
{
    match x {
        ToolsStyle::VerticalSpace => "verticalspace",
        ToolsStyle::DragProximity => "dragproximity",
        ToolsStyle::OffsetCamera => "offsetcamera",
    }
}

/// Parses the target of the `tool-style` action.
pub fn parse_tool_style(s: &str) -> (r: Option<ToolsStyle>)
    ensures
        r == spec_parse_tool_style(s@),
{
    if str_eq(s, "verticalspace") {
        Some(ToolsStyle::VerticalSpace)
    } else if str_eq(s, "dragproximity") {
        Some(ToolsStyle::DragProximity)
    } else if str_eq(s, "offsetcamera") {
        Some(ToolsStyle::OffsetCamera)
    } else {
        None
    }
}

/// Every tools style's target string parses back to it.
pub proof fn lemma_tool_style_round_trip(x: ToolsStyle)
    ensures
        spec_parse_tool_style(tool_style_target(x)) == Some(x),
{
    reveal_strlit("verticalspace");
    reveal_strlit("dragproximity");
    reveal_strlit("offsetcamera");
    assert("verticalspace"@.len() == 13);
    assert("dragproximity"@.len() == 13);
    assert("offsetcamera"@.len() == 12);
    assert("verticalspace"@[0] != "dragproximity"@[0]);
}


/// The target of the `pen-style-override` action: a pen style, or `none` to
/// drop the override.
pub open spec fn spec_parse_pen_style_override(s: Seq<char>) -> Option<Option<PenStyle>> {
    if s == "none"@ {
        Some(None)
    } else {
        match spec_parse_pen_style(s) {
            Some(style) => Some(Some(style)),
            None => None,
        }
    }
}

/// Parses the target of the `pen-style-override` action.
pub fn parse_pen_style_override(s: &str) -> (r: Option<Option<PenStyle>>)
    ensures
        r == spec_parse_pen_style_override(s@),
{
    if str_eq(s, "none") {
        Some(None)
    } else {
        match parse_pen_style(s) {
            Some(style) => Some(Some(style)),
            None => None,
        }
    }
}

/// The name of the sidebar page of a pen style.
pub open spec fn pen_style_page(x: PenStyle) -> Seq<char> {
    match x {
        PenStyle::Brush => "brush_page"@,
        PenStyle::Shaper => "shaper_page"@,
        PenStyle::Eraser => "eraser_page"@,
        PenStyle::Selector => "selector_page"@,
        PenStyle::Tools => "tools_page"@,
    }
}

/// Returns the name of the sidebar page of a pen style.
pub fn pen_style_page_name(x: PenStyle) -> (s: &'static str)
    ensures
        s@ == pen_style_page(x),
{
    match x {
        PenStyle::Brush => "brush_page",
        PenStyle::Shaper => "shaper_page",
        PenStyle::Eraser => "eraser_page",
        PenStyle::Selector => "selector_page",
        PenStyle::Tools => "tools_page",
    }
}

/// The icon of a brush style.
pub open spec fn brush_style_icon(x: BrushStyle) -> Seq<char> {
    match x {
        BrushStyle::Marker => "pen-brush-style-marker-symbolic"@,
        BrushStyle::Solid => "pen-brush-style-solid-symbolic"@,
        BrushStyle::Textured => "pen-brush-style-textured-symbolic"@,
    }
}

/// Returns the icon name of a brush style.
pub fn brush_style_icon_name(x: BrushStyle) -> (s: &'static str)
    ensures
        s@ == brush_style_icon(x),
{
    match x {
        BrushStyle::Marker => "pen-brush-style-marker-symbolic",
        BrushStyle::Solid => "pen-brush-style-solid-symbolic",
        BrushStyle::Textured => "pen-brush-style-textured-symbolic",
    }
}

/// The icon of a shaper style.
pub open spec fn shaper_style_icon(x: ShaperStyle) -> Seq<char> {
    match x {
        ShaperStyle::Smooth => "pen-shaper-style-smooth-symbolic"@,
        ShaperStyle::Rough => "pen-shaper-style-rough-symbolic"@,
    }
}

/// Returns the icon name of a shaper style.
pub fn shaper_style_icon_name(x: ShaperStyle) -> (s: &'static str)
    ensures
        s@ == shaper_style_icon(x),
{
    match x {
        ShaperStyle::Smooth => "pen-shaper-style-smooth-symbolic",
        ShaperStyle::Rough => "pen-shaper-style-rough-symbolic",
    }
}

/// The icon of a shape builder type.
pub open spec fn shape_buildertype_icon(x: ShapeBuilderType) -> Seq<char> {
    match x {
        ShapeBuilderType::Line => "shape-line-symbolic"@,
        ShapeBuilderType::Rectangle => "shape-rectangle-symbolic"@,
        ShapeBuilderType::Ellipse => "shape-ellipse-symbolic"@,
        ShapeBuilderType::FociEllipse => "shape-fociellipse-symbolic"@,
        ShapeBuilderType::QuadBez => "shape-quadbez-symbolic"@,
        ShapeBuilderType::CubBez => "shape-cubbez-symbolic"@,
    }
}

/// Returns the icon name of a shape builder type.
pub fn shape_buildertype_icon_name(x: ShapeBuilderType) -> (s: &'static str)
    ensures
        s@ == shape_buildertype_icon(x),
{
    match x {
        ShapeBuilderType::Line => "shape-line-symbolic",
        ShapeBuilderType::Rectangle => "shape-rectangle-symbolic",
        ShapeBuilderType::Ellipse => "shape-ellipse-symbolic",
        ShapeBuilderType::FociEllipse => "shape-fociellipse-symbolic",
        ShapeBuilderType::QuadBez => "shape-quadbez-symbolic",
        ShapeBuilderType::CubBez => "shape-cubbez-symbolic",
    }
}

/// The style that the `pen-style` action switches the engine's pen to: the
/// style its target names, when that differs from the style in use
/// (override included). An unknown target, or the style in use, changes
/// nothing.
pub open spec fn spec_pen_style_action(target: Seq<char>, current_with_override: PenStyle) -> Option<
    PenStyle,
> {
    match spec_parse_pen_style(target) {
        Some(style) => if style != current_with_override {
            Some(style)
        } else {
            None
        },
        None => None,
    }
}

/// Returns the style that the `pen-style` action switches to, if any.
pub fn pen_style_action(target: &str, current_with_override: PenStyle) -> (r: Option<PenStyle>)
    ensures
        r == spec_pen_style_action(target@, current_with_override),
{
    match parse_pen_style(target) {
        Some(style) => {
            if style != current_with_override {
                Some(style)
            } else {
                None
            }
        },
        None => None,
    }
}

/// Activating `pen-style` with the target of the style in use changes
/// nothing; with the target of another style it switches to that style.
pub proof fn lemma_pen_style_action_switches(requested: PenStyle, current: PenStyle)
    ensures
        spec_pen_style_action(pen_style_target(requested), current) == (if requested == current {
            None
        } else {
            Some(requested)
        }),
{
    lemma_pen_style_round_trip(requested);
}

/// The color scheme of the application.
#[derive(Clone, Copy, Debug, PartialEq, Eq, Structural)]
pub enum ColorScheme {
    Default,
    ForceLight,
    ForceDark,
}

/// The state string of the `color-scheme` action for a color scheme.
pub open spec fn color_scheme_state(x: ColorScheme) -> Seq<char> {
    match x {
        ColorScheme::Default => "default"@,
        ColorScheme::ForceLight => "force-light"@,
        ColorScheme::ForceDark => "force-dark"@,
    }
}

/// The color scheme that a state string names, if any.
pub open spec fn spec_parse_color_scheme(s: Seq<char>) -> Option<ColorScheme> {
    if s == "default"@ {
        Some(ColorScheme::Default)
    } else if s == "force-light"@ {
        Some(ColorScheme::ForceLight)
    } else if s == "force-dark"@ {
        Some(ColorScheme::ForceDark)
    } else {
        None
    }
}

/// Returns the state string of a color scheme.
pub fn color_scheme_to_state(x: ColorScheme) -> (s: &'static str)
    ensures
        s@ == color_scheme_state(x),
{
    match x {
        ColorScheme::Default => "default",
        ColorScheme::ForceLight => "force-light",
        ColorScheme::ForceDark => "force-dark",
    }
}

/// Parses the state of the `color-scheme` action.
pub fn parse_color_scheme(s: &str) -> (r: Option<ColorScheme>)
    ensures
        r == spec_parse_color_scheme(s@),
{
    if str_eq(s, "default") {
        Some(ColorScheme::Default)
    } else if str_eq(s, "force-light") {
        Some(ColorScheme::ForceLight)
    } else if str_eq(s, "force-dark") {
        Some(ColorScheme::ForceDark)
    } else {
        None
    }
}

/// The binding between the `color-scheme` action and the style manager goes
/// both ways without loss: every color scheme's state string maps back to it.
pub proof fn lemma_color_scheme_round_trip(x: ColorScheme)
    ensures
        spec_parse_color_scheme(color_scheme_state(x)) == Some(x),
{
    reveal_strlit("default");
    reveal_strlit("force-light");
    reveal_strlit("force-dark");
    assert("default"@.len() == 7);
    assert("force-light"@.len() == 11);
    assert("force-dark"@.len() == 10);
}

/// Overriding with any pen style's name sets that override, and `none`
/// drops it.
pub proof fn lemma_pen_style_override_targets(x: PenStyle)
    ensures
        spec_parse_pen_style_override(pen_style_target(x)) == Some(Some(x)),
        spec_parse_pen_style_override("none"@) == Some(None::<PenStyle>),
{
    lemma_pen_style_round_trip(x);
    reveal_strlit("none");
    reveal_strlit("brush");
    reveal_strlit("shaper");
    reveal_strlit("eraser");
    reveal_strlit("selector");
    reveal_strlit("tools");
    assert("none"@.len() == 4);
    assert("brush"@.len() == 5);
    assert("shaper"@.len() == 6);
    assert("eraser"@.len() == 6);
    assert("selector"@.len() == 8);
    assert("tools"@.len() == 5);
}

} // verus!
