//! Lowering of frames into vector items.

use std::sync::Arc;
use vstd::prelude::*;
use vstd::string::*;
use crate::color::css_text;
use crate::decimal::{decimal, push_decimal};
use crate::doc::{
    position_of, DashPattern, Destination, Dir, Document, FixedStroke, Frame, FrameItem,
    Geometry, Glyph, GroupItem, Introspector, Location, Meta, Paint, Position, Shape,
};
use crate::geom::{Point, Size};
use crate::ir::{
    glyphs_view, positioned_view, styles_view, GlyphItem, GlyphItemView, Image, ImageItem,
    ImageItemView, LineCap, LineJoin, LinkItem, LinkItemView, PathItem, PathItemView, PathStyle,
    PathStyleView, SvgItem, SvgItemView, TextItem, TextItemContent, TextItemContentView,
    TextItemView, TextShape, TextShapeView, TransformItem, TransformItemView,
};
use crate::path2d::{
    lemma_path_text_push, path_text, rect_commands, PathCommand, SvgPath2DBuilder,
};
use crate::scalar::{scalar_text, times_micros, Scalar};
use crate::share::share;
use crate::span::{max_attached_id, max_attached_with, run_span_id, span_id, SourceSpan};
use crate::utils::ToCssExt;

verus! {

/// The command that draws a segment of a path.
pub open spec fn segment_command(item: crate::doc::PathItem) -> PathCommand {
    match item {
        crate::doc::PathItem::MoveTo(p) => PathCommand::MoveTo(p.x, p.y),
        crate::doc::PathItem::LineTo(p) => PathCommand::LineTo(p.x, p.y),
        crate::doc::PathItem::CubicTo(c1, c2, end) => PathCommand::CurveTo(
            c1.x,
            c1.y,
            c2.x,
            c2.y,
            end.x,
            end.y,
        ),
        crate::doc::PathItem::ClosePath => PathCommand::Close,
    }
}

/// The commands that draw a geometry from its origin.
pub open spec fn geometry_commands(geometry: Geometry) -> Seq<PathCommand> {
    let zero = Scalar { micros: 0 };
    match geometry {
        Geometry::Line(target) => seq![PathCommand::LineTo(target.x, target.y)],
        Geometry::Rect(size) => seq![
            PathCommand::LineTo(zero, size.y),
            PathCommand::LineTo(size.x, size.y),
            PathCommand::LineTo(size.x, zero),
            PathCommand::Close,
        ],
        Geometry::Path(items) => items@.map_values(|i: crate::doc::PathItem| segment_command(i)),
    }
}

/// The commands of a shape: a move to the shape's origin, then the commands
/// of its geometry.
pub open spec fn shape_commands(geometry: Geometry) -> Seq<PathCommand> {
    seq![PathCommand::MoveTo(Scalar { micros: 0 }, Scalar { micros: 0 })] + geometry_commands(
        geometry,
    )
}

/// The CSS text of a paint.
pub open spec fn paint_css(paint: Paint) -> Seq<char> {
    match paint {
        Paint::Solid(color) => css_text(color),
    }
}

/// The directive of a fill, if there is a fill.
pub open spec fn fill_styles(fill: Option<Paint>) -> Seq<PathStyleView> {
    match fill {
        Some(paint) => seq![PathStyleView::Fill(paint_css(paint))],
        None => Seq::<PathStyleView>::empty(),
    }
}

/// The directives of a dash pattern: its offset, then its array.
pub open spec fn dash_styles(dash: Option<DashPattern>) -> Seq<PathStyleView> {
    match dash {
        Some(pattern) => seq![
            PathStyleView::StrokeDashOffset(pattern.phase),
            PathStyleView::StrokeDashArray(pattern.array@),
        ],
        None => Seq::<PathStyleView>::empty(),
    }
}

/// The directive of a line cap, unless it is the default, butt.
pub open spec fn cap_styles(cap: LineCap) -> Seq<PathStyleView> {
    match cap {
        LineCap::Butt => Seq::<PathStyleView>::empty(),
        _ => seq![PathStyleView::StrokeLineCap(cap)],
    }
}

/// The directive of a line join, unless it is the default, miter.
pub open spec fn join_styles(join: LineJoin) -> Seq<PathStyleView> {
    match join {
        LineJoin::Miter => Seq::<PathStyleView>::empty(),
        _ => seq![PathStyleView::StrokeLineJoin(join)],
    }
}

/// The directives of a stroke: dash pattern, width, miter limit, cap, join
/// and color, in this order.
pub open spec fn stroke_styles(stroke: Option<FixedStroke>) -> Seq<PathStyleView> {
    match stroke {
        Some(s) => dash_styles(s.dash_pattern) + seq![
            PathStyleView::StrokeWidth(s.thickness),
            PathStyleView::StrokeMiterLimit(s.miter_limit),
        ] + cap_styles(s.line_cap) + join_styles(s.line_join) + seq![
            PathStyleView::Stroke(paint_css(s.paint)),
        ],
        None => Seq::<PathStyleView>::empty(),
    }
}

/// The path item of a shape: the text of its commands, and the directives of
/// its fill followed by those of its stroke.
pub open spec fn lowered_shape(shape: Shape) -> PathItemView {
    PathItemView {
        d: path_text(shape_commands(shape.geometry)),
        styles: fill_styles(shape.fill) + stroke_styles(shape.stroke),
    }
}

/// The place of a style directive in the order in which a lowered shape
/// holds its directives.
pub open spec fn style_rank(style: PathStyleView) -> int {
    match style {
        PathStyleView::Fill(_) => 0,
        PathStyleView::StrokeDashOffset(_) => 1,
        PathStyleView::StrokeDashArray(_) => 2,
        PathStyleView::StrokeWidth(_) => 3,
        PathStyleView::StrokeMiterLimit(_) => 4,
        PathStyleView::StrokeLineCap(_) => 5,
        PathStyleView::StrokeLineJoin(_) => 6,
        PathStyleView::Stroke(_) => 7,
    }
}

/// Whether the directives of `styles` have ranks from `low` to `high` that
/// grow from each directive to the next.
pub open spec fn ranked(styles: Seq<PathStyleView>, low: int, high: int) -> bool {
    &&& forall|i: int| 0 <= i < styles.len() ==> low <= #[trigger] style_rank(styles[i]) <= high
    &&& forall|i: int, j: int|
        0 <= i < j < styles.len() ==> style_rank(#[trigger] styles[i]) < style_rank(
            #[trigger] styles[j],
        )
}

proof fn lemma_ranked_concat(
    first: Seq<PathStyleView>,
    second: Seq<PathStyleView>,
    low: int,
    middle: int,
    high: int,
)
    requires
        ranked(first, low, middle),
        ranked(second, middle + 1, high),
        low <= middle < high,
    ensures
        ranked(first + second, low, high),
{
    let all = first + second;
    assert forall|i: int| 0 <= i < all.len() implies low <= #[trigger] style_rank(all[i])
        <= high by {
        if i < first.len() {
            assert(all[i] == first[i]);
        } else {
            assert(all[i] == second[i - first.len()]);
        }
    }
    assert forall|i: int, j: int| 0 <= i < j < all.len() implies style_rank(#[trigger] all[i])
        < style_rank(#[trigger] all[j]) by {
        if j < first.len() {
            assert(all[i] == first[i] && all[j] == first[j]);
        } else if i < first.len() {
            assert(all[i] == first[i] && all[j] == second[j - first.len()]);
            assert(style_rank(first[i]) <= middle);
            assert(style_rank(second[j - first.len()]) >= middle + 1);
        } else {
            assert(all[i] == second[i - first.len()] && all[j] == second[j - first.len()]);
        }
    }
}

/// The directives of a lowered shape come in one fixed order of kinds, so
/// there is at most one of each kind; and there is a directive for a cap or a
/// join only where it is not the default.
pub proof fn lemma_one_style_of_each_kind(shape: Shape)
    ensures
        forall|i: int, j: int|
            0 <= i < j < lowered_shape(shape).styles.len() ==> style_rank(
                #[trigger] lowered_shape(shape).styles[i],
            ) < style_rank(#[trigger] lowered_shape(shape).styles[j]),
        forall|i: int|
            0 <= i < lowered_shape(shape).styles.len() ==> #[trigger] lowered_shape(
                shape,
            ).styles[i] != PathStyleView::StrokeLineCap(LineCap::Butt) && lowered_shape(
                shape,
            ).styles[i] != PathStyleView::StrokeLineJoin(LineJoin::Miter),
{
    let fill = fill_styles(shape.fill);
    assert(ranked(fill, 0, 0));
    let stroke = stroke_styles(shape.stroke);
    match shape.stroke {
        Some(s) => {
            let dash = dash_styles(s.dash_pattern);
            let width = seq![
                PathStyleView::StrokeWidth(s.thickness),
                PathStyleView::StrokeMiterLimit(s.miter_limit),
            ];
            let cap = cap_styles(s.line_cap);
            let join = join_styles(s.line_join);
            let color = seq![PathStyleView::Stroke(paint_css(s.paint))];
            assert(ranked(dash, 1, 2));
            assert(ranked(width, 3, 4));
            assert(ranked(cap, 5, 5));
            assert(ranked(join, 6, 6));
            assert(ranked(color, 7, 7));
            lemma_ranked_concat(dash, width, 1, 2, 4);
            lemma_ranked_concat(dash + width, cap, 1, 4, 5);
            lemma_ranked_concat(dash + width + cap, join, 1, 5, 6);
            lemma_ranked_concat(dash + width + cap + join, color, 1, 6, 7);
            assert(ranked(stroke, 1, 7));
            assert forall|i: int| 0 <= i < stroke.len() implies #[trigger] stroke[i]
                != PathStyleView::StrokeLineCap(LineCap::Butt) && stroke[i]
                != PathStyleView::StrokeLineJoin(LineJoin::Miter) by {
                let head = dash + width;
                if i < head.len() {
                    assert(stroke[i] == head[i]);
                    assert(1 <= style_rank(head[i]) <= 4);
                } else if i < head.len() + cap.len() {
                    assert(stroke[i] == cap[i - head.len()]);
                } else if i < head.len() + cap.len() + join.len() {
                    assert(stroke[i] == join[i - head.len() - cap.len()]);
                } else {
                    assert(stroke[i] == color[i - head.len() - cap.len() - join.len()]);
                }
            }
        },
        None => {
            assert(ranked(stroke, 1, 7));
        },
    }
    lemma_ranked_concat(fill, stroke, 0, 0, 7);
    let all = lowered_shape(shape).styles;
    assert(all == fill + stroke);
    assert forall|i: int| 0 <= i < all.len() implies #[trigger] all[i]
        != PathStyleView::StrokeLineCap(LineCap::Butt) && all[i] != PathStyleView::StrokeLineJoin(
        LineJoin::Miter,
    ) by {
        if i < fill.len() {
            assert(all[i] == fill[i]);
        } else {
            assert(all[i] == stroke[i - fill.len()]);
        }
    }
}

/// The image item of an image drawn at a size.
pub open spec fn lowered_image(image: Image, size: Size) -> ImageItemView {
    ImageItemView { image: image@, size }
}

/// The reference of a link to a position in the document: a call of the
/// viewer's location handler with the page and the point.
pub open spec fn position_href(position: Position) -> Seq<char> {
    "@typst:handleTypstLocation(this, "@ + decimal(position.page as nat) + ", "@ + scalar_text(
        position.point.x.micros as int,
    ) + ", "@ + scalar_text(position.point.y.micros as int) + ")"@
}

/// The tag of a text direction.
pub open spec fn dir_tag(dir: Dir) -> Seq<char> {
    match dir {
        Dir::LTR => "ltr"@,
        Dir::RTL => "rtl"@,
        Dir::TTB => "ttb"@,
        Dir::BTT => "btt"@,
    }
}

/// `em` ems at a font size.
pub open spec fn em_at(em: Scalar, size: Scalar) -> Scalar {
    Scalar { micros: times_micros(em.micros as int, size.micros as int) as i64 }
}

/// The glyph of a lowered text run: offset and advance at the font size, and
/// the glyph itself, not yet resolved.
pub open spec fn lowered_glyph(text: crate::doc::TextItem, glyph: Glyph) -> (
    Scalar,
    Scalar,
    GlyphItemView,
) {
    (
        em_at(glyph.x_offset, text.size),
        em_at(glyph.x_advance, text.size),
        GlyphItemView::Raw(text.font, glyph.id),
    )
}

/// The spans of the glyphs of a run.
pub open spec fn glyph_spans(glyphs: Seq<Glyph>) -> Seq<SourceSpan> {
    glyphs.map_values(|g: Glyph| g.span)
}

/// The text item of a text run.
pub open spec fn lowered_text(text: crate::doc::TextItem) -> TextItemView {
    TextItemView {
        font: text.font,
        content: TextItemContentView {
            content: text.text@,
            glyphs: text.glyphs@.map_values(|g: Glyph| lowered_glyph(text, g)),
            span_id: run_span_id(glyph_spans(text.glyphs@)),
        },
        shape: TextShapeView {
            size: text.size,
            dir: dir_tag(text.dir),
            fill: paint_css(text.fill),
        },
    }
}

/// Renders the commands of a geometry, from a move to the origin.
fn shape_path(geometry: &Geometry) -> (d: String)
    ensures
        d@ == path_text(shape_commands(*geometry)),
{
    let zero = Scalar::zero();
    let mut builder = SvgPath2DBuilder::new();
    let ghost mut commands = Seq::<PathCommand>::empty();
    assert(path_text(commands) =~= Seq::<char>::empty());
    // the path starts at the shape's own origin
    builder.move_to(zero, zero);
    proof {
        lemma_path_text_push(commands, PathCommand::MoveTo(zero, zero));
        commands = commands.push(PathCommand::MoveTo(zero, zero));
        assert(builder.0@ =~= path_text(commands));
    }
    match geometry {
        Geometry::Line(target) => {
            builder.line_to(target.x, target.y);
            proof {
                lemma_path_text_push(commands, PathCommand::LineTo(target.x, target.y));
                commands = commands.push(PathCommand::LineTo(target.x, target.y));
            }
        },
        Geometry::Rect(size) => {
            builder.line_to(zero, size.y);
            builder.line_to(size.x, size.y);
            builder.line_to(size.x, zero);
            builder.close();
            proof {
                let c1 = commands.push(PathCommand::LineTo(zero, size.y));
                let c2 = c1.push(PathCommand::LineTo(size.x, size.y));
                let c3 = c2.push(PathCommand::LineTo(size.x, zero));
                lemma_path_text_push(commands, PathCommand::LineTo(zero, size.y));
                lemma_path_text_push(c1, PathCommand::LineTo(size.x, size.y));
                lemma_path_text_push(c2, PathCommand::LineTo(size.x, zero));
                lemma_path_text_push(c3, PathCommand::Close);
                commands = c3.push(PathCommand::Close);
            }
        },
        Geometry::Path(items) => {
            let mut i: usize = 0;
            while i < items.len()
                invariant
                    i <= items.len(),
                    builder.0@ == path_text(commands),
                    commands == seq![PathCommand::MoveTo(zero, zero)] + items@.take(
                        i as int,
                    ).map_values(|p: crate::doc::PathItem| segment_command(p)),
                decreases items.len() - i,
            {
                let item = items[i];
                match item {
                    crate::doc::PathItem::MoveTo(p) => builder.move_to(p.x, p.y),
                    crate::doc::PathItem::LineTo(p) => builder.line_to(p.x, p.y),
                    crate::doc::PathItem::CubicTo(c1, c2, end) => builder.curve_to(
                        c1.x,
                        c1.y,
                        c2.x,
                        c2.y,
                        end.x,
                        end.y,
                    ),
                    crate::doc::PathItem::ClosePath => builder.close(),
                }
                proof {
                    lemma_path_text_push(commands, segment_command(item));
                    commands = commands.push(segment_command(item));
                    assert(items@.take(i + 1) =~= items@.take(i as int).push(item));
                    assert(commands =~= seq![PathCommand::MoveTo(zero, zero)] + items@.take(
                        i + 1,
                    ).map_values(|p: crate::doc::PathItem| segment_command(p)));
                }
                i += 1;
            }
            proof {
                assert(items@.take(i as int) =~= items@);
            }
        },
    }
    proof {
        assert(commands =~= shape_commands(*geometry));
    }
    builder.0
}

/// Renders a paint as CSS text.
fn paint_to_css(paint: &Paint) -> (r: String)
    ensures
        r@ == paint_css(*paint),
{
    match paint {
        Paint::Solid(color) => (*color).to_css(),
    }
}

/// Appends the directives of a stroke to `styles`.
fn push_stroke_styles(styles: &mut Vec<PathStyle>, stroke: &FixedStroke)
    ensures
        styles_view(final(styles)@) == styles_view(old(styles)@) + stroke_styles(Some(*stroke)),
{
    let ghost before = styles_view(styles@);
    if let Some(pattern) = &stroke.dash_pattern {
        styles.push(PathStyle::StrokeDashOffset(pattern.phase));
        let mut array: Vec<Scalar> = Vec::new();
        let mut i: usize = 0;
        while i < pattern.array.len()
            invariant
                i <= pattern.array.len(),
                array@ == pattern.array@.take(i as int),
            decreases pattern.array.len() - i,
        {
            array.push(pattern.array[i]);
            proof {
                assert(array@ =~= pattern.array@.take(i + 1));
            }
            i += 1;
        }
        proof {
            assert(pattern.array@.take(i as int) =~= pattern.array@);
        }
        styles.push(PathStyle::StrokeDashArray(array));
    }
    assert(styles_view(styles@) =~= before + dash_styles(stroke.dash_pattern));
    styles.push(PathStyle::StrokeWidth(stroke.thickness));
    styles.push(PathStyle::StrokeMiterLimit(stroke.miter_limit));
    match stroke.line_cap {
        LineCap::Butt => {},
        LineCap::Round => styles.push(PathStyle::StrokeLineCap(LineCap::Round)),
        LineCap::Square => styles.push(PathStyle::StrokeLineCap(LineCap::Square)),
    }
    assert(styles_view(styles@) =~= before + dash_styles(stroke.dash_pattern) + seq![
        PathStyleView::StrokeWidth(stroke.thickness),
        PathStyleView::StrokeMiterLimit(stroke.miter_limit),
    ] + cap_styles(stroke.line_cap));
    match stroke.line_join {
        LineJoin::Miter => {},
        LineJoin::Bevel => styles.push(PathStyle::StrokeLineJoin(LineJoin::Bevel)),
        LineJoin::Round => styles.push(PathStyle::StrokeLineJoin(LineJoin::Round)),
    }
    styles.push(PathStyle::Stroke(paint_to_css(&stroke.paint)));
    assert(styles_view(styles@) =~= before + stroke_styles(Some(*stroke)));
}

/// Lowers a raster or vector image drawn at a size into an image item.
pub fn lower_image(image: &Arc<Image>, size: Size) -> (r: ImageItem)
    ensures
        r@ == lowered_image(**image, size),
{
    ImageItem { image: share(image), size }
}

/// The tag of a text direction.
fn dir_to_tag(dir: Dir) -> (r: String)
    ensures
        r@ == dir_tag(dir),
{
    match dir {
        Dir::LTR => "ltr".to_owned(),
        Dir::RTL => "rtl".to_owned(),
        Dir::TTB => "ttb".to_owned(),
        Dir::BTT => "btt".to_owned(),
    }
}

/// The clip of a group: the rectangle from the origin to the size of its frame.
pub open spec fn clip_path(size: Size) -> PathItemView {
    PathItemView {
        d: path_text(
            rect_commands(Scalar { micros: 0 }, Scalar { micros: 0 }, size.x, size.y),
        ),
        styles: Seq::<PathStyleView>::empty(),
    }
}

/// The link item of a destination: the URL itself, or the reference to the
/// position, which for a location is the position of its element.
pub open spec fn lowered_destination(
    positions: Seq<(Location, Position)>,
    destination: Destination,
    size: Size,
) -> SvgItemView {
    SvgItemView::Link(
        LinkItemView {
            href: match destination {
                Destination::Url(url) => url@,
                Destination::Position(position) => position_href(position),
                Destination::Location(location) => position_href(
                    position_of(positions, location),
                ),
            },
            size,
        },
    )
}

/// Whether a positioned item is a link region.
pub open spec fn link_entry(entry: (Point, SvgItemView)) -> bool {
    entry.1 is Link
}

/// The link regions among `items`, in their order.
pub open spec fn links_of(items: Seq<(Point, SvgItemView)>) -> Seq<(Point, SvgItemView)> {
    items.filter(|e: (Point, SvgItemView)| link_entry(e))
}

/// The items among `items` that are no link regions, in their order.
pub open spec fn others_of(items: Seq<(Point, SvgItemView)>) -> Seq<(Point, SvgItemView)> {
    items.filter(|e: (Point, SvgItemView)| !link_entry(e))
}

/// The items of `items` that are no links, in their order, followed by those
/// that are links, in their order.
pub open spec fn links_last(items: Seq<(Point, SvgItemView)>) -> Seq<(Point, SvgItemView)> {
    others_of(items) + links_of(items)
}

/// One more item at the end of a list joins the links if it is a link, and
/// the other items if it is not.
pub proof fn lemma_partition_push(items: Seq<(Point, SvgItemView)>, entry: (Point, SvgItemView))
    ensures
        links_of(items.push(entry)) == if link_entry(entry) {
            links_of(items).push(entry)
        } else {
            links_of(items)
        },
        others_of(items.push(entry)) == if link_entry(entry) {
            others_of(items)
        } else {
            others_of(items).push(entry)
        },
{
    reveal(Seq::filter);
    assert(items.push(entry).drop_last() =~= items);
}

/// The indices of the items of `items` that are links (`links` holds) or are
/// no links (`links` does not hold), in ascending order.
pub open spec fn kept_indices(items: Seq<(Point, SvgItemView)>, links: bool) -> Seq<int>
    decreases items.len(),
{
    if items.len() == 0 {
        Seq::<int>::empty()
    } else {
        let rest = kept_indices(items.drop_last(), links);
        if link_entry(items.last()) == links {
            rest.push(items.len() - 1)
        } else {
            rest
        }
    }
}

/// The items that a partition keeps.
pub open spec fn kept(items: Seq<(Point, SvgItemView)>, links: bool) -> Seq<(Point, SvgItemView)> {
    if links {
        links_of(items)
    } else {
        others_of(items)
    }
}

/// Each side of the partition holds exactly the items of its kind, in the
/// order in which the list holds them: the kept items are the items at the
/// kept indices, the kept indices ascend, and every index of an item of the
/// kind is among them.
pub proof fn lemma_partition_is_stable(items: Seq<(Point, SvgItemView)>, links: bool)
    ensures
        kept(items, links).len() == kept_indices(items, links).len(),
        forall|k: int|
            0 <= k < kept_indices(items, links).len() ==> {
                &&& 0 <= #[trigger] kept_indices(items, links)[k] < items.len()
                &&& kept(items, links)[k] == items[kept_indices(items, links)[k]]
                &&& link_entry(kept(items, links)[k]) == links
            },
        forall|j: int, k: int|
            0 <= j < k < kept_indices(items, links).len() ==> kept_indices(items, links)[j]
                < kept_indices(items, links)[k],
        forall|i: int|
            0 <= i < items.len() && link_entry(items[i]) == links ==> kept_indices(
                items,
                links,
            ).contains(i),
    decreases items.len(),
{
    reveal(Seq::filter);
    if items.len() > 0 {
        let init = items.drop_last();
        let last = items.last();
        lemma_partition_is_stable(init, links);
        assert(init.push(last) =~= items);
        lemma_partition_push(init, last);
        let indices = kept_indices(items, links);
        let before = kept_indices(init, links);
        assert forall|i: int|
            0 <= i < items.len() && link_entry(items[i]) == links implies indices.contains(i) by {
            if i < init.len() {
                assert(init[i] == items[i]);
                assert(before.contains(i));
                let k = choose|k: int| 0 <= k < before.len() && before[k] == i;
                assert(indices[k] == i);
            } else {
                assert(indices[indices.len() - 1] == i);
            }
        }
    }
}

/// The partition neither drops nor repeats an item: links last is as long as
/// the list, its first part holds no link and its second part only links.
pub proof fn lemma_links_last_partitions(items: Seq<(Point, SvgItemView)>)
    ensures
        links_last(items).len() == items.len(),
        kept_indices(items, false).len() + kept_indices(items, true).len() == items.len(),
        forall|k: int|
            0 <= k < others_of(items).len() ==> links_last(items)[k] == others_of(items)[k]
                && !link_entry(#[trigger] links_last(items)[k]),
        forall|k: int|
            others_of(items).len() <= k < items.len() ==> links_last(items)[k] == links_of(
                items,
            )[k - others_of(items).len()] && link_entry(#[trigger] links_last(items)[k]),
    decreases items.len(),
{
    lemma_partition_is_stable(items, true);
    lemma_partition_is_stable(items, false);
    if items.len() > 0 {
        let init = items.drop_last();
        lemma_links_last_partitions(init);
        assert(init.push(items.last()) =~= items);
        lemma_partition_push(init, items.last());
    }
}

/// A group that clips lowers to the matrix of the group around the clip to
/// the size of its frame around the lowered frame; one that does not clip,
/// to the matrix around the lowered frame.
pub proof fn lemma_group_nesting(positions: Seq<(Location, Position)>, group: GroupItem)
    ensures
        lowered_item(positions, FrameItem::Group(group)) == Some(
            lowered_group(positions, group),
        ),
        group.clips ==> lowered_group(positions, group) == SvgItemView::Transformed(
            TransformItemView::Matrix(group.transform),
            Box::new(
                SvgItemView::Transformed(
                    TransformItemView::Clip(clip_path(group.frame.size)),
                    Box::new(lowered_frame(positions, group.frame)),
                ),
            ),
        ),
        !group.clips ==> lowered_group(positions, group) == SvgItemView::Transformed(
            TransformItemView::Matrix(group.transform),
            Box::new(lowered_frame(positions, group.frame)),
        ),
{
}

/// The vector item of a frame item, if it is visual.
pub open spec fn lowered_item(positions: Seq<(Location, Position)>, item: FrameItem) -> Option<
    SvgItemView,
>
    decreases item, 0nat,
{
    match item {
        FrameItem::Group(group) => Some(lowered_group(positions, group)),
        FrameItem::Text(text) => Some(SvgItemView::Text(lowered_text(text))),
        FrameItem::Shape(shape, span) => Some(
            SvgItemView::Path(lowered_shape(shape), span_id(span)),
        ),
        FrameItem::Image(image, size, span) => Some(
            SvgItemView::Image(lowered_image(*image, size), span_id(span)),
        ),
        FrameItem::Meta(Meta::Link(destination), size) => Some(
            lowered_destination(positions, destination, size),
        ),
        FrameItem::Meta(_, _) => None,
    }
}

/// The visual items of a list of frame items, each at its position, in the
/// order of the list.
pub open spec fn lowered_items(
    positions: Seq<(Location, Position)>,
    items: Seq<(Point, FrameItem)>,
) -> Seq<(Point, SvgItemView)>
    decreases items, 1nat,
{
    if items.len() == 0 {
        Seq::<(Point, SvgItemView)>::empty()
    } else {
        let rest = lowered_items(positions, items.drop_last());
        match lowered_item(positions, items.last().1) {
            Some(lowered) => rest.push((items.last().0, lowered)),
            None => rest,
        }
    }
}

/// The vector item of a frame: the group of its visual items, links last.
pub open spec fn lowered_frame(positions: Seq<(Location, Position)>, frame: Frame) -> SvgItemView
    decreases frame, 2nat,
{
    SvgItemView::Group(links_last(lowered_items(positions, frame.items@)))
}

/// The vector item of a group: its frame, under the clip to the frame's size
/// where the group clips, under the matrix of the group.
pub open spec fn lowered_group(
    positions: Seq<(Location, Position)>,
    group: GroupItem,
) -> SvgItemView
    decreases group, 3nat,
{
    let inner = lowered_frame(positions, group.frame);
    let clipped = if group.clips {
        SvgItemView::Transformed(
            TransformItemView::Clip(clip_path(group.frame.size)),
            Box::new(inner),
        )
    } else {
        inner
    };
    SvgItemView::Transformed(TransformItemView::Matrix(group.transform), Box::new(clipped))
}

/// The group of a lowered frame holds every visual item of the frame once:
/// first those that are no links, then the links, each part in the order of
/// the frame.
pub proof fn lemma_frame_links_last(positions: Seq<(Location, Position)>, frame: Frame)
    ensures
        ({
            let visual = lowered_items(positions, frame.items@);
            let others = kept_indices(visual, false);
            let links = kept_indices(visual, true);
            &&& lowered_frame(positions, frame) matches SvgItemView::Group(group)
            &&& group.len() == visual.len()
            &&& others.len() + links.len() == visual.len()
            &&& forall|k: int|
                0 <= k < others.len() ==> 0 <= #[trigger] others[k] < visual.len() && group[k]
                    == visual[others[k]] && !link_entry(group[k])
            &&& forall|k: int|
                0 <= k < links.len() ==> 0 <= #[trigger] links[k] < visual.len()
                    && group[others.len() + k] == visual[links[k]]
                    && link_entry(group[others.len() + k])
            &&& forall|j: int, k: int| 0 <= j < k < others.len() ==> others[j] < others[k]
            &&& forall|j: int, k: int| 0 <= j < k < links.len() ==> links[j] < links[k]
        }),
{
    let visual = lowered_items(positions, frame.items@);
    lemma_partition_is_stable(visual, false);
    lemma_partition_is_stable(visual, true);
    lemma_links_last_partitions(visual);
}

/// Lowers the frames of a document into vector items.
pub struct LowerBuilder {
    introspector: Introspector,
}

impl LowerBuilder {
    /// The positions of the elements of the document that the builder was
    /// made for.
    pub closed spec fn positions(&self) -> Seq<(Location, Position)> {
        self.introspector.positions@
    }

    /// A builder for the frames of a document.
    pub fn new(output: &Document) -> (r: Self)
        ensures
            r.positions() == output.introspector.positions@,
    {
        let source = &output.introspector.positions;
        let mut positions: Vec<(Location, Position)> = Vec::new();
        let mut i: usize = 0;
        while i < source.len()
            invariant
                i <= source.len(),
                positions@ == source@.take(i as int),
            decreases source.len() - i,
        {
            positions.push(source[i]);
            proof {
                assert(positions@ =~= source@.take(i + 1));
            }
            i += 1;
        }
        proof {
            assert(source@.take(i as int) =~= source@);
        }
        LowerBuilder { introspector: Introspector { positions } }
    }

    /// Lowers a frame into a vector item.
    pub fn lower(&mut self, frame: &Frame) -> (r: SvgItem)
        ensures
            r@ == lowered_frame(old(self).positions(), *frame),
            *final(self) == *old(self),
    {
        self.lower_frame(frame)
    }

    /// Lowers a frame into the group of its visual items, links last.
    fn lower_frame(&self, frame: &Frame) -> (r: SvgItem)
        ensures
            r@ == lowered_frame(self.positions(), *frame),
        decreases frame, 1nat,
    {
        let mut items: Vec<(Point, SvgItem)> = Vec::new();
        let mut links: Vec<(Point, SvgItem)> = Vec::new();
        let ghost positions = self.positions();
        let mut i: usize = 0;
        proof {
            reveal(Seq::filter);
            assert(frame.items@.take(0) =~= Seq::<(Point, FrameItem)>::empty());
            assert(positioned_view(items@) =~= others_of(
                lowered_items(positions, frame.items@.take(0)),
            ));
            assert(positioned_view(links@) =~= links_of(
                lowered_items(positions, frame.items@.take(0)),
            ));
        }
        while i < frame.items.len()
            invariant
                i <= frame.items.len(),
                positions == self.positions(),
                positioned_view(items@) == others_of(
                    lowered_items(positions, frame.items@.take(i as int)),
                ),
                positioned_view(links@) == links_of(
                    lowered_items(positions, frame.items@.take(i as int)),
                ),
            decreases frame.items.len() - i,
        {
            let entry = &frame.items[i];
            let ghost before = lowered_items(positions, frame.items@.take(i as int));
            proof {
                assert(frame.items@.take(i + 1).drop_last() =~= frame.items@.take(i as int));
                assert(frame.items@.take(i + 1).last() == *entry);
            }
            let lowered = match &entry.1 {
                FrameItem::Group(group) => Some(self.lower_group(group)),
                FrameItem::Text(text) => Some(Self::lower_text(text)),
                FrameItem::Shape(shape, span) => Some(
                    SvgItem::Path(Self::lower_shape(shape), span.to_u64()),
                ),
                FrameItem::Image(image, size, span) => Some(
                    SvgItem::Image(lower_image(image, *size), span.to_u64()),
                ),
                FrameItem::Meta(meta, size) => match meta {
                    Meta::Link(destination) => match destination {
                        Destination::Url(url) => Some(self.lower_link(url.as_str(), *size)),
                        Destination::Position(position) => Some(
                            Self::lower_position(*position, *size),
                        ),
                        Destination::Location(location) => {
                            let position = self.introspector.position(*location);
                            Some(Self::lower_position(position, *size))
                        },
                    },
                    // the other kinds of meta items are not visual
                    Meta::Elem(_) | Meta::PageNumbering | Meta::PdfPageLabel | Meta::Hide => None,
                },
            };
            assert(match lowered {
                Some(item) => lowered_item(positions, entry.1) == Some(item@),
                None => lowered_item(positions, entry.1) is None,
            });
            if let Some(item) = lowered {
                let ghost view = (entry.0, item@);
                proof {
                    lemma_partition_push(before, view);
                }
                if is_link(&item) {
                    let ghost old_links = links@;
                    links.push((entry.0, item));
                    assert(positioned_view(links@) =~= positioned_view(old_links).push(view));
                } else {
                    let ghost old_items = items@;
                    items.push((entry.0, item));
                    assert(positioned_view(items@) =~= positioned_view(old_items).push(view));
                }
            }
            i += 1;
        }
        proof {
            assert(frame.items@.take(i as int) =~= frame.items@);
        }
        let ghost first = items@;
        let ghost second = links@;
        items.append(&mut links);
        assert(positioned_view(items@) =~= positioned_view(first) + positioned_view(second));
        SvgItem::Group(items)
    }

    /// Lowers a group into its frame under the group's clip and matrix.
    fn lower_group(&self, group: &GroupItem) -> (r: SvgItem)
        ensures
            r@ == lowered_group(self.positions(), *group),
        decreases group, 0nat,
    {
        let frame = self.lower_frame(&group.frame);
        let inner = if group.clips {
            let mut builder = SvgPath2DBuilder::new();
            let size = group.frame.size;
            builder.rect(Scalar::zero(), Scalar::zero(), size.x, size.y);
            let mask = PathItem { d: builder.0, styles: Vec::new() };
            proof {
                assert(mask@.d =~= clip_path(size).d);
                assert(mask@.styles =~= clip_path(size).styles);
                assert(mask@ == clip_path(size));
            }
            let ghost framed = frame@;
            let clipped = SvgItem::Transformed(
                TransformItem::Clip(Arc::new(mask)),
                Box::new(frame),
            );
            assert(clipped@ == SvgItemView::Transformed(
                TransformItemView::Clip(clip_path(size)),
                Box::new(framed),
            ));
            clipped
        } else {
            frame
        };
        let ghost within = inner@;
        let r = SvgItem::Transformed(
            TransformItem::Matrix(Arc::new(group.transform)),
            Box::new(inner),
        );
        assert(r@ == SvgItemView::Transformed(
            TransformItemView::Matrix(group.transform),
            Box::new(within),
        ));
        r
    }

    /// Lowers a link to a URL into a link item.
    pub fn lower_link(&self, url: &str, size: Size) -> (r: SvgItem)
        ensures
            r@ == SvgItemView::Link(LinkItemView { href: url@, size }),
    {
        SvgItem::Link(LinkItem { href: url.to_owned(), size })
    }

    /// Lowers a link to a position in the document into a link item.
    pub fn lower_position(pos: Position, size: Size) -> (r: SvgItem)
        ensures
            r@ == SvgItemView::Link(LinkItemView { href: position_href(pos), size }),
    {
        let mut href = String::new();
        href.append("@typst:handleTypstLocation(this, ");
        push_decimal(&mut href, pos.page as u64);
        href.append(", ");
        pos.point.x.write_to(&mut href);
        href.append(", ");
        pos.point.y.write_to(&mut href);
        href.append(")");
        assert(href@ =~= position_href(pos));
        SvgItem::Link(LinkItem { href, size })
    }

    /// Lowers a text run into a text item.
    pub fn lower_text(text: &crate::doc::TextItem) -> (r: SvgItem)
        ensures
            r@ == SvgItemView::Text(lowered_text(*text)),
    {
        let mut glyphs: Vec<(Scalar, Scalar, GlyphItem)> = Vec::new();
        let mut best: Option<u64> = None;
        let mut i: usize = 0;
        while i < text.glyphs.len()
            invariant
                i <= text.glyphs.len(),
                glyphs_view(glyphs@) == text.glyphs@.take(i as int).map_values(
                    |g: Glyph| lowered_glyph(*text, g),
                ),
                best == max_attached_id(glyph_spans(text.glyphs@.take(i as int))),
            decreases text.glyphs.len() - i,
        {
            let glyph = text.glyphs[i];
            let ghost before = glyphs@;
            let lowered = (
                glyph.x_offset.times(text.size),
                glyph.x_advance.times(text.size),
                GlyphItem::Raw(text.font, ttf_parser::GlyphId(glyph.id)),
            );
            assert((lowered.0, lowered.1, lowered.2@) == lowered_glyph(*text, glyph));
            glyphs.push(lowered);
            best = max_attached_with(best, &glyph.span);
            proof {
                assert(glyphs_view(glyphs@) =~= glyphs_view(before).push(lowered_glyph(*text, glyph)));
                assert(text.glyphs@.take(i + 1) =~= text.glyphs@.take(i as int).push(glyph));
                assert(glyph_spans(text.glyphs@.take(i + 1)).drop_last() =~= glyph_spans(
                    text.glyphs@.take(i as int),
                ));
                assert(glyphs_view(glyphs@) =~= text.glyphs@.take(i + 1).map_values(
                    |g: Glyph| lowered_glyph(*text, g),
                ));
            }
            i += 1;
        }
        proof {
            assert(text.glyphs@.take(i as int) =~= text.glyphs@);
        }
        let span_id = match best {
            Some(id) => id,
            None => SourceSpan::detached().to_u64(),
        };
        SvgItem::Text(
            TextItem {
                font: text.font,
                content: Arc::new(TextItemContent { content: text.text.clone(), glyphs, span_id }),
                shape: Arc::new(
                    TextShape {
                        size: text.size,
                        dir: dir_to_tag(text.dir),
                        fill: paint_to_css(&text.fill),
                    },
                ),
            },
        )
    }

    /// Lowers a geometric shape into a path item.
    pub fn lower_shape(shape: &Shape) -> (r: PathItem)
        ensures
            r@ == lowered_shape(*shape),
    {
        let d = shape_path(&shape.geometry);
        let mut styles: Vec<PathStyle> = Vec::new();
        if let Some(paint) = &shape.fill {
            styles.push(PathStyle::Fill(paint_to_css(paint)));
        }
        assert(styles_view(styles@) =~= fill_styles(shape.fill));
        if let Some(stroke) = &shape.stroke {
            push_stroke_styles(&mut styles, stroke);
        }
        assert(styles_view(styles@) =~= fill_styles(shape.fill) + stroke_styles(shape.stroke));
        PathItem { d, styles }
    }
}

/// Whether a vector item is a link region.
fn is_link(item: &SvgItem) -> (r: bool)
    ensures
        r == (item@ is Link),
{
    match item {
        SvgItem::Link(_) => true,
        _ => false,
    }
}

} // verus!
