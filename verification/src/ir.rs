//! The vector items that lowering produces, and what each of them holds.

use std::sync::Arc;
use vstd::prelude::*;
use crate::font::Font;
use crate::geom::{Point, Size, Transform};
use crate::scalar::Scalar;

verus! {

/// How the bytes of an image are encoded.
#[derive(Clone, Copy, Debug, PartialEq, Eq, Structural)]
pub enum ImageFormat {
    Png,
    Jpg,
    Gif,
    Svg,
}

/// How the ends of a stroked line are drawn.
#[derive(Clone, Copy, Debug, PartialEq, Eq, Structural)]
pub enum LineCap {
    Butt,
    Round,
    Square,
}

/// How the corners of a stroked line are drawn.
#[derive(Clone, Copy, Debug, PartialEq, Eq, Structural)]
pub enum LineJoin {
    Miter,
    Round,
    Bevel,
}

/// An encoded image with its size in pixels.
#[derive(Clone, Debug, PartialEq, Eq)]
pub struct Image {
    pub data: Vec<u8>,
    pub format: ImageFormat,
    pub width: u32,
    pub height: u32,
}

/// What an [`Image`] holds.
pub struct ImageView {
    pub data: Seq<u8>,
    pub format: ImageFormat,
    pub width: u32,
    pub height: u32,
}

impl View for Image {
    type V = ImageView;

    open spec fn view(&self) -> ImageView {
        ImageView { data: self.data@, format: self.format, width: self.width, height: self.height }
    }
}

/// An image drawn at a size.
#[derive(Clone, Debug, PartialEq, Eq)]
pub struct ImageItem {
    pub image: Arc<Image>,
    pub size: Size,
}

/// What an [`ImageItem`] holds.
pub struct ImageItemView {
    pub image: ImageView,
    pub size: Size,
}

impl View for ImageItem {
    type V = ImageItemView;

    open spec fn view(&self) -> ImageItemView {
        ImageItemView { image: self.image@, size: self.size }
    }
}

/// A region that follows a link when it is activated.
#[derive(Clone, Debug, PartialEq, Eq)]
pub struct LinkItem {
    pub href: String,
    pub size: Size,
}

/// What a [`LinkItem`] holds.
pub struct LinkItemView {
    pub href: Seq<char>,
    pub size: Size,
}

impl View for LinkItem {
    type V = LinkItemView;

    open spec fn view(&self) -> LinkItemView {
        LinkItemView { href: self.href@, size: self.size }
    }
}

/// One directive on how a path is painted.
#[derive(Clone, Debug, PartialEq, Eq)]
pub enum PathStyle {
    Fill(String),
    Stroke(String),
    StrokeLineCap(LineCap),
    StrokeLineJoin(LineJoin),
    StrokeMiterLimit(Scalar),
    StrokeDashOffset(Scalar),
    StrokeDashArray(Vec<Scalar>),
    StrokeWidth(Scalar),
}

/// What a [`PathStyle`] holds.
pub enum PathStyleView {
    Fill(Seq<char>),
    Stroke(Seq<char>),
    StrokeLineCap(LineCap),
    StrokeLineJoin(LineJoin),
    StrokeMiterLimit(Scalar),
    StrokeDashOffset(Scalar),
    StrokeDashArray(Seq<Scalar>),
    StrokeWidth(Scalar),
}

impl View for PathStyle {
    type V = PathStyleView;

    open spec fn view(&self) -> PathStyleView {
        match self {
            PathStyle::Fill(c) => PathStyleView::Fill(c@),
            PathStyle::Stroke(c) => PathStyleView::Stroke(c@),
            PathStyle::StrokeLineCap(c) => PathStyleView::StrokeLineCap(*c),
            PathStyle::StrokeLineJoin(j) => PathStyleView::StrokeLineJoin(*j),
            PathStyle::StrokeMiterLimit(s) => PathStyleView::StrokeMiterLimit(*s),
            PathStyle::StrokeDashOffset(s) => PathStyleView::StrokeDashOffset(*s),
            PathStyle::StrokeDashArray(a) => PathStyleView::StrokeDashArray(a@),
            PathStyle::StrokeWidth(s) => PathStyleView::StrokeWidth(*s),
        }
    }
}

/// What a list of style directives holds.
pub open spec fn styles_view(styles: Seq<PathStyle>) -> Seq<PathStyleView> {
    styles.map_values(|s: PathStyle| s@)
}

/// A path with the directives on how it is painted.
#[derive(Clone, Debug, PartialEq, Eq)]
pub struct PathItem {
    /// The path in the SVG path mini-language.
    pub d: String,
    /// The style directives, in the order in which they apply.
    pub styles: Vec<PathStyle>,
}

/// What a [`PathItem`] holds.
pub struct PathItemView {
    pub d: Seq<char>,
    pub styles: Seq<PathStyleView>,
}

impl View for PathItem {
    type V = PathItemView;

    open spec fn view(&self) -> PathItemView {
        PathItemView { d: self.d@, styles: styles_view(self.styles@) }
    }
}

/// A glyph image with the transform that places it.
#[derive(Clone, Debug, PartialEq, Eq)]
pub struct ImageGlyphItem {
    pub ts: Transform,
    pub image: ImageItem,
}

/// What an [`ImageGlyphItem`] holds.
pub struct ImageGlyphItemView {
    pub ts: Transform,
    pub image: ImageItemView,
}

impl View for ImageGlyphItem {
    type V = ImageGlyphItemView;

    open spec fn view(&self) -> ImageGlyphItemView {
        ImageGlyphItemView { ts: self.ts, image: self.image@ }
    }
}

/// A glyph outline with the transform that places it, if it has one.
#[derive(Clone, Debug, PartialEq, Eq)]
pub struct OutlineGlyphItem {
    pub ts: Option<Transform>,
    pub d: String,
}

/// What an [`OutlineGlyphItem`] holds.
pub struct OutlineGlyphItemView {
    pub ts: Option<Transform>,
    pub d: Seq<char>,
}

impl View for OutlineGlyphItem {
    type V = OutlineGlyphItemView;

    open spec fn view(&self) -> OutlineGlyphItemView {
        OutlineGlyphItemView { ts: self.ts, d: self.d@ }
    }
}

/// A glyph of a text run: not yet resolved, or resolved to an image, to an
/// outline, or to nothing that is drawn.
#[derive(Clone, Debug, PartialEq, Eq)]
pub enum GlyphItem {
    Raw(Font, ttf_parser::GlyphId),
    Image(Arc<ImageGlyphItem>),
    Outline(Arc<OutlineGlyphItem>),
    /// A glyph that draws nothing.
    Empty,
}

/// What a [`GlyphItem`] holds.
pub enum GlyphItemView {
    Raw(Font, u16),
    Image(ImageGlyphItemView),
    Outline(OutlineGlyphItemView),
    Empty,
}

impl View for GlyphItem {
    type V = GlyphItemView;

    open spec fn view(&self) -> GlyphItemView {
        match self {
            GlyphItem::Raw(font, id) => GlyphItemView::Raw(*font, id.0),
            GlyphItem::Image(image) => GlyphItemView::Image(image@),
            GlyphItem::Outline(outline) => GlyphItemView::Outline(outline@),
            GlyphItem::Empty => GlyphItemView::Empty,
        }
    }
}

/// What a list of glyphs with their offsets and advances holds.
pub open spec fn glyphs_view(glyphs: Seq<(Scalar, Scalar, GlyphItem)>) -> Seq<
    (Scalar, Scalar, GlyphItemView),
> {
    glyphs.map_values(|g: (Scalar, Scalar, GlyphItem)| (g.0, g.1, g.2@))
}

/// The characters and glyphs of a text run.
#[derive(Clone, Debug, PartialEq, Eq)]
pub struct TextItemContent {
    /// The characters that the run shows.
    pub content: String,
    /// The glyphs, each with its offset and its advance.
    pub glyphs: Vec<(Scalar, Scalar, GlyphItem)>,
    /// The provenance id of the run.
    pub span_id: u64,
}

/// What a [`TextItemContent`] holds.
pub struct TextItemContentView {
    pub content: Seq<char>,
    pub glyphs: Seq<(Scalar, Scalar, GlyphItemView)>,
    pub span_id: u64,
}

impl View for TextItemContent {
    type V = TextItemContentView;

    open spec fn view(&self) -> TextItemContentView {
        TextItemContentView {
            content: self.content@,
            glyphs: glyphs_view(self.glyphs@),
            span_id: self.span_id,
        }
    }
}

/// How a text run is set: its size, its direction and its fill.
#[derive(Clone, Debug, PartialEq, Eq)]
pub struct TextShape {
    /// The font size.
    pub size: Scalar,
    /// The direction tag: `ltr`, `rtl`, `ttb` or `btt`.
    pub dir: String,
    /// The fill color as CSS text.
    pub fill: String,
}

/// What a [`TextShape`] holds.
pub struct TextShapeView {
    pub size: Scalar,
    pub dir: Seq<char>,
    pub fill: Seq<char>,
}

impl View for TextShape {
    type V = TextShapeView;

    open spec fn view(&self) -> TextShapeView {
        TextShapeView { size: self.size, dir: self.dir@, fill: self.fill@ }
    }
}

/// A text run.
#[derive(Clone, Debug, PartialEq, Eq)]
pub struct TextItem {
    pub font: Font,
    pub content: Arc<TextItemContent>,
    pub shape: Arc<TextShape>,
}

/// What a [`TextItem`] holds.
pub struct TextItemView {
    pub font: Font,
    pub content: TextItemContentView,
    pub shape: TextShapeView,
}

impl View for TextItem {
    type V = TextItemView;

    open spec fn view(&self) -> TextItemView {
        TextItemView { font: self.font, content: self.content@, shape: self.shape@ }
    }
}

/// What is applied to an item: an affine matrix, or a clip to a path.
#[derive(Clone, Debug, PartialEq, Eq)]
pub enum TransformItem {
    Matrix(Arc<Transform>),
    Clip(Arc<PathItem>),
}

/// What a [`TransformItem`] holds.
pub enum TransformItemView {
    Matrix(Transform),
    Clip(PathItemView),
}

impl View for TransformItem {
    type V = TransformItemView;

    open spec fn view(&self) -> TransformItemView {
        match self {
            TransformItem::Matrix(m) => TransformItemView::Matrix(**m),
            TransformItem::Clip(p) => TransformItemView::Clip(p@),
        }
    }
}

/// A vector item.
#[derive(Debug, PartialEq, Eq)]
pub enum SvgItem {
    /// An image, with its provenance id.
    Image(ImageItem, u64),
    /// A link region.
    Link(LinkItem),
    /// A painted path, with its provenance id.
    Path(PathItem, u64),
    /// A text run.
    Text(TextItem),
    /// An item under a matrix or a clip.
    Transformed(TransformItem, Box<SvgItem>),
    /// Items, each at a position, in the order in which they are painted.
    Group(Vec<(Point, SvgItem)>),
}

/// What an [`SvgItem`] holds.
pub enum SvgItemView {
    Image(ImageItemView, u64),
    Link(LinkItemView),
    Path(PathItemView, u64),
    Text(TextItemView),
    Transformed(TransformItemView, Box<SvgItemView>),
    Group(Seq<(Point, SvgItemView)>),
}

/// What a list of positioned items holds.
pub open spec fn positioned_view(items: Seq<(Point, SvgItem)>) -> Seq<(Point, SvgItemView)>
    decreases items,
{
    Seq::new(
        items.len(),
        |i: int|
            if 0 <= i < items.len() {
                (items[i].0, item_view(items[i].1))
            } else {
                arbitrary()
            },
    )
}

/// What a vector item holds.
pub open spec fn item_view(item: SvgItem) -> SvgItemView
    decreases item,
{
    match item {
        SvgItem::Image(image, id) => SvgItemView::Image(image@, id),
        SvgItem::Link(link) => SvgItemView::Link(link@),
        SvgItem::Path(path, id) => SvgItemView::Path(path@, id),
        SvgItem::Text(text) => SvgItemView::Text(text@),
        SvgItem::Transformed(transform, inner) => SvgItemView::Transformed(
            transform@,
            Box::new(item_view(*inner)),
        ),
        SvgItem::Group(items) => SvgItemView::Group(positioned_view(items@)),
    }
}

impl View for SvgItem {
    type V = SvgItemView;

    open spec fn view(&self) -> SvgItemView {
        item_view(*self)
    }
}

impl SvgItemView {
    /// Whether the item is a link region.
    pub open spec fn is_link(self) -> bool {
        self is Link
    }
}

} // verus!
