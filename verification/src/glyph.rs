//! Resolution of glyphs: embedded vector image, embedded raster image, or
//! outline, in this order.

use std::collections::HashMap;
use std::sync::Arc;
use vstd::prelude::*;
use vstd::string::*;
use vstd::utf8::*;
use crate::font::{Font, GlyphProvider, GlyphTables};
use crate::geom::{Size, Transform};
use crate::inflate::{decompressed, inflate, starts_with_gzip_magic};
use crate::ir::{
    GlyphItem, GlyphItemView, Image, ImageFormat, ImageGlyphItem, ImageGlyphItemView, ImageItem,
    ImageItemView, ImageView, OutlineGlyphItem, OutlineGlyphItemView,
};
use crate::scalar::{ratio_micros, scalar_text, Scalar};
use crate::share::share;
use crate::viewbox::{normalize_viewbox, normalized};

verus! {

broadcast use vstd::std_specs::hash::group_hash_axioms;

/// The whole number `v` as a scalar.
pub open spec fn whole(v: int) -> Scalar {
    Scalar { micros: (v * 1_000_000) as i64 }
}

/// The quotient of two whole numbers as a scalar.
pub open spec fn quotient(num: int, den: int) -> Scalar {
    Scalar { micros: ratio_micros(num, den) as i64 }
}

/// The view box of the embedded vector glyphs of a font: one em wide and
/// high, from the ascender down.
pub open spec fn default_view_box(font: Font) -> Seq<char> {
    "0 "@ + scalar_text(-(font.ascender as int) * 1_000_000) + " "@ + scalar_text(
        font.units_per_em as int * 1_000_000,
    ) + " "@ + scalar_text(font.units_per_em as int * 1_000_000)
}

/// The image of the embedded vector glyph: the document of the glyph,
/// decompressed, with its view box normalized, one em wide and high. `None`
/// where the font has no such glyph or its document is malformed.
pub open spec fn svg_glyph_image(tables: GlyphTables, font: Font, id: u16) -> Option<ImageView> {
    if tables.svg.contains_key((font.id, id)) {
        match decompressed(tables.svg[(font.id, id)]) {
            Some(markup) => match normalized(markup, encode_utf8(default_view_box(font))) {
                Some(document) => Some(
                    ImageView {
                        data: document,
                        format: ImageFormat::Svg,
                        width: font.units_per_em as u32,
                        height: font.units_per_em as u32,
                    },
                ),
                None => None,
            },
            None => None,
        }
    } else {
        None
    }
}

/// The embedded vector glyph, flipped and moved down by the ascender: the
/// document has its origin at the top left, the glyph on the baseline.
pub open spec fn svg_glyph_item(tables: GlyphTables, font: Font, id: u16) -> Option<
    ImageGlyphItemView,
> {
    match svg_glyph_image(tables, font, id) {
        Some(image) => Some(
            ImageGlyphItemView {
                ts: Transform {
                    sx: whole(1),
                    ky: whole(0),
                    kx: whole(0),
                    sy: whole(-1),
                    tx: whole(0),
                    ty: whole(font.ascender as int),
                },
                image: ImageItemView {
                    image,
                    size: Size { x: whole(image.width as int), y: whole(image.height as int) },
                },
            },
        ),
        None => None,
    }
}

/// The embedded raster glyph, scaled from its pixels to one em, flipped, and
/// moved by its offset and by twice the ascender less one em.
pub open spec fn bitmap_glyph_item(tables: GlyphTables, font: Font, id: u16) -> Option<
    ImageGlyphItemView,
> {
    if tables.bitmap.contains_key((font.id, id)) {
        let glyph = tables.bitmap[(font.id, id)];
        let upem = font.units_per_em as int;
        Some(
            ImageGlyphItemView {
                ts: Transform {
                    sx: quotient(upem, glyph.image.width as int),
                    ky: whole(0),
                    kx: whole(0),
                    sy: quotient(-upem, glyph.image.height as int),
                    tx: whole(glyph.x as int),
                    ty: whole(2 * (font.ascender as int) - upem + glyph.y as int),
                },
                image: ImageItemView {
                    image: glyph.image,
                    size: Size {
                        x: whole(glyph.image.width as int),
                        y: whole(glyph.image.height as int),
                    },
                },
            },
        )
    } else {
        None
    }
}

/// The outline of the glyph, as the font has it, without a transform.
pub open spec fn outline_glyph_item(tables: GlyphTables, font: Font, id: u16) -> Option<
    OutlineGlyphItemView,
> {
    if tables.outline.contains_key((font.id, id)) {
        Some(OutlineGlyphItemView { ts: None, d: tables.outline[(font.id, id)] })
    } else {
        None
    }
}

/// What a glyph resolves to. A glyph that is not yet resolved becomes its
/// embedded vector image if it has one, else its embedded raster image if it
/// has one, else its outline if it has one, and else nothing. A resolved
/// glyph stays as it is.
pub open spec fn resolved(tables: GlyphTables, item: GlyphItemView) -> Option<GlyphItemView> {
    match item {
        GlyphItemView::Raw(font, id) => match svg_glyph_item(tables, font, id) {
            Some(image) => Some(GlyphItemView::Image(image)),
            None => match bitmap_glyph_item(tables, font, id) {
                Some(image) => Some(GlyphItemView::Image(image)),
                None => match outline_glyph_item(tables, font, id) {
                    Some(outline) => Some(GlyphItemView::Outline(outline)),
                    None => None,
                },
            },
        },
        _ => Some(item),
    }
}

/// The tables without the embedded vector image of a glyph.
pub open spec fn without_svg(tables: GlyphTables, font: Font, id: u16) -> GlyphTables {
    GlyphTables { svg: tables.svg.remove((font.id, id)), ..tables }
}

/// The tables without the embedded raster image of a glyph.
pub open spec fn without_bitmap(tables: GlyphTables, font: Font, id: u16) -> GlyphTables {
    GlyphTables { bitmap: tables.bitmap.remove((font.id, id)), ..tables }
}

/// A resolved glyph resolves to itself, and what a glyph resolves to is
/// resolved.
pub proof fn lemma_resolved_is_fixed(tables: GlyphTables, item: GlyphItemView)
    ensures
        !(item is Raw) ==> resolved(tables, item) == Some(item),
        resolved(tables, item) matches Some(r) ==> !(r is Raw) && resolved(tables, r) == Some(r),
{
}

/// The tiers are tried in a fixed order. A glyph with a well-formed embedded
/// vector image resolves to it, whatever else the font has for the glyph.
/// Without the vector image, a glyph with an embedded raster image resolves to
/// that. Without either, the glyph resolves to its outline, and to nothing
/// where it has none.
pub proof fn lemma_fallback_order(tables: GlyphTables, font: Font, id: u16)
    ensures
        svg_glyph_item(tables, font, id) matches Some(image) ==> resolved(
            tables,
            GlyphItemView::Raw(font, id),
        ) == Some(GlyphItemView::Image(image)),
        bitmap_glyph_item(tables, font, id) matches Some(image) ==> resolved(
            without_svg(tables, font, id),
            GlyphItemView::Raw(font, id),
        ) == Some(GlyphItemView::Image(image)),
        outline_glyph_item(tables, font, id) matches Some(outline) ==> resolved(
            without_bitmap(without_svg(tables, font, id), font, id),
            GlyphItemView::Raw(font, id),
        ) == Some(GlyphItemView::Outline(outline)),
        outline_glyph_item(tables, font, id) is None ==> resolved(
            without_bitmap(without_svg(tables, font, id), font, id),
            GlyphItemView::Raw(font, id),
        ) is None,
{
}

/// What an optional glyph item holds.
pub open spec fn glyph_option_view(item: Option<GlyphItem>) -> Option<GlyphItemView> {
    match item {
        Some(glyph) => Some(glyph@),
        None => None,
    }
}

/// Renders the view box of the embedded vector glyphs of a font.
fn view_box_of(font: &Font) -> (r: String)
    ensures
        r@ == default_view_box(*font),
{
    let upem = Scalar::from_int(font.units_per_em as i32);
    let mut out = String::new();
    out.append("0 ");
    Scalar::from_int(-(font.ascender as i32)).write_to(&mut out);
    out.append(" ");
    upem.write_to(&mut out);
    out.append(" ");
    upem.write_to(&mut out);
    assert(out@ =~= default_view_box(*font));
    out
}

/// Extracts the embedded vector glyph of a font as an image.
pub fn extract_svg_glyph(g: &GlyphProvider, font: &Font, id: ttf_parser::GlyphId) -> (r: Option<
    Image,
>)
    ensures
        match r {
            Some(image) => svg_glyph_image(g@, *font, id.0) == Some(image@),
            None => svg_glyph_image(g@, *font, id.0) is None,
        },
{
    let data = g.svg_glyph(font, id)?;
    let view_box = view_box_of(font);
    // a compressed document starts with the magic bytes of gzip
    let document = if starts_with_gzip_magic(data.as_slice()) {
        let decoded = inflate(data.as_slice())?;
        normalize_viewbox(decoded.as_slice(), view_box.as_str())?
    } else {
        normalize_viewbox(data.as_slice(), view_box.as_str())?
    };
    Some(
        Image {
            data: document,
            format: ImageFormat::Svg,
            width: font.units_per_em as u32,
            height: font.units_per_em as u32,
        },
    )
}

/// Resolves glyphs from the tables of a glyph provider.
pub struct GlyphLowerBuilder<'a> {
    gp: &'a GlyphProvider,
}

impl<'a> GlyphLowerBuilder<'a> {
    /// The provider that glyphs are resolved from.
    pub closed spec fn provider(&self) -> &'a GlyphProvider {
        self.gp
    }

    /// A builder that resolves glyphs from `gp`.
    pub fn new(gp: &'a GlyphProvider) -> (r: Self)
        ensures
            r.provider() == gp,
    {
        Self { gp }
    }

    /// Resolves a glyph. `None` where a glyph that is not yet resolved has
    /// neither an embedded image nor an outline.
    pub fn lower_glyph(&self, glyph_item: &GlyphItem) -> (r: Option<GlyphItem>)
        ensures
            glyph_option_view(r) == resolved(self.provider()@, glyph_item@),
            !(glyph_item is Raw) ==> r == Some(*glyph_item),
    {
        match glyph_item {
            GlyphItem::Raw(font, id) => {
                let id = *id;
                if let Some(image) = self.lower_svg_glyph(font, id) {
                    return Some(GlyphItem::Image(image));
                }
                if let Some(image) = self.lower_bitmap_glyph(font, id) {
                    return Some(GlyphItem::Image(image));
                }
                match self.lower_outline_glyph(font, id) {
                    Some(outline) => Some(GlyphItem::Outline(outline)),
                    None => None,
                }
            },
            GlyphItem::Image(..) | GlyphItem::Outline(..) | GlyphItem::Empty => Some(
                duplicate(glyph_item),
            ),
        }
    }

    /// Lowers the embedded vector glyph into an image glyph.
    fn lower_svg_glyph(&self, font: &Font, id: ttf_parser::GlyphId) -> (r: Option<
        Arc<ImageGlyphItem>,
    >)
        ensures
            match r {
                Some(item) => svg_glyph_item(self.provider()@, *font, id.0) == Some(item@),
                None => svg_glyph_item(self.provider()@, *font, id.0) is None,
            },
    {
        let glyph_image = extract_svg_glyph(self.gp, font, id)?;
        let size = Size {
            x: Scalar::from_int(font.units_per_em as i32),
            y: Scalar::from_int(font.units_per_em as i32),
        };
        let image = ImageItem { image: Arc::new(glyph_image), size };
        // the image hangs from the ascender, y down
        let ts = Transform {
            sx: Scalar::from_int(1),
            ky: Scalar::zero(),
            kx: Scalar::zero(),
            sy: Scalar::from_int(-1),
            tx: Scalar::zero(),
            ty: Scalar::from_int(font.ascender as i32),
        };
        Some(Arc::new(ImageGlyphItem { ts, image }))
    }

    /// Lowers the embedded raster glyph into an image glyph.
    fn lower_bitmap_glyph(&self, font: &Font, id: ttf_parser::GlyphId) -> (r: Option<
        Arc<ImageGlyphItem>,
    >)
        ensures
            match r {
                Some(item) => bitmap_glyph_item(self.provider()@, *font, id.0) == Some(item@),
                None => bitmap_glyph_item(self.provider()@, *font, id.0) is None,
            },
    {
        let glyph = self.gp.bitmap_glyph(font, id)?;
        let upem: i64 = font.units_per_em as i64;
        let width: u32 = glyph.image.width;
        let height: u32 = glyph.image.height;
        let size = Size { x: whole_of(width), y: whole_of(height) };
        let image = ImageItem { image: share(&glyph.image), size };
        // the ascender is counted twice and one em taken off, which registers
        // the bitmaps of color fonts
        let adjusted: i32 = 2 * (font.ascender as i32) - font.units_per_em as i32;
        let ts = Transform::scale_then_translate(
            Scalar::ratio(upem, width as i64),
            Scalar::ratio(-upem, height as i64),
            Scalar::from_int(glyph.x as i32),
            Scalar::from_int(adjusted + glyph.y as i32),
        );
        Some(Arc::new(ImageGlyphItem { ts, image }))
    }

    /// Lowers the outline of the glyph into an outline glyph.
    fn lower_outline_glyph(&self, font: &Font, id: ttf_parser::GlyphId) -> (r: Option<
        Arc<OutlineGlyphItem>,
    >)
        ensures
            match r {
                Some(item) => outline_glyph_item(self.provider()@, *font, id.0) == Some(item@),
                None => outline_glyph_item(self.provider()@, *font, id.0) is None,
            },
    {
        let d = self.gp.outline_glyph(font, id)?;
        Some(Arc::new(OutlineGlyphItem { ts: None, d: d.clone() }))
    }
}

/// A count of pixels as a scalar.
fn whole_of(v: u32) -> (r: Scalar)
    ensures
        r == whole(v as int),
{
    Scalar { micros: (v as i64) * 1_000_000 }
}

/// Another handle to the same glyph item; what it shares is not copied.
fn duplicate(item: &GlyphItem) -> (r: GlyphItem)
    ensures
        r == *item,
{
    match item {
        GlyphItem::Raw(font, id) => GlyphItem::Raw(*font, *id),
        GlyphItem::Image(image) => GlyphItem::Image(share(image)),
        GlyphItem::Outline(outline) => GlyphItem::Outline(share(outline)),
        GlyphItem::Empty => GlyphItem::Empty,
    }
}

/// The key under which the cache holds what a glyph of a font resolves to.
pub open spec fn cache_key(font: Font, id: u16) -> u128 {
    (((font.id as int * 0x1_0000 + font.units_per_em as int) * 0x1_0000 + (font.ascender as int
        + 0x8000)) * 0x1_0000 + id as int) as u128
}

/// A glyph resolver that remembers what each glyph of each font resolved to,
/// for as long as it lives. The tables of the provider do not change while
/// the resolver borrows them, so no entry ever goes stale.
pub struct GlyphCache<'a> {
    builder: GlyphLowerBuilder<'a>,
    entries: HashMap<u128, Option<GlyphItem>>,
}

impl<'a> GlyphCache<'a> {
    /// The provider that glyphs are resolved from.
    pub closed spec fn provider(&self) -> &'a GlyphProvider {
        self.builder.provider()
    }

    /// Whether the cache remembers what the glyph resolves to.
    pub closed spec fn remembers(&self, font: Font, id: u16) -> bool {
        self.entries@.contains_key(cache_key(font, id))
    }

    /// Every remembered entry is what its glyph resolves to.
    pub closed spec fn wf(&self) -> bool {
        forall|font: Font, id: u16| #[trigger]
            self.entries@.contains_key(cache_key(font, id)) ==> glyph_option_view(
                self.entries@[cache_key(font, id)],
            ) == resolved(self.provider()@, GlyphItemView::Raw(font, id))
    }

    /// A resolver for the glyphs of `gp` that remembers nothing yet.
    pub fn new(gp: &'a GlyphProvider) -> (r: Self)
        ensures
            r.wf(),
            r.provider() == gp,
            forall|font: Font, id: u16| !r.remembers(font, id),
    {
        GlyphCache { builder: GlyphLowerBuilder::new(gp), entries: HashMap::new() }
    }

    /// Resolves a glyph as [`GlyphLowerBuilder::lower_glyph`] does, from
    /// memory where the glyph was resolved before, and remembers the result.
    pub fn lower_glyph(&mut self, glyph_item: &GlyphItem) -> (r: Option<GlyphItem>)
        requires
            old(self).wf(),
        ensures
            final(self).wf(),
            final(self).provider() == old(self).provider(),
            glyph_option_view(r) == resolved(old(self).provider()@, glyph_item@),
            !(glyph_item is Raw) ==> r == Some(*glyph_item),
            forall|font: Font, id: u16|
                final(self).remembers(font, id) <==> (old(self).remembers(font, id)
                    || glyph_item@ == GlyphItemView::Raw(font, id)),
    {
        match glyph_item {
            GlyphItem::Raw(font, id) => {
                let key = key_of(font, *id);
                match self.entries.get(&key) {
                    Some(Some(item)) => {
                        return Some(duplicate(item));
                    },
                    Some(None) => {
                        return None;
                    },
                    None => {},
                }
                let lowered = self.builder.lower_glyph(glyph_item);
                let remembered = match &lowered {
                    Some(item) => Some(duplicate(item)),
                    None => None,
                };
                self.entries.insert(key, remembered);
                proof {
                    lemma_cache_key_injective();
                }
                lowered
            },
            GlyphItem::Image(..) | GlyphItem::Outline(..) | GlyphItem::Empty => Some(
                duplicate(glyph_item),
            ),
        }
    }
}

/// Two glyphs have the same cache key only if they are the same glyph of the
/// same font.
pub proof fn lemma_cache_key_injective()
    ensures
        forall|f1: Font, i1: u16, f2: Font, i2: u16|
            #[trigger] cache_key(f1, i1) == #[trigger] cache_key(f2, i2) ==> f1 == f2 && i1 == i2,
{
}

fn key_of(font: &Font, id: ttf_parser::GlyphId) -> (r: u128)
    ensures
        r == cache_key(*font, id.0),
{
    let ascender: u128 = (font.ascender as i32 + 0x8000) as u128;
    (((font.id as u128) * 0x1_0000 + font.units_per_em as u128) * 0x1_0000 + ascender) * 0x1_0000
        + id.0 as u128
}

} // verus!
