//! Fonts and the glyph tables of loaded fonts.

use std::collections::HashMap;
use std::sync::Arc;
use vstd::prelude::*;
use crate::ir::{Image, ImageView};

verus! {

broadcast use vstd::std_specs::hash::group_hash_axioms;

/// `ttf_parser::GlyphId`: the number of a glyph within its font. The type is
/// declared with its one public field, the number.
#[verifier::external_type_specification]
pub struct ExGlyphId(ttf_parser::GlyphId);

/// `<ttf_parser::GlyphId as Clone>::clone`, which the type derives beside
/// `Copy`: the clone is the identifier itself.
pub assume_specification[ <ttf_parser::GlyphId as Clone>::clone ](
    id: &ttf_parser::GlyphId,
) -> (r: ttf_parser::GlyphId)
    ensures
        r == *id,
;

/// A loaded font: its identity and its metrics in font design units.
#[derive(Clone, Copy, Debug, PartialEq, Eq, Structural)]
pub struct Font {
    /// What tells this font from every other loaded font.
    pub id: u32,
    /// The number of design units in one em.
    pub units_per_em: u16,
    /// The height of the ascender above the baseline.
    pub ascender: i16,
}

/// An embedded raster image of a glyph, at the greatest resolution that the
/// font offers, with the offset of the image from the glyph origin.
#[derive(Clone, Debug, PartialEq, Eq)]
pub struct BitmapGlyph {
    pub image: Arc<Image>,
    pub x: i16,
    pub y: i16,
}

/// What a [`BitmapGlyph`] holds.
pub struct BitmapGlyphView {
    pub image: ImageView,
    pub x: i16,
    pub y: i16,
}

impl View for BitmapGlyph {
    type V = BitmapGlyphView;

    open spec fn view(&self) -> BitmapGlyphView {
        BitmapGlyphView { image: self.image@, x: self.x, y: self.y }
    }
}

/// What a [`GlyphProvider`] holds: three tables from a font's identity and a
/// glyph's number to the glyph's embedded vector document, raster image and
/// outline path.
pub struct GlyphTables {
    pub svg: Map<(u32, u16), Seq<u8>>,
    pub bitmap: Map<(u32, u16), BitmapGlyphView>,
    pub outline: Map<(u32, u16), Seq<char>>,
}

/// The key under which the tables hold a glyph.
pub open spec fn glyph_key(font: u32, glyph: u16) -> u64 {
    (font as int * 0x1_0000 + glyph as int) as u64
}

/// The glyph tables of the loaded fonts, resident in memory.
pub struct GlyphProvider {
    svg: HashMap<u64, Vec<u8>>,
    bitmap: HashMap<u64, BitmapGlyph>,
    outline: HashMap<u64, String>,
}

impl View for GlyphProvider {
    type V = GlyphTables;

    closed spec fn view(&self) -> GlyphTables {
        GlyphTables {
            svg: Map::new(
                |k: (u32, u16)| self.svg@.contains_key(glyph_key(k.0, k.1)),
                |k: (u32, u16)| self.svg@[glyph_key(k.0, k.1)]@,
            ),
            bitmap: Map::new(
                |k: (u32, u16)| self.bitmap@.contains_key(glyph_key(k.0, k.1)),
                |k: (u32, u16)| self.bitmap@[glyph_key(k.0, k.1)]@,
            ),
            outline: Map::new(
                |k: (u32, u16)| self.outline@.contains_key(glyph_key(k.0, k.1)),
                |k: (u32, u16)| self.outline@[glyph_key(k.0, k.1)]@,
            ),
        }
    }
}

fn key_of(font: &Font, id: ttf_parser::GlyphId) -> (r: u64)
    ensures
        r == glyph_key(font.id, id.0),
{
    (font.id as u64) * 0x1_0000 + id.0 as u64
}

impl GlyphProvider {
    /// A provider with empty tables.
    pub fn new() -> (r: GlyphProvider)
        ensures
            r@.svg == Map::<(u32, u16), Seq<u8>>::empty(),
            r@.bitmap == Map::<(u32, u16), BitmapGlyphView>::empty(),
            r@.outline == Map::<(u32, u16), Seq<char>>::empty(),
    {
        let r = GlyphProvider {
            svg: HashMap::new(),
            bitmap: HashMap::new(),
            outline: HashMap::new(),
        };
        assert(r@.svg =~= Map::<(u32, u16), Seq<u8>>::empty());
        assert(r@.bitmap =~= Map::<(u32, u16), BitmapGlyphView>::empty());
        assert(r@.outline =~= Map::<(u32, u16), Seq<char>>::empty());
        r
    }

    /// Records the embedded vector document of a glyph, in place of an earlier one.
    pub fn insert_svg_glyph(&mut self, font: &Font, id: ttf_parser::GlyphId, data: Vec<u8>)
        ensures
            final(self)@ == (GlyphTables {
                svg: old(self)@.svg.insert((font.id, id.0), data@),
                ..old(self)@
            }),
    {
        self.svg.insert(key_of(font, id), data);
        assert(self@.svg =~= old(self)@.svg.insert((font.id, id.0), data@));
    }

    /// Records the embedded raster image of a glyph, in place of an earlier one.
    pub fn insert_bitmap_glyph(&mut self, font: &Font, id: ttf_parser::GlyphId, glyph: BitmapGlyph)
        ensures
            final(self)@ == (GlyphTables {
                bitmap: old(self)@.bitmap.insert((font.id, id.0), glyph@),
                ..old(self)@
            }),
    {
        self.bitmap.insert(key_of(font, id), glyph);
        assert(self@.bitmap =~= old(self)@.bitmap.insert((font.id, id.0), glyph@));
    }

    /// Records the outline path of a glyph, in place of an earlier one.
    pub fn insert_outline_glyph(&mut self, font: &Font, id: ttf_parser::GlyphId, d: String)
        ensures
            final(self)@ == (GlyphTables {
                outline: old(self)@.outline.insert((font.id, id.0), d@),
                ..old(self)@
            }),
    {
        self.outline.insert(key_of(font, id), d);
        assert(self@.outline =~= old(self)@.outline.insert((font.id, id.0), d@));
    }

    /// Forgets the embedded vector document of a glyph.
    pub fn remove_svg_glyph(&mut self, font: &Font, id: ttf_parser::GlyphId)
        ensures
            final(self)@ == (GlyphTables {
                svg: old(self)@.svg.remove((font.id, id.0)),
                ..old(self)@
            }),
    {
        let key = key_of(font, id);
        self.svg.remove(&key);
        assert(self@.svg =~= old(self)@.svg.remove((font.id, id.0)));
    }

    /// Forgets the embedded raster image of a glyph.
    pub fn remove_bitmap_glyph(&mut self, font: &Font, id: ttf_parser::GlyphId)
        ensures
            final(self)@ == (GlyphTables {
                bitmap: old(self)@.bitmap.remove((font.id, id.0)),
                ..old(self)@
            }),
    {
        let key = key_of(font, id);
        self.bitmap.remove(&key);
        assert(self@.bitmap =~= old(self)@.bitmap.remove((font.id, id.0)));
    }

    /// The embedded vector document of a glyph, if the font has one.
    pub fn svg_glyph(&self, font: &Font, id: ttf_parser::GlyphId) -> (r: Option<&Vec<u8>>)
        ensures
            match r {
                Some(data) => self@.svg.contains_key((font.id, id.0)) && self@.svg[(font.id, id.0)]
                    == data@,
                None => !self@.svg.contains_key((font.id, id.0)),
            },
    {
        let key = key_of(font, id);
        self.svg.get(&key)
    }

    /// The embedded raster image of a glyph, if the font has one.
    pub fn bitmap_glyph(&self, font: &Font, id: ttf_parser::GlyphId) -> (r: Option<&BitmapGlyph>)
        ensures
            match r {
                Some(glyph) => self@.bitmap.contains_key((font.id, id.0)) && self@.bitmap[(
                    font.id,
                    id.0,
                )] == glyph@,
                None => !self@.bitmap.contains_key((font.id, id.0)),
            },
    {
        let key = key_of(font, id);
        self.bitmap.get(&key)
    }

    /// The outline path of a glyph, if the glyph has an outline.
    pub fn outline_glyph(&self, font: &Font, id: ttf_parser::GlyphId) -> (r: Option<&String>)
        ensures
            match r {
                Some(d) => self@.outline.contains_key((font.id, id.0)) && self@.outline[(
                    font.id,
                    id.0,
                )] == d@,
                None => !self@.outline.contains_key((font.id, id.0)),
            },
    {
        let key = key_of(font, id);
        self.outline.get(&key)
    }
}

} // verus!
