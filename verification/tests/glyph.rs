use std::io::Write;
use std::sync::Arc;

use ttf_parser::GlyphId;
use vector_lowering::font::{BitmapGlyph, Font, GlyphProvider};
use vector_lowering::geom::{Size, Transform};
use vector_lowering::glyph::{extract_svg_glyph, GlyphCache, GlyphLowerBuilder};
use vector_lowering::inflate::starts_with_gzip_magic;
use vector_lowering::ir::{
    GlyphItem, Image, ImageFormat, ImageGlyphItem, ImageItem, OutlineGlyphItem,
};
use vector_lowering::scalar::Scalar;

const FONT: Font = Font { id: 7, units_per_em: 2048, ascender: 1900 };
const OTHER_FONT: Font = Font { id: 8, units_per_em: 1000, ascender: 800 };

fn whole(v: i32) -> Scalar {
    Scalar::from_int(v)
}

fn gzip(data: &[u8]) -> Vec<u8> {
    let mut encoder = flate2::write::GzEncoder::new(Vec::new(), flate2::Compression::default());
    encoder.write_all(data).unwrap();
    encoder.finish().unwrap()
}

fn bitmap() -> BitmapGlyph {
    BitmapGlyph {
        image: Arc::new(Image {
            data: vec![0x89, 0x50, 0x4e, 0x47],
            format: ImageFormat::Png,
            width: 136,
            height: 128,
        }),
        x: 5,
        y: -3,
    }
}

fn full_provider() -> GlyphProvider {
    let mut gp = GlyphProvider::new();
    gp.insert_svg_glyph(&FONT, GlyphId(3), b"<svg><path/></svg>".to_vec());
    gp.insert_bitmap_glyph(&FONT, GlyphId(3), bitmap());
    gp.insert_outline_glyph(&FONT, GlyphId(3), "M 0 0 L 1 1 Z ".to_string());
    gp
}

fn expected_svg_glyph(document: &str) -> GlyphItem {
    GlyphItem::Image(Arc::new(ImageGlyphItem {
        ts: Transform {
            sx: whole(1),
            ky: whole(0),
            kx: whole(0),
            sy: whole(-1),
            tx: whole(0),
            ty: whole(1900),
        },
        image: ImageItem {
            image: Arc::new(Image {
                data: document.as_bytes().to_vec(),
                format: ImageFormat::Svg,
                width: 2048,
                height: 2048,
            }),
            size: Size { x: whole(2048), y: whole(2048) },
        },
    }))
}

fn expected_bitmap_glyph() -> GlyphItem {
    GlyphItem::Image(Arc::new(ImageGlyphItem {
        ts: Transform {
            sx: Scalar { micros: 15_058_824 },
            ky: whole(0),
            kx: whole(0),
            sy: whole(-16),
            tx: whole(5),
            ty: whole(2 * 1900 - 2048 - 3),
        },
        image: ImageItem {
            image: bitmap().image,
            size: Size { x: whole(136), y: whole(128) },
        },
    }))
}

fn expected_outline_glyph() -> GlyphItem {
    GlyphItem::Outline(Arc::new(OutlineGlyphItem { ts: None, d: "M 0 0 L 1 1 Z ".to_string() }))
}

#[test]
fn provider_answers_from_its_tables() {
    let gp = full_provider();
    assert_eq!(gp.svg_glyph(&FONT, GlyphId(3)), Some(&b"<svg><path/></svg>".to_vec()));
    assert_eq!(gp.bitmap_glyph(&FONT, GlyphId(3)), Some(&bitmap()));
    assert_eq!(gp.outline_glyph(&FONT, GlyphId(3)), Some(&"M 0 0 L 1 1 Z ".to_string()));
    assert_eq!(gp.svg_glyph(&FONT, GlyphId(4)), None);
    assert_eq!(gp.bitmap_glyph(&OTHER_FONT, GlyphId(3)), None);
    assert_eq!(gp.outline_glyph(&OTHER_FONT, GlyphId(3)), None);
}

#[test]
fn provider_tells_fonts_and_glyphs_apart() {
    let font = |id: u32| Font { id, units_per_em: 1000, ascender: 0 };
    let mut gp = GlyphProvider::new();
    gp.insert_outline_glyph(&font(1), GlyphId(0), "a".to_string());
    gp.insert_outline_glyph(&font(0), GlyphId(u16::MAX), "b".to_string());
    gp.insert_outline_glyph(&font(u32::MAX), GlyphId(u16::MAX), "c".to_string());
    assert_eq!(gp.outline_glyph(&font(1), GlyphId(0)), Some(&"a".to_string()));
    assert_eq!(gp.outline_glyph(&font(0), GlyphId(u16::MAX)), Some(&"b".to_string()));
    assert_eq!(gp.outline_glyph(&font(u32::MAX), GlyphId(u16::MAX)), Some(&"c".to_string()));
    assert_eq!(gp.outline_glyph(&font(0), GlyphId(0)), None);
    assert_eq!(gp.outline_glyph(&font(1), GlyphId(u16::MAX)), None);
}

#[test]
fn provider_replaces_and_forgets() {
    let mut gp = full_provider();
    gp.insert_svg_glyph(&FONT, GlyphId(3), b"<svg/>".to_vec());
    assert_eq!(gp.svg_glyph(&FONT, GlyphId(3)), Some(&b"<svg/>".to_vec()));
    gp.remove_svg_glyph(&FONT, GlyphId(3));
    assert_eq!(gp.svg_glyph(&FONT, GlyphId(3)), None);
    assert_eq!(gp.bitmap_glyph(&FONT, GlyphId(3)), Some(&bitmap()));
    gp.remove_bitmap_glyph(&FONT, GlyphId(3));
    assert_eq!(gp.bitmap_glyph(&FONT, GlyphId(3)), None);
    assert_eq!(gp.outline_glyph(&FONT, GlyphId(3)), Some(&"M 0 0 L 1 1 Z ".to_string()));
    gp.remove_svg_glyph(&FONT, GlyphId(3));
    assert_eq!(gp.svg_glyph(&FONT, GlyphId(3)), None);
}

#[test]
fn vector_image_comes_first() {
    let gp = full_provider();
    let lowered = GlyphLowerBuilder::new(&gp).lower_glyph(&GlyphItem::Raw(FONT, GlyphId(3)));
    assert_eq!(
        lowered,
        Some(expected_svg_glyph("<svg viewBox=\"0 -1900 2048 2048\"><path/></svg>"))
    );
}

#[test]
fn raster_image_comes_second() {
    let mut gp = full_provider();
    gp.remove_svg_glyph(&FONT, GlyphId(3));
    let lowered = GlyphLowerBuilder::new(&gp).lower_glyph(&GlyphItem::Raw(FONT, GlyphId(3)));
    assert_eq!(lowered, Some(expected_bitmap_glyph()));
}

#[test]
fn outline_comes_last() {
    let mut gp = full_provider();
    gp.remove_svg_glyph(&FONT, GlyphId(3));
    gp.remove_bitmap_glyph(&FONT, GlyphId(3));
    let lowered = GlyphLowerBuilder::new(&gp).lower_glyph(&GlyphItem::Raw(FONT, GlyphId(3)));
    assert_eq!(lowered, Some(expected_outline_glyph()));
}

#[test]
fn a_glyph_without_data_lowers_to_nothing() {
    let gp = full_provider();
    let builder = GlyphLowerBuilder::new(&gp);
    assert_eq!(builder.lower_glyph(&GlyphItem::Raw(FONT, GlyphId(4))), None);
    assert_eq!(builder.lower_glyph(&GlyphItem::Raw(OTHER_FONT, GlyphId(3))), None);
}

#[test]
fn a_malformed_vector_image_falls_back() {
    let mut gp = full_provider();
    gp.insert_svg_glyph(&FONT, GlyphId(3), b"<svg a=b>".to_vec());
    let builder = GlyphLowerBuilder::new(&gp);
    assert_eq!(
        builder.lower_glyph(&GlyphItem::Raw(FONT, GlyphId(3))),
        Some(expected_bitmap_glyph())
    );
    gp.insert_svg_glyph(&FONT, GlyphId(3), vec![0xff, 0xfe, 0x00]);
    let builder = GlyphLowerBuilder::new(&gp);
    assert_eq!(
        builder.lower_glyph(&GlyphItem::Raw(FONT, GlyphId(3))),
        Some(expected_bitmap_glyph())
    );
}

#[test]
fn a_compressed_vector_image_is_inflated() {
    let mut gp = GlyphProvider::new();
    let compressed = gzip(b"<svg viewBox=\"1 2 3 4\"><path/></svg>");
    assert!(starts_with_gzip_magic(&compressed));
    gp.insert_svg_glyph(&FONT, GlyphId(9), compressed);
    let lowered = GlyphLowerBuilder::new(&gp).lower_glyph(&GlyphItem::Raw(FONT, GlyphId(9)));
    assert_eq!(
        lowered,
        Some(expected_svg_glyph("<svg viewBox=\"0 -1900 2048 2048\"><path/></svg>"))
    );
}

#[test]
fn a_corrupt_compressed_vector_image_falls_back() {
    let mut gp = full_provider();
    let mut compressed = gzip(b"<svg><path/></svg>");
    compressed.truncate(compressed.len() / 2);
    gp.insert_svg_glyph(&FONT, GlyphId(3), compressed);
    let builder = GlyphLowerBuilder::new(&gp);
    assert_eq!(
        builder.lower_glyph(&GlyphItem::Raw(FONT, GlyphId(3))),
        Some(expected_bitmap_glyph())
    );
    gp.insert_svg_glyph(&FONT, GlyphId(3), vec![0x1f, 0x8b]);
    let builder = GlyphLowerBuilder::new(&gp);
    assert_eq!(
        builder.lower_glyph(&GlyphItem::Raw(FONT, GlyphId(3))),
        Some(expected_bitmap_glyph())
    );
}

#[test]
fn gzip_magic_takes_two_bytes() {
    assert!(starts_with_gzip_magic(&[0x1f, 0x8b]));
    assert!(starts_with_gzip_magic(&[0x1f, 0x8b, 0x08, 0x00]));
    assert!(!starts_with_gzip_magic(&[0x1f]));
    assert!(!starts_with_gzip_magic(&[]));
    assert!(!starts_with_gzip_magic(&[0x8b, 0x1f]));
    assert!(!starts_with_gzip_magic(b"<svg/>"));
}

#[test]
fn extracted_vector_image_is_one_em_wide_and_high() {
    let mut gp = GlyphProvider::new();
    gp.insert_svg_glyph(&OTHER_FONT, GlyphId(1), b"<svg/>".to_vec());
    assert_eq!(
        extract_svg_glyph(&gp, &OTHER_FONT, GlyphId(1)),
        Some(Image {
            data: b"<svg viewBox=\"0 -800 1000 1000\"/>".to_vec(),
            format: ImageFormat::Svg,
            width: 1000,
            height: 1000,
        })
    );
    assert_eq!(extract_svg_glyph(&gp, &OTHER_FONT, GlyphId(2)), None);
}

#[test]
fn view_box_of_a_font_with_a_negative_ascender() {
    let font = Font { id: 1, units_per_em: 16, ascender: -20 };
    let mut gp = GlyphProvider::new();
    gp.insert_svg_glyph(&font, GlyphId(1), b"<svg/>".to_vec());
    assert_eq!(
        extract_svg_glyph(&gp, &font, GlyphId(1)).map(|image| image.data),
        Some(b"<svg viewBox=\"0 20 16 16\"/>".to_vec())
    );
}

#[test]
fn a_raster_image_without_pixels_saturates_its_scale() {
    let mut gp = GlyphProvider::new();
    gp.insert_bitmap_glyph(
        &FONT,
        GlyphId(1),
        BitmapGlyph {
            image: Arc::new(Image { data: vec![], format: ImageFormat::Png, width: 0, height: 0 }),
            x: 0,
            y: 0,
        },
    );
    let lowered = GlyphLowerBuilder::new(&gp).lower_glyph(&GlyphItem::Raw(FONT, GlyphId(1)));
    match lowered {
        Some(GlyphItem::Image(item)) => {
            assert_eq!(item.ts.sx, Scalar { micros: i64::MAX });
            assert_eq!(item.ts.sy, Scalar { micros: i64::MIN });
            assert_eq!(item.ts.ty, whole(2 * 1900 - 2048));
        }
        other => panic!("not an image glyph: {:?}", other),
    }
}

#[test]
fn resolved_glyphs_stay_as_they_are() {
    let gp = full_provider();
    let builder = GlyphLowerBuilder::new(&gp);
    for item in [
        expected_svg_glyph("<svg/>"),
        expected_bitmap_glyph(),
        expected_outline_glyph(),
        GlyphItem::Empty,
    ] {
        assert_eq!(builder.lower_glyph(&item), Some(item.clone()));
    }
}

#[test]
fn resolving_twice_changes_nothing() {
    let gp = full_provider();
    let builder = GlyphLowerBuilder::new(&gp);
    let once = builder.lower_glyph(&GlyphItem::Raw(FONT, GlyphId(3))).unwrap();
    let twice = builder.lower_glyph(&once).unwrap();
    assert_eq!(once, twice);
}

#[test]
fn the_remembering_resolver_agrees_with_the_plain_one() {
    let mut gp = full_provider();
    gp.insert_outline_glyph(&OTHER_FONT, GlyphId(3), "M 9 9 Z ".to_string());
    let plain = GlyphLowerBuilder::new(&gp);
    let mut remembering = GlyphCache::new(&gp);
    let items = [
        GlyphItem::Raw(FONT, GlyphId(3)),
        GlyphItem::Raw(FONT, GlyphId(4)),
        GlyphItem::Raw(OTHER_FONT, GlyphId(3)),
        GlyphItem::Raw(FONT, GlyphId(3)),
        GlyphItem::Raw(FONT, GlyphId(4)),
        GlyphItem::Empty,
        expected_outline_glyph(),
    ];
    for item in items.iter() {
        assert_eq!(remembering.lower_glyph(item), plain.lower_glyph(item));
    }
}

#[test]
fn the_remembering_resolver_tells_metrics_apart() {
    let mut gp = GlyphProvider::new();
    gp.insert_svg_glyph(&FONT, GlyphId(1), b"<svg/>".to_vec());
    let taller = Font { ascender: 1901, ..FONT };
    let mut remembering = GlyphCache::new(&gp);
    assert_eq!(
        remembering.lower_glyph(&GlyphItem::Raw(FONT, GlyphId(1))),
        Some(expected_svg_glyph("<svg viewBox=\"0 -1900 2048 2048\"/>"))
    );
    let lowered = remembering.lower_glyph(&GlyphItem::Raw(taller, GlyphId(1)));
    match lowered {
        Some(GlyphItem::Image(item)) => {
            assert_eq!(item.ts.ty, whole(1901));
            assert_eq!(item.image.image.data, b"<svg viewBox=\"0 -1901 2048 2048\"/>".to_vec());
        }
        other => panic!("not an image glyph: {:?}", other),
    }
}
