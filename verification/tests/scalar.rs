use vector_lowering::color::Color;
use vector_lowering::decimal::push_decimal;
use vector_lowering::path2d::SvgPath2DBuilder;
use vector_lowering::scalar::Scalar;
use vector_lowering::span::{max_attached_with, SourceSpan};
use vector_lowering::utils::ToCssExt;

fn micros(v: i64) -> Scalar {
    Scalar { micros: v }
}

#[test]
fn decimal_has_no_leading_zeros() {
    let mut out = String::from("n=");
    push_decimal(&mut out, 0);
    out.push(' ');
    push_decimal(&mut out, 10);
    out.push(' ');
    push_decimal(&mut out, 907);
    out.push(' ');
    push_decimal(&mut out, u64::MAX);
    assert_eq!(out, "n=0 10 907 18446744073709551615");
}

#[test]
fn whole_numbers_print_without_a_point() {
    assert_eq!(Scalar::zero().to_text(), "0");
    assert_eq!(Scalar::from_int(10).to_text(), "10");
    assert_eq!(Scalar::from_int(-800).to_text(), "-800");
    assert_eq!(Scalar::from_int(i32::MIN).to_text(), "-2147483648");
}

#[test]
fn fractions_print_to_the_last_digit_that_counts() {
    assert_eq!(micros(500_000).to_text(), "0.5");
    assert_eq!(micros(-500_000).to_text(), "-0.5");
    assert_eq!(micros(12_345_678).to_text(), "12.345678");
    assert_eq!(micros(-1).to_text(), "-0.000001");
    assert_eq!(micros(1_050_000).to_text(), "1.05");
    assert_eq!(micros(i64::MAX).to_text(), "9223372036854.775807");
    assert_eq!(micros(i64::MIN).to_text(), "-9223372036854.775808");
}

#[test]
fn write_to_appends() {
    let mut out = String::from("x=");
    micros(2_500_000).write_to(&mut out);
    assert_eq!(out, "x=2.5");
}

#[test]
fn from_int_counts_millionths() {
    assert_eq!(Scalar::from_int(3), micros(3_000_000));
    assert_eq!(Scalar::from_int(-1), micros(-1_000_000));
}

#[test]
fn plus_adds_and_saturates() {
    assert_eq!(micros(1_500_000).plus(micros(2_250_000)), micros(3_750_000));
    assert_eq!(micros(-5).plus(micros(3)), micros(-2));
    assert_eq!(micros(i64::MAX).plus(micros(1)), micros(i64::MAX));
    assert_eq!(micros(i64::MIN).plus(micros(-1)), micros(i64::MIN));
}

#[test]
fn times_rounds_to_the_nearest_millionth() {
    assert_eq!(micros(500_000).times(micros(500_000)), micros(250_000));
    assert_eq!(micros(550_000).times(Scalar::from_int(11)), micros(6_050_000));
    // 0.000001 * 0.5 is half a millionth, which rounds away from zero
    assert_eq!(micros(1).times(micros(500_000)), micros(1));
    assert_eq!(micros(-1).times(micros(500_000)), micros(-1));
    assert_eq!(micros(1).times(micros(499_999)), micros(0));
    assert_eq!(micros(-3_000_000).times(micros(2_000_000)), micros(-6_000_000));
    assert_eq!(micros(-3_000_000).times(micros(-2_000_000)), micros(6_000_000));
    assert_eq!(micros(0).times(micros(-2_000_000)), micros(0));
}

#[test]
fn times_saturates() {
    assert_eq!(micros(i64::MAX).times(micros(i64::MAX)), micros(i64::MAX));
    assert_eq!(micros(i64::MIN).times(micros(i64::MAX)), micros(i64::MIN));
    assert_eq!(micros(i64::MIN).times(micros(i64::MIN)), micros(i64::MAX));
}

#[test]
fn ratio_rounds_to_the_nearest_millionth() {
    assert_eq!(Scalar::ratio(2048, 136), micros(15_058_824));
    assert_eq!(Scalar::ratio(-2048, 128), micros(-16_000_000));
    assert_eq!(Scalar::ratio(1, 3), micros(333_333));
    assert_eq!(Scalar::ratio(2, 3), micros(666_667));
    assert_eq!(Scalar::ratio(-2, 3), micros(-666_667));
    assert_eq!(Scalar::ratio(2, -3), micros(-666_667));
    assert_eq!(Scalar::ratio(-2, -3), micros(666_667));
    assert_eq!(Scalar::ratio(0, -3), micros(0));
    assert_eq!(Scalar::ratio(1, 2_000_000), micros(1));
}

#[test]
fn ratio_by_zero_saturates_by_sign() {
    assert_eq!(Scalar::ratio(5, 0), micros(i64::MAX));
    assert_eq!(Scalar::ratio(-5, 0), micros(i64::MIN));
    assert_eq!(Scalar::ratio(0, 0), micros(0));
}

#[test]
fn ratio_saturates() {
    assert_eq!(Scalar::ratio(i64::MAX, 1), micros(i64::MAX));
    assert_eq!(Scalar::ratio(i64::MIN, 1), micros(i64::MIN));
    assert_eq!(Scalar::ratio(i64::MIN, -1), micros(i64::MAX));
    assert_eq!(Scalar::ratio(i64::MIN, i64::MIN), micros(1_000_000));
}

#[test]
fn css_keeps_the_native_components() {
    assert_eq!(Color { r: 255, g: 0, b: 0, a: 255 }.to_css(), "rgba(255, 0, 0, 255)");
    assert_eq!(Color { r: 1, g: 20, b: 100, a: 0 }.to_css(), "rgba(1, 20, 100, 0)");
}

#[test]
fn span_id_packs_file_and_number() {
    assert_eq!(SourceSpan { file_id: 0, number: 0 }.to_u64(), 0);
    assert_eq!(SourceSpan { file_id: 1, number: 2 }.to_u64(), (1u64 << 48) | 2);
    assert_eq!(SourceSpan { file_id: u16::MAX, number: (1u64 << 48) - 1 }.to_u64(), u64::MAX);
    // only the low 48 bits of the number count
    assert_eq!(SourceSpan { file_id: 3, number: (1u64 << 48) + 5 }.to_u64(), (3u64 << 48) | 5);
}

#[test]
fn detached_span_has_the_id_one() {
    assert_eq!(SourceSpan::detached().to_u64(), 1);
    assert!(SourceSpan::detached().is_detached());
    assert!(!SourceSpan { file_id: 1, number: 1 }.is_detached());
    assert!(!SourceSpan { file_id: 0, number: 2 }.is_detached());
}

#[test]
fn span_ids_order_by_file_then_number() {
    let a = SourceSpan { file_id: 1, number: 900 };
    let b = SourceSpan { file_id: 2, number: 3 };
    let c = SourceSpan { file_id: 2, number: 4 };
    assert!(a.to_u64() < b.to_u64());
    assert!(b.to_u64() < c.to_u64());
}

#[test]
fn greatest_attached_id_skips_detached_spans() {
    let s1 = SourceSpan { file_id: 1, number: 10 };
    let s2 = SourceSpan { file_id: 1, number: 11 };
    assert_eq!(max_attached_with(None, &SourceSpan::detached()), None);
    assert_eq!(max_attached_with(None, &s1), Some(s1.to_u64()));
    assert_eq!(max_attached_with(Some(s1.to_u64()), &s2), Some(s2.to_u64()));
    assert_eq!(max_attached_with(Some(s2.to_u64()), &s1), Some(s2.to_u64()));
    assert_eq!(max_attached_with(Some(s2.to_u64()), &SourceSpan::detached()), Some(s2.to_u64()));
}

#[test]
fn builder_renders_each_command() {
    let mut b = SvgPath2DBuilder::new();
    assert_eq!(b.0, "");
    b.move_to(Scalar::from_int(173), Scalar::from_int(267));
    b.line_to(Scalar::from_int(369), micros(267_500_000));
    b.quad_to(micros(1), micros(2), micros(3), micros(4));
    b.curve_to(
        Scalar::from_int(1),
        Scalar::from_int(2),
        Scalar::from_int(3),
        Scalar::from_int(4),
        Scalar::from_int(-5),
        Scalar::from_int(6),
    );
    b.close();
    assert_eq!(
        b.0,
        "M 173 267 L 369 267.5 Q 0.000001 0.000002 0.000003 0.000004 C 1 2 3 4 -5 6 Z "
    );
}

#[test]
fn builder_rect_visits_every_corner() {
    let mut b = SvgPath2DBuilder::new();
    b.rect(Scalar::from_int(1), Scalar::from_int(2), Scalar::from_int(10), Scalar::from_int(20));
    assert_eq!(b.0, "M 1 2 L 1 22 L 11 22 L 11 2 Z ");
}

#[test]
fn a_provenance_id_leads_back_to_its_span() {
    let span = SourceSpan { file_id: 513, number: 0xabc_def0_1234 };
    assert_eq!(SourceSpan::from_u64(span.to_u64()), span);
    assert_eq!(SourceSpan::from_u64(1), SourceSpan::detached());
    assert_eq!(SourceSpan::from_u64(u64::MAX), SourceSpan { file_id: u16::MAX, number: (1u64 << 48) - 1 });
    assert_eq!(SourceSpan::from_u64(0), SourceSpan { file_id: 0, number: 0 });
}
