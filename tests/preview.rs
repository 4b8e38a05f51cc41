use font_preview::catalog::{
    collect_previews, content_type_or_default, find_descriptor, select_descriptors, FontMeta,
    FontStyle,
};
use font_preview::fonts::{content_type, descriptor, get_font, get_fonts_meta, FamilyFont, FontError, FontProperties};
use font_preview::path::{OutlineCommand, PathCommand, Point, SvgPathBuilder, Vertex};
use font_preview::preview::{generate_preview, view_box, FontMetrics, GlyphSlot, PreviewError, ViewBox};
use font_preview::text::push_number;

fn meta(family: &str, id: &str) -> FontMeta {
    FontMeta {
        family: family.to_string(),
        full_name: Some(format!("{} Regular", family)),
        postscript_name: id.to_string(),
        is_monospace: false,
        weight_bits: 400.0f32.to_bits(),
        style: FontStyle::Normal,
        stretch_bits: 1.0f32.to_bits(),
    }
}

fn ids(metas: &[FontMeta]) -> Vec<String> {
    metas.iter().map(|m| m.postscript_name.clone()).collect()
}

fn number(v: i128, den: i128) -> String {
    let mut s = String::new();
    push_number(&mut s, v, den);
    s
}

fn pt(x: i32, y: i32) -> Point {
    Point { x, y }
}

fn metrics() -> FontMetrics {
    // 12 units per em makes one font unit one output unit; values are 26.6 fixed point.
    FontMetrics { units_per_em: 12, ascent: 10 * 64, descent: -3 * 64 }
}

fn diagonal(advance: i32) -> GlyphSlot {
    GlyphSlot::Drawn {
        outline: vec![
            OutlineCommand::MoveTo(pt(0, 0)),
            OutlineCommand::LineTo(pt(640, 640)),
            OutlineCommand::Close,
        ],
        advance,
    }
}

#[test]
fn flip_inverts_vertical_only() {
    let mut b = SvgPathBuilder::new(0, 0, 1);
    b.move_to(pt(0, 0));
    b.line_to(pt(10, 10));
    assert_eq!(
        b.commands,
        vec![
            PathCommand::Move(Vertex { x: 0, y: 0 }),
            PathCommand::Line(Vertex { x: 10, y: -10 }),
        ]
    );
}

#[test]
fn flip_applies_to_every_command_kind() {
    let mut b = SvgPathBuilder::new(5, 0, 2);
    b.quadratic_curve_to(pt(1, 2), pt(3, 4));
    b.cubic_curve_to(pt(1, -1), pt(2, -2), pt(3, -3));
    b.close();
    assert_eq!(
        b.commands,
        vec![
            PathCommand::Quad(Vertex { x: 7, y: -4 }, Vertex { x: 11, y: -8 }),
            PathCommand::Cubic(
                Vertex { x: 7, y: 2 },
                Vertex { x: 9, y: 4 },
                Vertex { x: 11, y: 6 }
            ),
            PathCommand::Close,
        ]
    );
}

#[test]
fn walk_matches_single_steps() {
    let outline = vec![
        OutlineCommand::MoveTo(pt(1, 1)),
        OutlineCommand::QuadTo(pt(2, 2), pt(3, 0)),
        OutlineCommand::Close,
    ];
    let mut a = SvgPathBuilder::new(10, 0, 3);
    a.walk(&outline);
    let mut b = SvgPathBuilder::new(10, 0, 3);
    b.move_to(pt(1, 1));
    b.quadratic_curve_to(pt(2, 2), pt(3, 0));
    b.close();
    assert_eq!(a.commands, b.commands);
}

#[test]
fn view_box_from_metrics() {
    let vb = view_box(10, -3, 20, 2);
    // The height is (ascent - descent) + 2 * padding.
    assert_eq!(vb, ViewBox { x: -2, y: -12, width: 24, height: 17 });
}

#[test]
fn number_text_values() {
    assert_eq!(number(0, 1), "0");
    assert_eq!(number(10, 1), "10");
    assert_eq!(number(-10, 1), "-10");
    assert_eq!(number(1, 3), "0.333");
    assert_eq!(number(2, 3), "0.667");
    assert_eq!(number(-5, 2), "-2.5");
    assert_eq!(number(3, 4), "0.75");
    assert_eq!(number(12345, 1000), "12.345");
}

#[test]
fn preview_document_exact() {
    let doc = generate_preview(&metrics(), &vec![diagonal(20 * 64)]).unwrap();
    assert_eq!(
        doc,
        "<svg xmlns=\"http://www.w3.org/2000/svg\" viewBox=\"-2 -12 24 17\" width=\"24\" height=\"17\"><path d=\"M 0 0 L 10 -10 Z\" fill=\"currentColor\"/></svg>"
    );
}

#[test]
fn preview_advances_cursor() {
    let doc = generate_preview(&metrics(), &vec![diagonal(64), diagonal(64)]).unwrap();
    assert!(doc.contains("d=\"M 0 0 L 10 -10 Z M 1 0 L 11 -10 Z\""));
    assert!(doc.contains("viewBox=\"-2 -12 6 17\""));
}

#[test]
fn preview_scales_by_units_per_em() {
    let m = FontMetrics { units_per_em: 1000, ascent: 800 * 64, descent: -200 * 64 };
    let glyph = GlyphSlot::Drawn {
        outline: vec![OutlineCommand::MoveTo(pt(500 * 64, 250 * 64))],
        advance: 600 * 64,
    };
    let doc = generate_preview(&m, &vec![glyph]).unwrap();
    assert_eq!(
        doc,
        "<svg xmlns=\"http://www.w3.org/2000/svg\" viewBox=\"-2 -11.6 11.2 16\" width=\"11.2\" height=\"16\"><path d=\"M 6 -3\" fill=\"currentColor\"/></svg>"
    );
}

#[test]
fn missing_glyph_is_skipped() {
    let with_gap = generate_preview(&metrics(), &vec![diagonal(64), GlyphSlot::Missing, diagonal(64)]).unwrap();
    let without = generate_preview(&metrics(), &vec![diagonal(64), diagonal(64)]).unwrap();
    assert_eq!(with_gap, without);
}

#[test]
fn empty_sample_gives_zero_width_document() {
    let doc = generate_preview(&metrics(), &vec![]).unwrap();
    assert_eq!(
        doc,
        "<svg xmlns=\"http://www.w3.org/2000/svg\" viewBox=\"-2 -12 4 17\" width=\"4\" height=\"17\"><path d=\"\" fill=\"currentColor\"/></svg>"
    );
}

#[test]
fn zero_units_per_em_is_an_error() {
    let m = FontMetrics { units_per_em: 0, ascent: 0, descent: 0 };
    assert_eq!(generate_preview(&m, &vec![diagonal(64)]), Err(PreviewError::ZeroUnitsPerEm));
}

#[test]
fn unreadable_glyph_is_an_error() {
    let r = generate_preview(&metrics(), &vec![diagonal(64), GlyphSlot::Unreadable]);
    assert_eq!(r, Err(PreviewError::UnreadableGlyph));
}

#[test]
fn duplicate_and_empty_ids_are_dropped() {
    let kept = select_descriptors(vec![
        meta("A", "A-Regular"),
        meta("B", ""),
        meta("C", "C-Regular"),
        meta("A2", "A-Regular"),
    ]);
    assert_eq!(ids(&kept), vec!["A-Regular", "C-Regular"]);
    assert_eq!(kept[0].family, "A");
}

#[test]
fn selection_is_repeatable() {
    let make = || vec![meta("A", "A-Regular"), meta("B", "B-Bold"), meta("A", "A-Regular")];
    let first = select_descriptors(make());
    let second = select_descriptors(make());
    assert_eq!(ids(&first), ids(&second));
}

#[test]
fn preview_keys_come_from_descriptors() {
    let metas = vec![meta("A", "A-Regular"), meta("B", "B-Bold"), meta("C", "C-Light")];
    let rendered = vec![Some("<svg a/>".to_string()), None, Some("<svg c/>".to_string())];
    let previews = collect_previews(&metas, &rendered);
    assert_eq!(
        previews,
        vec![
            ("A-Regular".to_string(), "<svg a/>".to_string()),
            ("C-Light".to_string(), "<svg c/>".to_string()),
        ]
    );
}

#[test]
fn empty_font_set_gives_empty_outputs() {
    let metas = select_descriptors(vec![]);
    assert!(metas.is_empty());
    assert!(collect_previews(&metas, &vec![]).is_empty());
}

#[test]
fn unknown_id_is_not_found() {
    let known = vec![meta("A", "A-Regular")];
    assert_eq!(find_descriptor(&known, &"Nope".to_string()), None);
    assert_eq!(find_descriptor(&known, &"A-Regular".to_string()), Some(0));
    assert_eq!(get_font(&known, &"A-Regular".to_string()), Ok(0));
    assert!(matches!(get_font(&known, &"Nope".to_string()), Err(FontError::NotFound)));
    assert!(matches!(get_font(&vec![], &"A-Regular".to_string()), Err(FontError::NotFound)));
}

#[test]
fn content_type_of_truetype_bytes() {
    let bytes = vec![0x00, 0x01, 0x00, 0x00, 0x00, 0x0b, 0x00, 0x80, 0x00, 0x03];
    assert_eq!(content_type(&bytes), "application/font-sfnt");
}

#[test]
fn content_type_defaults_to_octet_stream() {
    assert_eq!(content_type(&b"plain words".to_vec()), "application/octet-stream");
    assert_eq!(content_type_or_default(None), "application/octet-stream");
    assert_eq!(content_type_or_default(Some("font/woff2".to_string())), "font/woff2");
}

#[test]
fn style_names() {
    assert_eq!(FontStyle::Normal.name(), "Normal");
    assert_eq!(FontStyle::Italic.name(), "Italic");
    assert_eq!(FontStyle::Oblique.name(), "Oblique");
}

fn props() -> FontProperties {
    FontProperties { style: FontStyle::Italic, weight_bits: 700.0f32.to_bits(), stretch_bits: 1.0f32.to_bits() }
}

fn family(id: Option<&str>, family: &str) -> FamilyFont {
    FamilyFont {
        postscript_name: id.map(|i| i.to_string()),
        family: family.to_string(),
        full_name: format!("{} Bold", family),
        is_monospace: true,
        props: props(),
    }
}

#[test]
fn descriptor_needs_a_unique_name() {
    assert!(descriptor(family(None, "Fam")).is_none());
    assert!(descriptor(family(Some(""), "Fam")).is_none());
    let m = descriptor(family(Some("Fam-Bold"), "Fam")).unwrap();
    assert_eq!(m.postscript_name, "Fam-Bold");
    assert_eq!(m.family, "Fam");
    assert_eq!(m.full_name, Some("Fam Bold".to_string()));
    assert!(m.is_monospace);
    assert_eq!(m.style, FontStyle::Italic);
    assert_eq!(f32::from_bits(m.weight_bits), 700.0);
}

#[test]
fn fonts_meta_one_per_readable_family() {
    let metas = get_fonts_meta(vec![
        Some(family(Some("A-Regular"), "A")),
        None,
        Some(family(None, "NoName")),
        Some(family(Some("B-Bold"), "B")),
        Some(family(Some("A-Regular"), "A Again")),
        Some(family(Some(""), "Empty")),
    ]);
    assert_eq!(ids(&metas), vec!["A-Regular", "B-Bold"]);
    assert_eq!(metas[0].family, "A");
}

#[test]
fn fonts_meta_of_no_families_is_empty() {
    assert!(get_fonts_meta(vec![]).is_empty());
    assert!(get_fonts_meta(vec![None, None]).is_empty());
}

#[test]
fn name_with_nul_is_not_found() {
    let known = vec![meta("Bad", "Bad\0Name")];
    assert!(matches!(get_font(&known, &"Bad\0Name".to_string()), Err(FontError::NotFound)));
}

#[test]
fn previews_pair_by_position_with_unequal_lengths() {
    let metas = vec![meta("A", "A-Regular"), meta("B", "B-Bold")];
    let rendered = vec![None, Some("<svg b/>".to_string()), Some("<svg extra/>".to_string())];
    let previews = collect_previews(&metas, &rendered);
    assert_eq!(previews, vec![("B-Bold".to_string(), "<svg b/>".to_string())]);
    let fewer = collect_previews(&metas, &vec![Some("<svg a/>".to_string())]);
    assert_eq!(fewer, vec![("A-Regular".to_string(), "<svg a/>".to_string())]);
}

#[test]
fn all_missing_glyphs_are_skipped() {
    let sample = vec![
        GlyphSlot::Missing,
        diagonal(64),
        GlyphSlot::Missing,
        GlyphSlot::Missing,
        diagonal(128),
        GlyphSlot::Missing,
    ];
    let kept = vec![diagonal(64), diagonal(128)];
    assert_eq!(generate_preview(&metrics(), &sample), generate_preview(&metrics(), &kept));
    let only_missing = vec![GlyphSlot::Missing, GlyphSlot::Missing];
    assert_eq!(generate_preview(&metrics(), &only_missing), generate_preview(&metrics(), &vec![]));
}

#[test]
fn selecting_again_changes_nothing() {
    let once = select_descriptors(vec![
        meta("A", "A-Regular"),
        meta("B", ""),
        meta("A", "A-Regular"),
        meta("C", "C-Light"),
    ]);
    let once_ids = ids(&once);
    let twice = select_descriptors(once);
    assert_eq!(ids(&twice), once_ids);
}
