use cssfold::font::{
    AbsoluteFontWeight, Font, FontFamily, FontSize, FontStretch, FontStretchKeyword, FontStyle,
    FontVariantCapsCSS2, FontWeight, GenericFontFamily, LineHeight,
};
use cssfold::font::{VerticalAlign, VerticalAlignKeyword};
use cssfold::printer::Printer;
use cssfold::properties::{Property, PropertyId, UnparsedProperty};
use cssfold::tokens::{Cursor, Token};
use cssfold::values::{Angle, Length, LengthPercentage, LengthUnit, Percentage};

fn css_of<F: Fn(&mut Printer)>(minify: bool, f: F) -> String {
    let mut p = Printer::new(minify);
    f(&mut p);
    p.finish()
}

fn sample_font() -> Font {
    Font {
        family: vec![
            FontFamily::Generic(GenericFontFamily::Serif),
            FontFamily::FamilyName("Arial".to_string()),
        ],
        size: FontSize::Length(LengthPercentage::Dimension(Length {
            millis: 12_000,
            unit: LengthUnit::Px,
        })),
        style: FontStyle::Italic,
        weight: FontWeight::Absolute(AbsoluteFontWeight::Bold),
        stretch: FontStretch::Keyword(FontStretchKeyword::Condensed),
        line_height: LineHeight::Number(1_200),
        variant_caps: FontVariantCapsCSS2::SmallCaps,
    }
}

#[test]
fn weight_keywords_minify_to_numbers() {
    let w = FontWeight::Absolute(AbsoluteFontWeight::Normal);
    assert_eq!(css_of(false, |p| w.to_css(p)), "normal");
    assert_eq!(css_of(true, |p| w.to_css(p)), "400");
    let b = FontWeight::Absolute(AbsoluteFontWeight::Bold);
    assert_eq!(css_of(false, |p| b.to_css(p)), "bold");
    assert_eq!(css_of(true, |p| b.to_css(p)), "700");
}

#[test]
fn stretch_keywords_minify_to_percentages() {
    let s = FontStretch::Keyword(FontStretchKeyword::ExtraCondensed);
    assert_eq!(css_of(false, |p| s.to_css(p)), "extra-condensed");
    assert_eq!(css_of(true, |p| s.to_css(p)), "62.5%");
    let n = FontStretch::Keyword(FontStretchKeyword::Normal);
    assert_eq!(css_of(true, |p| n.to_css(p)), "100%");
}

#[test]
fn fractions_drop_the_leading_zero_only_when_minifying() {
    let s = FontSize::Length(LengthPercentage::Percentage(Percentage { millis: 500 }));
    assert_eq!(css_of(false, |p| s.to_css(p)), "0.5%");
    assert_eq!(css_of(true, |p| s.to_css(p)), ".5%");
}

#[test]
fn oblique_angle_is_omitted_when_default() {
    let st = FontStyle::Oblique(Angle { millis: 14_000 });
    assert_eq!(css_of(false, |p| st.to_css(p)), "oblique");
    let st = FontStyle::Oblique(Angle { millis: 30_000 });
    assert_eq!(css_of(false, |p| st.to_css(p)), "oblique 30deg");
}

#[test]
fn generic_family_spelling_serializes_bare() {
    let f = FontFamily::Generic(GenericFontFamily::SansSerif);
    assert_eq!(css_of(false, |p| f.to_css(p)), "sans-serif");
}

#[test]
fn family_name_spelled_like_a_generic_is_always_quoted() {
    let f = FontFamily::FamilyName("sans-serif".to_string());
    assert_eq!(css_of(false, |p| f.to_css(p)), "\"sans-serif\"");
    assert_eq!(css_of(true, |p| f.to_css(p)), "\"sans-serif\"");
}

#[test]
fn family_name_of_plain_identifiers_stays_bare() {
    let f = FontFamily::FamilyName("My Font".to_string());
    assert_eq!(css_of(false, |p| f.to_css(p)), "My Font");
}

#[test]
fn family_name_that_is_no_identifier_is_quoted() {
    let f = FontFamily::FamilyName("123px".to_string());
    assert_eq!(css_of(false, |p| f.to_css(p)), "\"123px\"");
}

#[test]
fn font_shorthand_serializes_verbose_and_minified() {
    let font = sample_font();
    assert_eq!(
        css_of(false, |p| font.to_css(p)),
        "italic small-caps bold condensed 12px / 1.2 serif, Arial"
    );
    assert_eq!(
        css_of(true, |p| font.to_css(p)),
        "italic small-caps 700 75% 12px/1.2 serif,Arial"
    );
}

#[test]
fn default_components_are_left_out_of_the_shorthand() {
    let font = Font {
        family: vec![FontFamily::Generic(GenericFontFamily::Serif)],
        size: FontSize::Length(LengthPercentage::Dimension(Length {
            millis: 12_000,
            unit: LengthUnit::Px,
        })),
        style: FontStyle::Normal,
        weight: FontWeight::Absolute(AbsoluteFontWeight::Normal),
        stretch: FontStretch::Keyword(FontStretchKeyword::Normal),
        line_height: LineHeight::Normal,
        variant_caps: FontVariantCapsCSS2::Normal,
    };
    assert_eq!(css_of(false, |p| font.to_css(p)), "12px serif");
}

#[test]
fn shorthand_round_trips_through_its_own_tokens() {
    let font = sample_font();
    let mut toks: Vec<Token> = Vec::new();
    font.to_tokens(false, &mut toks);
    let mut cur = Cursor::new(toks);
    let back = Font::parse(&mut cur).unwrap();
    assert_eq!(back, font);
    assert!(cur.is_exhausted());
}

#[test]
fn leaf_values_round_trip_in_both_modes() {
    let w = FontWeight::Absolute(AbsoluteFontWeight::Bold);
    let mut toks: Vec<Token> = Vec::new();
    w.to_tokens(true, &mut toks);
    let mut cur = Cursor::new(toks);
    let back = FontWeight::parse(&mut cur).unwrap();
    assert_eq!(back, FontWeight::Absolute(AbsoluteFontWeight::Weight(700_000)));

    let s = FontStretch::Keyword(FontStretchKeyword::SemiExpanded);
    let mut toks: Vec<Token> = Vec::new();
    s.to_tokens(false, &mut toks);
    let mut cur = Cursor::new(toks);
    assert_eq!(FontStretch::parse(&mut cur).unwrap(), s);

    let lh = LineHeight::Length(LengthPercentage::Dimension(Length {
        millis: 18_000,
        unit: LengthUnit::Pt,
    }));
    let mut toks: Vec<Token> = Vec::new();
    lh.to_tokens(&mut toks);
    let mut cur = Cursor::new(toks);
    assert_eq!(LineHeight::parse(&mut cur).unwrap(), lh);
}

#[test]
fn unparsed_declarations_serialize_their_raw_tokens() {
    let raw = Property::Unparsed(UnparsedProperty {
        property_id: PropertyId::FontSize,
        value: vec![
            Token::Ident("clamp".to_string()),
            Token::Number(1_000),
            Token::Comma,
            Token::Number(2_000),
        ],
    });
    let mut p = Printer::new(false);
    raw.to_css(&mut p);
    assert_eq!(p.finish(), "font-size: clamp 1, 2");
    let mut p = Printer::new(true);
    raw.to_css(&mut p);
    assert_eq!(p.finish(), "font-size:clamp 1,2");
}

#[test]
fn vertical_align_serializes_keywords_and_lengths() {
    let v = VerticalAlign::Keyword(VerticalAlignKeyword::TextBottom);
    assert_eq!(css_of(false, |p| v.to_css(p)), "text-bottom");
    let v = VerticalAlign::Length(LengthPercentage::Dimension(Length {
        millis: -2_500,
        unit: LengthUnit::Em,
    }));
    assert_eq!(css_of(false, |p| v.to_css(p)), "-2.5em");
}
