use cssfold::font::{
    AbsoluteFontSize, AbsoluteFontWeight, Font, FontFamily, FontSize, FontStretch,
    FontStretchKeyword, FontStyle, FontVariantCapsCSS2, FontWeight, GenericFontFamily, LineHeight,
    VerticalAlign, VerticalAlignKeyword,
};
use cssfold::tokens::{Cursor, ErrorKind, Token};
use cssfold::values::{Length, LengthPercentage, LengthUnit, Percentage};

fn ident(s: &str) -> Token {
    Token::Ident(s.to_string())
}

#[test]
fn parses_font_weight_keywords() {
    let mut cur = Cursor::new(vec![ident("bold")]);
    assert_eq!(
        FontWeight::parse(&mut cur).unwrap(),
        FontWeight::Absolute(AbsoluteFontWeight::Bold)
    );

    let mut cur = Cursor::new(vec![ident("BOLDER")]);
    assert_eq!(FontWeight::parse(&mut cur).unwrap(), FontWeight::Bolder);

    let mut cur = Cursor::new(vec![Token::Number(400_000)]);
    assert_eq!(
        FontWeight::parse(&mut cur).unwrap(),
        FontWeight::Absolute(AbsoluteFontWeight::Weight(400_000))
    );
}

#[test]
fn rejects_unknown_weight_and_restores_cursor() {
    let mut cur = Cursor::new(vec![ident("boldish")]);
    let err = FontWeight::parse(&mut cur).unwrap_err();
    assert_eq!(err.kind, ErrorKind::UnexpectedToken);
    assert_eq!(err.position, 0);
    assert_eq!(cur.pos, 0);
}

#[test]
fn errors_carry_the_rejected_token_position() {
    let mut cur = Cursor::new(vec![Token::Number(12_000), ident("purple")]);
    assert!(FontSize::parse(&mut cur).is_err());
    cur.pos = 1;
    let err = FontSize::parse(&mut cur).unwrap_err();
    assert_eq!(err.kind, ErrorKind::UnexpectedToken);
    assert_eq!(err.position, 1);
    assert_eq!(cur.pos, 1);
}

#[test]
fn parses_font_size_forms() {
    let mut cur = Cursor::new(vec![Token::Dim(12_000, "px".to_string())]);
    assert_eq!(
        FontSize::parse(&mut cur).unwrap(),
        FontSize::Length(LengthPercentage::Dimension(Length {
            millis: 12_000,
            unit: LengthUnit::Px
        }))
    );

    let mut cur = Cursor::new(vec![ident("medium")]);
    assert_eq!(
        FontSize::parse(&mut cur).unwrap(),
        FontSize::Absolute(AbsoluteFontSize::Medium)
    );

    let mut cur = Cursor::new(vec![Token::Percent(50_000)]);
    assert_eq!(
        FontSize::parse(&mut cur).unwrap(),
        FontSize::Length(LengthPercentage::Percentage(Percentage { millis: 50_000 }))
    );
}

#[test]
fn parses_font_style_with_optional_angle() {
    let mut cur = Cursor::new(vec![ident("oblique"), Token::Dim(30_000, "deg".to_string())]);
    assert_eq!(
        FontStyle::parse(&mut cur).unwrap(),
        FontStyle::Oblique(cssfold::values::Angle { millis: 30_000 })
    );

    let mut cur = Cursor::new(vec![ident("oblique")]);
    assert_eq!(
        FontStyle::parse(&mut cur).unwrap(),
        FontStyle::Oblique(cssfold::values::Angle { millis: 14_000 })
    );

    let mut cur = Cursor::new(vec![ident("italic")]);
    assert_eq!(FontStyle::parse(&mut cur).unwrap(), FontStyle::Italic);
}

#[test]
fn parses_family_names_and_generics() {
    let mut cur = Cursor::new(vec![ident("serif")]);
    assert_eq!(
        FontFamily::parse(&mut cur).unwrap(),
        FontFamily::Generic(GenericFontFamily::Serif)
    );

    let mut cur = Cursor::new(vec![Token::QuotedStr("sans-serif".to_string())]);
    assert_eq!(
        FontFamily::parse(&mut cur).unwrap(),
        FontFamily::FamilyName("sans-serif".to_string())
    );

    let mut cur = Cursor::new(vec![ident("My"), ident("Font")]);
    assert_eq!(
        FontFamily::parse(&mut cur).unwrap(),
        FontFamily::FamilyName("My Font".to_string())
    );
}

#[test]
fn parses_vertical_align() {
    let mut cur = Cursor::new(vec![ident("middle")]);
    assert_eq!(
        VerticalAlign::parse(&mut cur).unwrap(),
        VerticalAlign::Keyword(VerticalAlignKeyword::Middle)
    );
}

#[test]
fn parses_full_font_shorthand() {
    let toks = vec![
        ident("italic"),
        ident("small-caps"),
        ident("bold"),
        ident("condensed"),
        Token::Dim(12_000, "px".to_string()),
        Token::Delim('/'),
        Token::Number(1_200),
        ident("serif"),
        Token::Comma,
        ident("Arial"),
    ];
    let mut cur = Cursor::new(toks);
    let font = Font::parse(&mut cur).unwrap();
    assert_eq!(font.style, FontStyle::Italic);
    assert_eq!(font.variant_caps, FontVariantCapsCSS2::SmallCaps);
    assert_eq!(font.weight, FontWeight::Absolute(AbsoluteFontWeight::Bold));
    assert_eq!(
        font.stretch,
        FontStretch::Keyword(FontStretchKeyword::Condensed)
    );
    assert_eq!(
        font.size,
        FontSize::Length(LengthPercentage::Dimension(Length {
            millis: 12_000,
            unit: LengthUnit::Px
        }))
    );
    assert_eq!(font.line_height, LineHeight::Number(1_200));
    assert_eq!(
        font.family,
        vec![
            FontFamily::Generic(GenericFontFamily::Serif),
            FontFamily::FamilyName("Arial".to_string()),
        ]
    );
}

#[test]
fn font_shorthand_defaults_unset_components() {
    let toks = vec![
        Token::Dim(16_000, "px".to_string()),
        ident("sans-serif"),
    ];
    let mut cur = Cursor::new(toks);
    let font = Font::parse(&mut cur).unwrap();
    assert_eq!(font.style, FontStyle::Normal);
    assert_eq!(font.weight, FontWeight::Absolute(AbsoluteFontWeight::Normal));
    assert_eq!(font.stretch, FontStretch::Keyword(FontStretchKeyword::Normal));
    assert_eq!(font.variant_caps, FontVariantCapsCSS2::Normal);
    assert_eq!(font.line_height, LineHeight::Normal);
}

#[test]
fn five_ambiguous_keywords_before_size_fail() {
    let toks = vec![
        ident("normal"),
        ident("normal"),
        ident("normal"),
        ident("normal"),
        ident("normal"),
        Token::Dim(12_000, "px".to_string()),
        ident("serif"),
    ];
    let mut cur = Cursor::new(toks);
    let err = Font::parse(&mut cur).unwrap_err();
    assert_eq!(err.kind, ErrorKind::InvalidDeclaration);
    assert_eq!(cur.pos, 0);
}

#[test]
fn four_ambiguous_keywords_before_size_succeed() {
    let toks = vec![
        ident("normal"),
        ident("normal"),
        ident("normal"),
        ident("normal"),
        Token::Dim(12_000, "px".to_string()),
        ident("serif"),
    ];
    let mut cur = Cursor::new(toks);
    assert!(Font::parse(&mut cur).is_ok());
}

#[test]
fn missing_size_is_an_invalid_declaration() {
    let toks = vec![ident("italic"), ident("purple")];
    let mut cur = Cursor::new(toks);
    let err = Font::parse(&mut cur).unwrap_err();
    assert_eq!(err.kind, ErrorKind::InvalidDeclaration);
    assert_eq!(cur.pos, 0);
}

#[test]
fn missing_family_is_an_error() {
    let toks = vec![Token::Dim(12_000, "px".to_string())];
    let mut cur = Cursor::new(toks);
    assert!(Font::parse(&mut cur).is_err());
}

#[test]
fn trailing_tokens_after_family_are_an_error() {
    let toks = vec![
        Token::Dim(12_000, "px".to_string()),
        ident("serif"),
        Token::Number(3_000),
    ];
    let mut cur = Cursor::new(toks);
    assert!(Font::parse(&mut cur).is_err());
}
