use cssfold::declaration::{DeclarationBlock, DeclarationHandler};
use cssfold::font::{
    AbsoluteFontWeight, Font, FontFamily, FontHandler, FontSize, FontStretch, FontStretchKeyword,
    FontStyle, FontVariantCaps, FontVariantCapsCSS2, FontWeight, GenericFontFamily, LineHeight,
    VerticalAlign, VerticalAlignKeyword,
};
use cssfold::printer::Printer;
use cssfold::properties::{Property, PropertyId, UnparsedProperty};
use cssfold::style::StyleRule;
use cssfold::tokens::Token;
use cssfold::values::{Length, LengthPercentage, LengthUnit};

fn px(n: i64) -> FontSize {
    FontSize::Length(LengthPercentage::Dimension(Length { millis: n, unit: LengthUnit::Px }))
}

fn all_longhands(caps: FontVariantCaps) -> Vec<Property> {
    vec![
        Property::FontFamily(vec![FontFamily::Generic(GenericFontFamily::Serif)]),
        Property::FontSize(px(12_000)),
        Property::FontStyle(FontStyle::Italic),
        Property::FontWeight(FontWeight::Absolute(AbsoluteFontWeight::Bold)),
        Property::FontStretch(FontStretch::Keyword(FontStretchKeyword::Condensed)),
        Property::LineHeight(LineHeight::Number(1_200)),
        Property::FontVariantCaps(caps),
    ]
}

#[test]
fn complete_longhand_set_folds_into_one_shorthand() {
    let mut handler = FontHandler::new();
    let mut out: Vec<Property> = Vec::new();
    for p in all_longhands(FontVariantCaps::SmallCaps) {
        assert!(handler.handle_property(&p, &mut out));
    }
    assert!(out.is_empty());
    handler.finalize(&mut out);
    assert_eq!(out.len(), 1);
    match &out[0] {
        Property::Font(f) => {
            assert_eq!(f.style, FontStyle::Italic);
            assert_eq!(f.variant_caps, FontVariantCapsCSS2::SmallCaps);
            assert_eq!(f.size, px(12_000));
        }
        other => panic!("expected a font shorthand, got {:?}", other),
    }
}

#[test]
fn incompatible_caps_value_splits_into_two_declarations() {
    let mut handler = FontHandler::new();
    let mut out: Vec<Property> = Vec::new();
    for p in all_longhands(FontVariantCaps::AllSmallCaps) {
        assert!(handler.handle_property(&p, &mut out));
    }
    handler.finalize(&mut out);
    assert_eq!(out.len(), 2);
    match &out[0] {
        Property::Font(f) => assert_eq!(f.variant_caps, FontVariantCapsCSS2::Normal),
        other => panic!("expected a font shorthand, got {:?}", other),
    }
    assert_eq!(
        out[1],
        Property::FontVariantCaps(FontVariantCaps::AllSmallCaps)
    );
}

#[test]
fn unparsed_font_declaration_interrupts_the_group() {
    let mut handler = FontHandler::new();
    let mut out: Vec<Property> = Vec::new();
    let italic = Property::FontStyle(FontStyle::Italic);
    assert!(handler.handle_property(&italic, &mut out));
    let raw = Property::Unparsed(UnparsedProperty {
        property_id: PropertyId::FontSize,
        value: vec![Token::Ident("larger".to_string())],
    });
    assert!(handler.handle_property(&raw, &mut out));
    let bold = Property::FontWeight(FontWeight::Absolute(AbsoluteFontWeight::Bold));
    assert!(handler.handle_property(&bold, &mut out));
    handler.finalize(&mut out);
    assert_eq!(out.len(), 3);
    assert_eq!(out[0], Property::FontStyle(FontStyle::Italic));
    assert_eq!(out[1], raw);
    assert_eq!(
        out[2],
        Property::FontWeight(FontWeight::Absolute(AbsoluteFontWeight::Bold))
    );
}

#[test]
fn partial_group_flushes_longhands_in_canonical_order() {
    let mut handler = FontHandler::new();
    let mut out: Vec<Property> = Vec::new();
    let bold = Property::FontWeight(FontWeight::Absolute(AbsoluteFontWeight::Bold));
    let size = Property::FontSize(px(12_000));
    assert!(handler.handle_property(&bold, &mut out));
    assert!(handler.handle_property(&size, &mut out));
    handler.finalize(&mut out);
    assert_eq!(out.len(), 2);
    assert_eq!(out[0], Property::FontSize(px(12_000)));
    assert_eq!(
        out[1],
        Property::FontWeight(FontWeight::Absolute(AbsoluteFontWeight::Bold))
    );
}

#[test]
fn one_shorthand_passes_through_unchanged() {
    let font = Font {
        family: vec![FontFamily::Generic(GenericFontFamily::Serif)],
        size: px(12_000),
        style: FontStyle::Italic,
        weight: FontWeight::Absolute(AbsoluteFontWeight::Bold),
        stretch: FontStretch::Keyword(FontStretchKeyword::Normal),
        line_height: LineHeight::Normal,
        variant_caps: FontVariantCapsCSS2::SmallCaps,
    };
    let mut handler = FontHandler::new();
    let mut out: Vec<Property> = Vec::new();
    assert!(handler.handle_property(&Property::Font(font.clone()), &mut out));
    assert!(out.is_empty());
    handler.finalize(&mut out);
    assert_eq!(out, vec![Property::Font(font)]);
}

#[test]
fn handler_declines_foreign_declarations() {
    let mut handler = FontHandler::new();
    let mut out: Vec<Property> = Vec::new();
    let va = Property::VerticalAlign(VerticalAlign::Keyword(VerticalAlignKeyword::Middle));
    assert!(!handler.handle_property(&va, &mut out));
    assert!(out.is_empty());
    handler.finalize(&mut out);
    assert!(out.is_empty());
}

#[test]
fn block_minify_folds_and_passes_through() {
    let mut block = DeclarationBlock {
        declarations: {
            let mut d = all_longhands(FontVariantCaps::SmallCaps);
            d.insert(
                3,
                Property::VerticalAlign(VerticalAlign::Keyword(VerticalAlignKeyword::Middle)),
            );
            d
        },
        important_declarations: vec![Property::FontStyle(FontStyle::Italic)],
    };
    let mut handler = DeclarationHandler::new();
    let mut important_handler = DeclarationHandler::new();
    block.minify(&mut handler, &mut important_handler);
    assert_eq!(block.declarations.len(), 2);
    assert_eq!(
        block.declarations[0],
        Property::VerticalAlign(VerticalAlign::Keyword(VerticalAlignKeyword::Middle))
    );
    assert!(matches!(block.declarations[1], Property::Font(_)));
    assert_eq!(
        block.important_declarations,
        vec![Property::FontStyle(FontStyle::Italic)]
    );
}

#[test]
fn important_declarations_are_never_folded_with_normal_ones() {
    let mut block = DeclarationBlock::new();
    block.declarations = vec![
        Property::FontSize(px(12_000)),
        Property::FontWeight(FontWeight::Absolute(AbsoluteFontWeight::Bold)),
    ];
    block.important_declarations = vec![
        Property::FontStyle(FontStyle::Italic),
    ];
    let mut handler = DeclarationHandler::new();
    let mut important_handler = DeclarationHandler::new();
    block.minify(&mut handler, &mut important_handler);
    assert_eq!(block.declarations.len(), 2);
    assert_eq!(block.important_declarations.len(), 1);
}

#[test]
fn style_rule_minifies_and_serializes() {
    let mut rule = StyleRule {
        selectors: ".hero".to_string(),
        declarations: DeclarationBlock {
            declarations: all_longhands(FontVariantCaps::SmallCaps),
            important_declarations: Vec::new(),
        },
    };
    let mut handler = DeclarationHandler::new();
    let mut important_handler = DeclarationHandler::new();
    rule.minify(&mut handler, &mut important_handler);
    let mut p = Printer::new(true);
    rule.to_css(&mut p);
    assert_eq!(
        p.finish(),
        ".hero{font:italic small-caps 700 75% 12px/1.2 serif;}"
    );
    let mut p = Printer::new(false);
    rule.to_css(&mut p);
    assert_eq!(
        p.finish(),
        ".hero { font: italic small-caps bold condensed 12px / 1.2 serif; }"
    );
}

#[test]
fn important_marker_is_written_after_the_value() {
    let rule = StyleRule {
        selectors: "p".to_string(),
        declarations: DeclarationBlock {
            declarations: Vec::new(),
            important_declarations: vec![Property::FontStyle(FontStyle::Italic)],
        },
    };
    let mut p = Printer::new(true);
    rule.to_css(&mut p);
    assert_eq!(p.finish(), "p{font-style:italic!important;}");
    let mut p = Printer::new(false);
    rule.to_css(&mut p);
    assert_eq!(p.finish(), "p { font-style: italic !important; }");
}
