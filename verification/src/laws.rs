//! The engine's laws: statements that tie several operations together,
//! proved once and for all inputs.

use vstd::prelude::*;
use crate::declaration::{process_block, process_list};
use crate::font::{
    normal_at, spec_is_font_property, AbsoluteFontSize, AbsoluteFontWeight, FamilyM, Font, FontM,
    FontSize, FontStretch, FontStretchKeyword, FontStyle, FontVariantCaps, FontVariantCapsCSS2,
    FontWeight, LineHeight, RelativeFontSize, VerticalAlign, VerticalAlignKeyword, HandlerM,
    DEFAULT_OBLIQUE_MILLIS,
};
use crate::text::{
    join_sp, join_tail, lemma_join_sp_tail, lemma_seq_eq_ic_refl, lemma_split_from_len,
    lemma_split_join, seq_eq_ic, split_from,
};
use crate::font::{collect_idents, fam_list_toks_from, fam_toks, FontFamily, GenericFontFamily};
use crate::values::{lemma_not_eq_ic, lemma_unit_roundtrip, Angle, LengthPercentage};
use crate::properties::{PropM, UnparsedM};
use crate::tokens::{ErrorKind, TokM};
use crate::values::unit_from_seq;

verus! {

/// Folding a block that holds exactly one complete `font` shorthand and no
/// longhands reproduces that shorthand unchanged: no information is lost
/// and nothing is duplicated.
pub proof fn lemma_fold_shorthand_idempotent(f: FontM)
    ensures
        process_block(HandlerM::empty(), seq![PropM::Font(f)]) == seq![PropM::Font(f)],
{
    let props = seq![PropM::Font(f)];
    assert(props.drop_first() =~= Seq::<PropM>::empty());
    let step = HandlerM::empty().handle(PropM::Font(f));
    assert(process_list(step.0, props.drop_first()) == (step.0, Seq::<PropM>::empty()));
    assert(step.0.complete());
    assert(step.0.variant_caps == Some(f.variant_caps.spec_to_font_variant_caps()));
    assert(f.variant_caps.spec_to_font_variant_caps().spec_to_css2() == Some(f.variant_caps));
    assert(step.0.font_with(f.variant_caps) == f);
    assert(step.0.finalize_out() == seq![PropM::Font(f)]);
    assert(process_block(HandlerM::empty(), props) =~= seq![PropM::Font(f)]);
}

/// Walks the seven longhand declarations of the group through an empty
/// handler: nothing is emitted, and every slot ends full.
proof fn lemma_intake_longhands(
    family: Seq<FamilyM>,
    size: FontSize,
    style: FontStyle,
    weight: FontWeight,
    stretch: FontStretch,
    line_height: LineHeight,
    caps: FontVariantCaps,
) -> (hend: HandlerM)
    ensures
        process_list(
            HandlerM::empty(),
            seq![
                PropM::FontFamily(family),
                PropM::FontSize(size),
                PropM::FontStyle(style),
                PropM::FontWeight(weight),
                PropM::FontStretch(stretch),
                PropM::LineHeight(line_height),
                PropM::FontVariantCaps(caps),
            ],
        ) == (hend, Seq::<PropM>::empty()),
        hend == (HandlerM {
            family: Some(family),
            size: Some(size),
            style: Some(style),
            weight: Some(weight),
            stretch: Some(stretch),
            line_height: Some(line_height),
            variant_caps: Some(caps),
            has_any: true,
        }),
{
    let p0 = seq![
        PropM::FontFamily(family),
        PropM::FontSize(size),
        PropM::FontStyle(style),
        PropM::FontWeight(weight),
        PropM::FontStretch(stretch),
        PropM::LineHeight(line_height),
        PropM::FontVariantCaps(caps),
    ];
    let p1 = seq![
        PropM::FontSize(size),
        PropM::FontStyle(style),
        PropM::FontWeight(weight),
        PropM::FontStretch(stretch),
        PropM::LineHeight(line_height),
        PropM::FontVariantCaps(caps),
    ];
    let p2 = seq![
        PropM::FontStyle(style),
        PropM::FontWeight(weight),
        PropM::FontStretch(stretch),
        PropM::LineHeight(line_height),
        PropM::FontVariantCaps(caps),
    ];
    let p3 = seq![
        PropM::FontWeight(weight),
        PropM::FontStretch(stretch),
        PropM::LineHeight(line_height),
        PropM::FontVariantCaps(caps),
    ];
    let p4 = seq![
        PropM::FontStretch(stretch),
        PropM::LineHeight(line_height),
        PropM::FontVariantCaps(caps),
    ];
    let p5 = seq![PropM::LineHeight(line_height), PropM::FontVariantCaps(caps)];
    let p6 = seq![PropM::FontVariantCaps(caps)];
    assert(p0.drop_first() =~= p1);
    assert(p1.drop_first() =~= p2);
    assert(p2.drop_first() =~= p3);
    assert(p3.drop_first() =~= p4);
    assert(p4.drop_first() =~= p5);
    assert(p5.drop_first() =~= p6);
    assert(p6.drop_first() =~= Seq::<PropM>::empty());
    let h0 = HandlerM::empty();
    let h1 = h0.handle(p0[0]).0;
    let h2 = h1.handle(p1[0]).0;
    let h3 = h2.handle(p2[0]).0;
    let h4 = h3.handle(p3[0]).0;
    let h5 = h4.handle(p4[0]).0;
    let h6 = h5.handle(p5[0]).0;
    let h7 = h6.handle(p6[0]).0;
    assert(process_list(h7, Seq::<PropM>::empty()) == (h7, Seq::<PropM>::empty()));
    assert(process_list(h6, p6).1 =~= Seq::<PropM>::empty());
    assert(process_list(h5, p5).1 =~= Seq::<PropM>::empty());
    assert(process_list(h4, p4).1 =~= Seq::<PropM>::empty());
    assert(process_list(h3, p3).1 =~= Seq::<PropM>::empty());
    assert(process_list(h2, p2).1 =~= Seq::<PropM>::empty());
    assert(process_list(h1, p1).1 =~= Seq::<PropM>::empty());
    assert(process_list(h0, p0).1 =~= Seq::<PropM>::empty());
    h7
}

/// Feeding every longhand of the font group and then flushing yields
/// exactly one `font` shorthand and no leftover longhands, as long as the
/// accumulated caps value fits CSS 2.1.
pub proof fn lemma_complete_longhands_fold(
    family: Seq<FamilyM>,
    size: FontSize,
    style: FontStyle,
    weight: FontWeight,
    stretch: FontStretch,
    line_height: LineHeight,
    caps: FontVariantCaps,
    c2: FontVariantCapsCSS2,
)
    requires
        caps.spec_to_css2() == Some(c2),
    ensures
        process_block(
            HandlerM::empty(),
            seq![
                PropM::FontFamily(family),
                PropM::FontSize(size),
                PropM::FontStyle(style),
                PropM::FontWeight(weight),
                PropM::FontStretch(stretch),
                PropM::LineHeight(line_height),
                PropM::FontVariantCaps(caps),
            ],
        ) == seq![
            PropM::Font(
                FontM { family, size, style, weight, stretch, line_height, variant_caps: c2 },
            ),
        ],
{
    let props = seq![
        PropM::FontFamily(family),
        PropM::FontSize(size),
        PropM::FontStyle(style),
        PropM::FontWeight(weight),
        PropM::FontStretch(stretch),
        PropM::LineHeight(line_height),
        PropM::FontVariantCaps(caps),
    ];
    let hend = lemma_intake_longhands(family, size, style, weight, stretch, line_height, caps);
    assert(hend.complete());
    assert(hend.finalize_out() == seq![PropM::Font(hend.font_with(c2))]);
    assert(hend.font_with(c2) == FontM {
        family,
        size,
        style,
        weight,
        stretch,
        line_height,
        variant_caps: c2,
    });
    assert(process_block(HandlerM::empty(), props) =~= seq![PropM::Font(hend.font_with(c2))]);
}

/// Same intake, but with a caps value outside CSS 2.1: the flush yields the
/// shorthand with its caps normalized to the default, immediately followed
/// by one standalone `font-variant-caps` declaration carrying the true
/// value - exactly two declarations, in that order.
pub proof fn lemma_incompatible_caps_split(
    family: Seq<FamilyM>,
    size: FontSize,
    style: FontStyle,
    weight: FontWeight,
    stretch: FontStretch,
    line_height: LineHeight,
    caps: FontVariantCaps,
)
    requires
        caps.spec_to_css2() is None,
    ensures
        process_block(
            HandlerM::empty(),
            seq![
                PropM::FontFamily(family),
                PropM::FontSize(size),
                PropM::FontStyle(style),
                PropM::FontWeight(weight),
                PropM::FontStretch(stretch),
                PropM::LineHeight(line_height),
                PropM::FontVariantCaps(caps),
            ],
        ) == seq![
            PropM::Font(
                FontM {
                    family,
                    size,
                    style,
                    weight,
                    stretch,
                    line_height,
                    variant_caps: FontVariantCapsCSS2::Normal,
                },
            ),
            PropM::FontVariantCaps(caps),
        ],
{
    let props = seq![
        PropM::FontFamily(family),
        PropM::FontSize(size),
        PropM::FontStyle(style),
        PropM::FontWeight(weight),
        PropM::FontStretch(stretch),
        PropM::LineHeight(line_height),
        PropM::FontVariantCaps(caps),
    ];
    let hend = lemma_intake_longhands(family, size, style, weight, stretch, line_height, caps);
    assert(hend.complete());
    assert(hend.finalize_out() == seq![
        PropM::Font(hend.font_with(FontVariantCapsCSS2::Normal)),
        PropM::FontVariantCaps(caps),
    ]);
    assert(process_block(HandlerM::empty(), props) =~= seq![
        PropM::Font(hend.font_with(FontVariantCapsCSS2::Normal)),
        PropM::FontVariantCaps(caps),
    ]);
}

/// An unparsed declaration naming a font property interrupts the group: the
/// accumulated state is flushed first, the raw declaration is passed
/// through right after it, and the handler starts afresh.
pub proof fn lemma_interrupting_raw_flushes(h: HandlerM, u: UnparsedM)
    requires
        spec_is_font_property(u.property_id),
    ensures
        h.handle(PropM::Unparsed(u)) == (
            HandlerM::empty(),
            h.finalize_out() + seq![PropM::Unparsed(u)],
            true,
        ),
{
}

/// A partial group never folds: given only a size and a weight, the flush
/// emits the two longhands, size before weight, and no shorthand.
pub proof fn lemma_partial_group_stays_longhand(size: FontSize, weight: FontWeight)
    ensures
        process_block(
            HandlerM::empty(),
            seq![PropM::FontSize(size), PropM::FontWeight(weight)],
        ) == seq![PropM::FontSize(size), PropM::FontWeight(weight)],
{
    let props = seq![PropM::FontSize(size), PropM::FontWeight(weight)];
    let p1 = seq![PropM::FontWeight(weight)];
    assert(props.drop_first() =~= p1);
    assert(p1.drop_first() =~= Seq::<PropM>::empty());
    let h0 = HandlerM::empty();
    let h1 = h0.handle(props[0]).0;
    let h2 = h1.handle(p1[0]).0;
    assert(process_list(h2, Seq::<PropM>::empty()) == (h2, Seq::<PropM>::empty()));
    assert(process_list(h1, p1).1 =~= Seq::<PropM>::empty());
    assert(process_list(h0, props).1 =~= Seq::<PropM>::empty());
    assert(!h2.complete());
    assert(h2.finalize_out() == h2.longhands_out());
    assert(h2.longhands_out() =~= seq![PropM::FontSize(size), PropM::FontWeight(weight)]);
    assert(process_block(h0, props) =~= seq![PropM::FontSize(size), PropM::FontWeight(weight)]);
}

/// How many leading components the shorthand loop matches from a state
/// before a parsable size: bare `normal`, style, weight, CSS 2.1 caps and
/// stretch keywords, tried in the loop's fixed order. `None` where the loop
/// never reaches a parsable size.
pub open spec fn leading_components(
    toks: Seq<TokM>,
    pos: int,
    style: Option<FontStyle>,
    weight: Option<FontWeight>,
    caps: Option<FontVariantCapsCSS2>,
    stretch: Option<FontStretch>,
) -> Option<int>
    decreases toks.len() - pos,
{
    if normal_at(toks, pos) {
        match leading_components(toks, pos + 1, style, weight, caps, stretch) {
            Some(j) => Some(j + 1),
            None => None,
        }
    } else {
        let st = if style is None {
            FontStyle::spec_parse(toks, pos)
        } else {
            None
        };
        match st {
            Some((v, p)) => if pos < p <= toks.len() {
                match leading_components(toks, p, Some(v), weight, caps, stretch) {
                    Some(j) => Some(j + 1),
                    None => None,
                }
            } else {
                None
            },
            None => {
                let wt = if weight is None {
                    FontWeight::spec_parse(toks, pos)
                } else {
                    None
                };
                match wt {
                    Some((v, p)) => if pos < p <= toks.len() {
                        match leading_components(toks, p, style, Some(v), caps, stretch) {
                            Some(j) => Some(j + 1),
                            None => None,
                        }
                    } else {
                        None
                    },
                    None => {
                        let cp = if caps is None {
                            FontVariantCapsCSS2::spec_parse(toks, pos)
                        } else {
                            None
                        };
                        match cp {
                            Some((v, p)) => if pos < p <= toks.len() {
                                match leading_components(toks, p, style, weight, Some(v), stretch) {
                                    Some(j) => Some(j + 1),
                                    None => None,
                                }
                            } else {
                                None
                            },
                            None => {
                                let sk = if stretch is None {
                                    FontStretchKeyword::spec_parse(toks, pos)
                                } else {
                                    None
                                };
                                match sk {
                                    Some((v, p)) => if pos < p <= toks.len() {
                                        match leading_components(
                                            toks,
                                            p,
                                            style,
                                            weight,
                                            caps,
                                            Some(FontStretch::Keyword(v)),
                                        ) {
                                            Some(j) => Some(j + 1),
                                            None => None,
                                        }
                                    } else {
                                        None
                                    },
                                    None => match FontSize::spec_parse(toks, pos) {
                                        Some(q) => Some(0),
                                        None => None,
                                    },
                                }
                            },
                        }
                    },
                }
            },
        }
    }
}

/// From any loop state, a run of components long enough to push the count
/// over four before the size fails the parse as `InvalidDeclaration`.
proof fn lemma_font_loop_ambiguity(
    toks: Seq<TokM>,
    pos: int,
    style: Option<FontStyle>,
    weight: Option<FontWeight>,
    caps: Option<FontVariantCapsCSS2>,
    stretch: Option<FontStretch>,
    count: int,
)
    requires
        match leading_components(toks, pos, style, weight, caps, stretch) {
            Some(j) => count + j > 4,
            None => false,
        },
    ensures
        Font::font_loop(toks, pos, style, weight, caps, stretch, count) == Err::<
            (FontM, int),
            ErrorKind,
        >(ErrorKind::InvalidDeclaration),
    decreases toks.len() - pos,
{
    if normal_at(toks, pos) {
        lemma_font_loop_ambiguity(toks, pos + 1, style, weight, caps, stretch, count + 1);
    } else {
        let st = if style is None {
            FontStyle::spec_parse(toks, pos)
        } else {
            None::<(FontStyle, int)>
        };
        match st {
            Some((v, p)) => {
                lemma_font_loop_ambiguity(toks, p, Some(v), weight, caps, stretch, count + 1);
            },
            None => {
                let wt = if weight is None {
                    FontWeight::spec_parse(toks, pos)
                } else {
                    None::<(FontWeight, int)>
                };
                match wt {
                    Some((v, p)) => {
                        lemma_font_loop_ambiguity(toks, p, style, Some(v), caps, stretch, count + 1);
                    },
                    None => {
                        let cp = if caps is None {
                            FontVariantCapsCSS2::spec_parse(toks, pos)
                        } else {
                            None::<(FontVariantCapsCSS2, int)>
                        };
                        match cp {
                            Some((v, p)) => {
                                lemma_font_loop_ambiguity(
                                    toks,
                                    p,
                                    style,
                                    weight,
                                    Some(v),
                                    stretch,
                                    count + 1,
                                );
                            },
                            None => {
                                let sk = if stretch is None {
                                    FontStretchKeyword::spec_parse(toks, pos)
                                } else {
                                    None::<(FontStretchKeyword, int)>
                                };
                                match sk {
                                    Some((v, p)) => {
                                        lemma_font_loop_ambiguity(
                                            toks,
                                            p,
                                            style,
                                            weight,
                                            caps,
                                            Some(FontStretch::Keyword(v)),
                                            count + 1,
                                        );
                                    },
                                    None => {
                                    },
                                }
                            },
                        }
                    },
                }
            },
        }
    }
}

/// The shorthand's ambiguity bound in general: however the five or more
/// leading components are spelled - bare `normal`, style, weight, CSS 2.1
/// caps or stretch keywords, in any mix the loop matches - a parsable size
/// after them fails the whole parse as `InvalidDeclaration`.
pub proof fn lemma_ambiguity_bound_general(toks: Seq<TokM>, pos: int)
    requires
        match leading_components(toks, pos, None, None, None, None) {
            Some(j) => j >= 5,
            None => false,
        },
    ensures
        Font::spec_parse(toks, pos) == Err::<(FontM, int), ErrorKind>(
            ErrorKind::InvalidDeclaration,
        ),
{
    lemma_font_loop_ambiguity(toks, pos, None, None, None, None, 0);
}

/// Five leading ambiguous `normal` keywords before the size overrun the
/// shorthand's ambiguity budget: the parse fails as `InvalidDeclaration`.
pub proof fn lemma_ambiguity_bound(toks: Seq<TokM>, pos: int)
    requires
        0 <= pos,
        pos + 5 < toks.len(),
        forall|k: int| pos <= k < pos + 5 ==> #[trigger] normal_at(toks, k),
        match toks[pos + 5] {
            TokM::Dim(n, u) => unit_from_seq(u) is Some,
            TokM::Percent(n) => true,
            _ => false,
        },
    ensures
        Font::spec_parse(toks, pos) == Err::<(FontM, int), ErrorKind>(
            ErrorKind::InvalidDeclaration,
        ),
{
    assert(normal_at(toks, pos));
    assert(normal_at(toks, pos + 1));
    assert(normal_at(toks, pos + 2));
    assert(normal_at(toks, pos + 3));
    assert(normal_at(toks, pos + 4));
    assert(Font::font_loop(toks, pos, None, None, None, None, 0) == Font::font_loop(
        toks,
        pos + 1,
        None,
        None,
        None,
        None,
        1,
    ));
    assert(Font::font_loop(toks, pos + 1, None, None, None, None, 1) == Font::font_loop(
        toks,
        pos + 2,
        None,
        None,
        None,
        None,
        2,
    ));
    assert(Font::font_loop(toks, pos + 2, None, None, None, None, 2) == Font::font_loop(
        toks,
        pos + 3,
        None,
        None,
        None,
        None,
        3,
    ));
    assert(Font::font_loop(toks, pos + 3, None, None, None, None, 3) == Font::font_loop(
        toks,
        pos + 4,
        None,
        None,
        None,
        None,
        4,
    ));
    assert(Font::font_loop(toks, pos + 4, None, None, None, None, 4) == Font::font_loop(
        toks,
        pos + 5,
        None,
        None,
        None,
        None,
        5,
    ));
    assert(!normal_at(toks, pos + 5));
    assert(FontStyle::spec_parse(toks, pos + 5) is None);
    assert(FontWeight::spec_parse(toks, pos + 5) is None);
    assert(FontVariantCapsCSS2::spec_parse(toks, pos + 5) is None);
    assert(FontStretchKeyword::spec_parse(toks, pos + 5) is None);
    assert(FontSize::spec_parse(toks, pos + 5) is Some);
    assert(Font::font_loop(toks, pos + 5, None, None, None, None, 5) == Err::<
        (FontM, int),
        ErrorKind,
    >(ErrorKind::InvalidDeclaration));
}


/// An absolute size keyword's spelling names that keyword and no other.
pub proof fn lemma_abs_size_spelling(v: AbsoluteFontSize)
    ensures
        AbsoluteFontSize::from_seq(v.spelling()) == Some(v),
{
    reveal_strlit("xx-small");
    reveal_strlit("x-small");
    reveal_strlit("small");
    reveal_strlit("medium");
    reveal_strlit("large");
    reveal_strlit("x-large");
    reveal_strlit("xx-large");
    lemma_seq_eq_ic_refl(v.spelling());
    match v {
        AbsoluteFontSize::Large => {
            lemma_not_eq_ic("large"@, "small"@, 0);
        },
        AbsoluteFontSize::XLarge => {
            lemma_not_eq_ic("x-large"@, "x-small"@, 2);
        },
        AbsoluteFontSize::XXLarge => {
            lemma_not_eq_ic("xx-large"@, "xx-small"@, 3);
        },
        _ => {},
    }
}

/// A relative size keyword's spelling names that keyword and no other, and
/// no absolute size keyword either.
pub proof fn lemma_rel_size_spelling(v: RelativeFontSize)
    ensures
        RelativeFontSize::from_seq(v.spelling()) == Some(v),
        AbsoluteFontSize::from_seq(v.spelling()) is None,
{
    reveal_strlit("xx-small");
    reveal_strlit("x-small");
    reveal_strlit("small");
    reveal_strlit("medium");
    reveal_strlit("large");
    reveal_strlit("x-large");
    reveal_strlit("xx-large");
    reveal_strlit("smaller");
    reveal_strlit("larger");
    lemma_seq_eq_ic_refl(v.spelling());
    match v {
        RelativeFontSize::Smaller => {
            lemma_not_eq_ic("smaller"@, "x-small"@, 0);
            lemma_not_eq_ic("smaller"@, "x-large"@, 0);
        },
        RelativeFontSize::Larger => {
            lemma_not_eq_ic("larger"@, "medium"@, 0);
        },
    }
}

/// A stretch keyword's spelling names that keyword and no other.
pub proof fn lemma_stretch_kw_spelling(v: FontStretchKeyword)
    ensures
        FontStretchKeyword::from_seq(v.spelling()) == Some(v),
{
    reveal_strlit("normal");
    reveal_strlit("ultra-condensed");
    reveal_strlit("extra-condensed");
    reveal_strlit("condensed");
    reveal_strlit("semi-condensed");
    reveal_strlit("semi-expanded");
    reveal_strlit("expanded");
    reveal_strlit("extra-expanded");
    reveal_strlit("ultra-expanded");
    lemma_seq_eq_ic_refl(v.spelling());
    match v {
        FontStretchKeyword::ExtraCondensed => {
            lemma_not_eq_ic("extra-condensed"@, "ultra-condensed"@, 0);
        },
        FontStretchKeyword::ExtraExpanded => {
            lemma_not_eq_ic("extra-expanded"@, "semi-condensed"@, 0);
        },
        FontStretchKeyword::UltraExpanded => {
            lemma_not_eq_ic("ultra-expanded"@, "semi-condensed"@, 0);
            lemma_not_eq_ic("ultra-expanded"@, "extra-expanded"@, 0);
        },
        _ => {},
    }
}

/// A caps keyword's spelling names that keyword and no other.
pub proof fn lemma_caps_spelling(v: FontVariantCaps)
    ensures
        FontVariantCaps::from_seq(v.spelling()) == Some(v),
{
    reveal_strlit("normal");
    reveal_strlit("small-caps");
    reveal_strlit("all-small-caps");
    reveal_strlit("petite-caps");
    reveal_strlit("all-petite-caps");
    reveal_strlit("unicase");
    reveal_strlit("titling-caps");
    lemma_seq_eq_ic_refl(v.spelling());
}

/// A CSS 2.1 caps keyword's spelling names that keyword and no other.
pub proof fn lemma_caps2_spelling(v: FontVariantCapsCSS2)
    ensures
        FontVariantCapsCSS2::from_seq(v.spelling()) == Some(v),
{
    reveal_strlit("normal");
    reveal_strlit("small-caps");
    lemma_seq_eq_ic_refl(v.spelling());
}

/// A vertical-align keyword's spelling names that keyword and no other.
pub proof fn lemma_valign_kw_spelling(v: VerticalAlignKeyword)
    ensures
        VerticalAlignKeyword::from_seq(v.spelling()) == Some(v),
{
    reveal_strlit("baseline");
    reveal_strlit("sub");
    reveal_strlit("super");
    reveal_strlit("top");
    reveal_strlit("text-top");
    reveal_strlit("middle");
    reveal_strlit("bottom");
    reveal_strlit("text-bottom");
    lemma_seq_eq_ic_refl(v.spelling());
    match v {
        VerticalAlignKeyword::Top => {
            lemma_not_eq_ic("top"@, "sub"@, 0);
        },
        VerticalAlignKeyword::TextTop => {
            lemma_not_eq_ic("text-top"@, "baseline"@, 0);
        },
        VerticalAlignKeyword::Bottom => {
            lemma_not_eq_ic("bottom"@, "middle"@, 0);
        },
        _ => {},
    }
}

/// The weight a serialized font weight reads back as: the same value, but
/// for the keywords that minification writes as their numeric equivalents.
pub open spec fn weight_reparsed(w: FontWeight, minify: bool) -> FontWeight {
    match w {
        FontWeight::Absolute(AbsoluteFontWeight::Normal) => if minify {
            FontWeight::Absolute(AbsoluteFontWeight::Weight(400000))
        } else {
            w
        },
        FontWeight::Absolute(AbsoluteFontWeight::Bold) => if minify {
            FontWeight::Absolute(AbsoluteFontWeight::Weight(700000))
        } else {
            w
        },
        _ => w,
    }
}

/// Round trip for `font-weight`: serializing and re-parsing, in any token
/// context, gives the value back up to the numeric keyword equivalents,
/// and gives it back exactly when not minifying.
pub proof fn lemma_roundtrip_font_weight(
    w: FontWeight,
    minify: bool,
    pre: Seq<TokM>,
    rest: Seq<TokM>,
)
    ensures
        FontWeight::spec_parse(pre + w.ser_toks(minify) + rest, pre.len() as int) == Some(
            (weight_reparsed(w, minify), pre.len() as int + w.ser_toks(minify).len() as int),
        ),
        FontWeight::equivalent(weight_reparsed(w, minify), w),
{
    reveal_strlit("normal");
    reveal_strlit("bold");
    reveal_strlit("bolder");
    reveal_strlit("lighter");
    let ser = w.ser_toks(minify);
    let toks = pre + ser + rest;
    assert(toks[pre.len() as int] == ser[0]);
    match w {
        FontWeight::Absolute(a) => {
            match a {
                AbsoluteFontWeight::Weight(n) => {
                },
                AbsoluteFontWeight::Normal => {
                    if !minify {
                        lemma_seq_eq_ic_refl("normal"@);
                    }
                },
                AbsoluteFontWeight::Bold => {
                    if !minify {
                        lemma_not_eq_ic("bold"@, "normal"@, 0);
                        lemma_seq_eq_ic_refl("bold"@);
                    }
                },
            }
        },
        FontWeight::Bolder => {
            lemma_not_eq_ic("bolder"@, "normal"@, 0);
            lemma_seq_eq_ic_refl("bolder"@);
        },
        FontWeight::Lighter => {
            lemma_not_eq_ic("lighter"@, "normal"@, 0);
            lemma_not_eq_ic("lighter"@, "bold"@, 0);
            lemma_not_eq_ic("lighter"@, "bolder"@, 0);
            lemma_seq_eq_ic_refl("lighter"@);
        },
    }
}

/// Round trip for `font-size`: serializing and re-parsing, in any token
/// context, gives the value back exactly.
pub proof fn lemma_roundtrip_font_size(s: FontSize, pre: Seq<TokM>, rest: Seq<TokM>)
    ensures
        FontSize::spec_parse(pre + s.ser_toks() + rest, pre.len() as int) == Some(
            (s, pre.len() as int + s.ser_toks().len() as int),
        ),
{
    let ser = s.ser_toks();
    let toks = pre + ser + rest;
    assert(toks[pre.len() as int] == ser[0]);
    match s {
        FontSize::Length(l) => {
            match l {
                LengthPercentage::Dimension(d) => {
                    lemma_unit_roundtrip(d.unit);
                },
                LengthPercentage::Percentage(p) => {
                },
            }
        },
        FontSize::Absolute(v) => {
            lemma_abs_size_spelling(v);
        },
        FontSize::Relative(v) => {
            lemma_rel_size_spelling(v);
        },
    }
}

/// The stretch a serialized font stretch reads back as: minifying collapses
/// a keyword to its percentage.
pub open spec fn stretch_reparsed(st: FontStretch, minify: bool) -> FontStretch {
    if minify {
        FontStretch::Percentage(
            crate::values::Percentage { millis: st.spec_percentage() as i64 },
        )
    } else {
        st
    }
}

/// Round trip for `font-stretch`: serializing and re-parsing, in any token
/// context, gives a stretch standing for the same percentage, and the same
/// value exactly when not minifying.
pub proof fn lemma_roundtrip_font_stretch(
    st: FontStretch,
    minify: bool,
    pre: Seq<TokM>,
    rest: Seq<TokM>,
)
    requires
        st.wf(),
    ensures
        FontStretch::spec_parse(pre + st.ser_toks(minify) + rest, pre.len() as int) == Some(
            (stretch_reparsed(st, minify), pre.len() as int + st.ser_toks(minify).len() as int),
        ),
        FontStretch::equivalent(stretch_reparsed(st, minify), st),
{
    let ser = st.ser_toks(minify);
    let toks = pre + ser + rest;
    assert(toks[pre.len() as int] == ser[0]);
    if !minify {
        match st {
            FontStretch::Keyword(k) => {
                lemma_stretch_kw_spelling(k);
            },
            FontStretch::Percentage(p) => {
            },
        }
    }
}

/// Round trip for `font-style`: serializing and re-parsing gives the value
/// back exactly. A default-angle oblique omits its angle, so the context
/// must not continue with a `deg` dimension that would be read as the
/// angle.
pub proof fn lemma_roundtrip_font_style(st: FontStyle, pre: Seq<TokM>, rest: Seq<TokM>)
    requires
        (st matches FontStyle::Oblique(a) && a.millis == DEFAULT_OBLIQUE_MILLIS) ==> (rest.len()
            == 0 || (match rest[0] {
            TokM::Dim(n, u) => !crate::text::seq_eq_ic(u, "deg"@),
            _ => true,
        })),
    ensures
        FontStyle::spec_parse(pre + st.ser_toks() + rest, pre.len() as int) == Some(
            (st, pre.len() as int + st.ser_toks().len() as int),
        ),
{
    reveal_strlit("normal");
    reveal_strlit("italic");
    reveal_strlit("oblique");
    reveal_strlit("deg");
    let ser = st.ser_toks();
    let toks = pre + ser + rest;
    assert(toks[pre.len() as int] == ser[0]);
    match st {
        FontStyle::Normal => {
            lemma_seq_eq_ic_refl("normal"@);
        },
        FontStyle::Italic => {
            lemma_not_eq_ic("italic"@, "normal"@, 0);
            lemma_seq_eq_ic_refl("italic"@);
        },
        FontStyle::Oblique(a) => {
            lemma_seq_eq_ic_refl("oblique"@);
            if a.millis != DEFAULT_OBLIQUE_MILLIS {
                assert(toks[pre.len() as int + 1] == ser[1]);
                lemma_seq_eq_ic_refl("deg"@);
            } else {
                if rest.len() > 0 {
                    assert(toks[pre.len() as int + 1] == rest[0]);
                }
                assert(Angle::spec_parse(toks, pre.len() as int + 1) is None);
            }
        },
    }
}

/// Round trip for `line-height`: serializing and re-parsing gives the value
/// back exactly.
pub proof fn lemma_roundtrip_line_height(lh: LineHeight, pre: Seq<TokM>, rest: Seq<TokM>)
    ensures
        LineHeight::spec_parse(pre + lh.ser_toks() + rest, pre.len() as int) == Some(
            (lh, pre.len() as int + lh.ser_toks().len() as int),
        ),
{
    reveal_strlit("normal");
    let ser = lh.ser_toks();
    let toks = pre + ser + rest;
    assert(toks[pre.len() as int] == ser[0]);
    match lh {
        LineHeight::Normal => {
            lemma_seq_eq_ic_refl("normal"@);
        },
        LineHeight::Number(n) => {
        },
        LineHeight::Length(l) => {
            match l {
                LengthPercentage::Dimension(d) => {
                    lemma_unit_roundtrip(d.unit);
                },
                LengthPercentage::Percentage(p) => {
                },
            }
        },
    }
}

/// Round trip for `font-variant-caps`: serializing and re-parsing gives the
/// value back exactly.
pub proof fn lemma_roundtrip_variant_caps(v: FontVariantCaps, pre: Seq<TokM>, rest: Seq<TokM>)
    ensures
        FontVariantCaps::spec_parse(pre + v.ser_toks() + rest, pre.len() as int) == Some(
            (v, pre.len() as int + 1),
        ),
{
    let ser = v.ser_toks();
    let toks = pre + ser + rest;
    assert(toks[pre.len() as int] == ser[0]);
    lemma_caps_spelling(v);
}

/// Round trip for the CSS 2.1 caps values: serializing and re-parsing gives
/// the value back exactly.
pub proof fn lemma_roundtrip_caps2(v: FontVariantCapsCSS2, pre: Seq<TokM>, rest: Seq<TokM>)
    ensures
        FontVariantCapsCSS2::spec_parse(pre + v.ser_toks() + rest, pre.len() as int) == Some(
            (v, pre.len() as int + 1),
        ),
{
    let ser = v.ser_toks();
    let toks = pre + ser + rest;
    assert(toks[pre.len() as int] == ser[0]);
    lemma_caps2_spelling(v);
}

/// Round trip for `vertical-align`: serializing and re-parsing gives the
/// value back exactly.
pub proof fn lemma_roundtrip_vertical_align(v: VerticalAlign, pre: Seq<TokM>, rest: Seq<TokM>)
    ensures
        VerticalAlign::spec_parse(pre + v.ser_toks() + rest, pre.len() as int) == Some(
            (v, pre.len() as int + 1),
        ),
{
    let ser = v.ser_toks();
    let toks = pre + ser + rest;
    assert(toks[pre.len() as int] == ser[0]);
    match v {
        VerticalAlign::Keyword(k) => {
            lemma_valign_kw_spelling(k);
        },
        VerticalAlign::Length(l) => {
            match l {
                LengthPercentage::Dimension(d) => {
                    lemma_unit_roundtrip(d.unit);
                },
                LengthPercentage::Percentage(p) => {
                },
            }
        },
    }
}


/// A generic family keyword's spelling names that keyword and no other.
pub proof fn lemma_generic_spelling(g: GenericFontFamily)
    ensures
        GenericFontFamily::from_seq(g.spelling()) == Some(g),
{
    reveal_strlit("serif");
    reveal_strlit("sans-serif");
    reveal_strlit("cursive");
    reveal_strlit("fantasy");
    reveal_strlit("monospace");
    reveal_strlit("system-ui");
    reveal_strlit("emoji");
    reveal_strlit("math");
    reveal_strlit("fangsong");
    reveal_strlit("ui-serif");
    reveal_strlit("ui-sans-serif");
    reveal_strlit("ui-monospace");
    reveal_strlit("ui-rounded");
    reveal_strlit("initial");
    reveal_strlit("inherit");
    reveal_strlit("unset");
    reveal_strlit("default");
    reveal_strlit("revert");
    reveal_strlit("revert-layer");
    lemma_seq_eq_ic_refl(g.spelling());
    match g {
        GenericFontFamily::Fantasy => {
            lemma_not_eq_ic("fantasy"@, "cursive"@, 0);
        },
        GenericFontFamily::SystemUI => {
            lemma_not_eq_ic("system-ui"@, "monospace"@, 0);
        },
        GenericFontFamily::Emoji => {
            lemma_not_eq_ic("emoji"@, "serif"@, 0);
        },
        GenericFontFamily::UISerif => {
            lemma_not_eq_ic("ui-serif"@, "fangsong"@, 0);
        },
        GenericFontFamily::UIRounded => {
            lemma_not_eq_ic("ui-rounded"@, "sans-serif"@, 0);
        },
        GenericFontFamily::Initial => {
            lemma_not_eq_ic("initial"@, "cursive"@, 0);
            lemma_not_eq_ic("initial"@, "fantasy"@, 0);
        },
        GenericFontFamily::Inherit => {
            lemma_not_eq_ic("inherit"@, "cursive"@, 0);
            lemma_not_eq_ic("inherit"@, "fantasy"@, 0);
            lemma_not_eq_ic("inherit"@, "initial"@, 2);
        },
        GenericFontFamily::Unset => {
            lemma_not_eq_ic("unset"@, "serif"@, 0);
            lemma_not_eq_ic("unset"@, "emoji"@, 0);
        },
        GenericFontFamily::ReservedDefault => {
            lemma_not_eq_ic("default"@, "cursive"@, 0);
            lemma_not_eq_ic("default"@, "fantasy"@, 0);
            lemma_not_eq_ic("default"@, "initial"@, 0);
            lemma_not_eq_ic("default"@, "inherit"@, 0);
        },
        GenericFontFamily::RevertLayer => {
            lemma_not_eq_ic("revert-layer"@, "ui-monospace"@, 0);
        },
        _ => {},
    }
}

/// Gathering identifiers walks exactly over a run of identifier tokens and
/// joins their texts with single spaces.
proof fn lemma_collect_words(toks: Seq<TokM>, base: int, ws: Seq<Seq<char>>, k: int, acc: Seq<char>)
    requires
        0 <= base,
        1 <= k <= ws.len(),
        base + ws.len() <= toks.len(),
        forall|j: int| 0 <= j < ws.len() ==> toks[base + j] == TokM::Ident(#[trigger] ws[j]),
        base + ws.len() == toks.len() || !(toks[base + ws.len()] is Ident),
    ensures
        collect_idents(toks, base + k, acc) == (acc + join_tail(ws, k), base + ws.len()),
    decreases ws.len() - k,
{
    if k == ws.len() {
        assert(acc + join_tail(ws, k) =~= acc);
    } else {
        assert(toks[base + k] == TokM::Ident(ws[k]));
        lemma_collect_words(toks, base, ws, k + 1, acc + seq![' '] + ws[k]);
        assert(acc + seq![' '] + ws[k] + join_tail(ws, k + 1) =~= acc + join_tail(ws, k));
    }
}

/// Round trip for one `font-family` value: serializing and re-parsing, in
/// any token context, gives the family back exactly. A name written as bare
/// identifiers is read back by gathering identifier tokens, so its first
/// word must not spell a generic family and the context must not continue
/// with another identifier.
pub proof fn lemma_roundtrip_family(f: FamilyM, pre: Seq<TokM>, rest: Seq<TokM>)
    requires
        (match f {
            FamilyM::Name(s) => fam_toks(f) != seq![TokM::QuotedStr(s)] ==> (
            GenericFontFamily::from_seq(split_from(s, 0)[0]) is None && (rest.len() == 0 || !(
            rest[0] is Ident))),
            FamilyM::Generic(g) => true,
        }),
    ensures
        FontFamily::spec_parse(pre + fam_toks(f) + rest, pre.len() as int) == Some(
            (f, pre.len() as int + fam_toks(f).len() as int),
        ),
{
    let ser = fam_toks(f);
    let toks = pre + ser + rest;
    let pos = pre.len() as int;
    match f {
        FamilyM::Generic(g) => {
            assert(toks[pos] == ser[0]);
            lemma_generic_spelling(g);
        },
        FamilyM::Name(s) => {
            let ws = split_from(s, 0);
            lemma_split_from_len(s, 0);
            if ser == seq![TokM::QuotedStr(s)] {
                assert(toks[pos] == ser[0]);
            } else {
                assert(ser == ws.map(|i: int, w: Seq<char>| TokM::Ident(w)));
                assert(s.len() > 0 && GenericFontFamily::from_seq(s) is None);
                assert(ser.len() == ws.len());
                assert forall|j: int| 0 <= j < ws.len() implies toks[pos + j] == TokM::Ident(
                    #[trigger] ws[j],
                ) by {
                    assert(ser[j] == TokM::Ident(ws[j]));
                }
                assert(pos + ws.len() == toks.len() || !(toks[pos + ws.len()] is Ident)) by {
                    if rest.len() > 0 {
                        assert(toks[pos + ws.len()] == rest[0]);
                    }
                }
                assert(toks[pos] == TokM::Ident(ws[0]));
                lemma_collect_words(toks, pos, ws, 1, ws[0]);
                lemma_join_sp_tail(ws);
                lemma_split_join(s, 0);
                assert(s.subrange(0, s.len() as int) =~= s);
                assert(ws[0] + join_tail(ws, 1) == join_sp(ws));
                assert(collect_idents(toks, pos + 1, ws[0]) == (s, pos + ws.len()));
            }
        },
    }
}


/// Whether a family survives the round trip in any context: a name written
/// as bare identifiers must not begin with a word that spells a generic
/// family.
pub open spec fn rt_ok_family(f: FamilyM) -> bool {
    match f {
        FamilyM::Name(s) => fam_toks(f) != seq![TokM::QuotedStr(s)]
            ==> GenericFontFamily::from_seq(split_from(s, 0)[0]) is None,
        FamilyM::Generic(g) => true,
    }
}

/// The tokens of the family list from the family at `k` on, without a
/// leading comma.
pub open spec fn fam_tail(fams: Seq<FamilyM>, k: int) -> Seq<TokM>
    decreases fams.len() - k,
{
    if 0 <= k < fams.len() {
        fam_toks(fams[k]) + (if k + 1 < fams.len() {
            seq![TokM::Comma] + fam_tail(fams, k + 1)
        } else {
            seq![]
        })
    } else {
        seq![]
    }
}

/// The serialized family list is its first family's tokens followed by
/// comma-led tails.
pub proof fn lemma_fam_tail_eq(fams: Seq<FamilyM>, k: int)
    requires
        0 <= k,
    ensures
        fam_list_toks_from(fams, k) == (if 0 <= k < fams.len() && k > 0 {
            seq![TokM::Comma] + fam_tail(fams, k)
        } else {
            fam_tail(fams, k)
        }),
    decreases fams.len() - k,
{
    if 0 <= k < fams.len() {
        lemma_fam_tail_eq(fams, k + 1);
        if k + 1 < fams.len() {
            assert((if k > 0 {
                seq![TokM::Comma]
            } else {
                Seq::<TokM>::empty()
            }) + fam_toks(fams[k]) + (seq![TokM::Comma] + fam_tail(fams, k + 1)) =~= (if k > 0 {
                seq![TokM::Comma] + fam_tail(fams, k)
            } else {
                fam_tail(fams, k)
            }));
        } else {
            assert((if k > 0 {
                seq![TokM::Comma]
            } else {
                Seq::<TokM>::empty()
            }) + fam_toks(fams[k]) + Seq::<TokM>::empty() =~= (if k > 0 {
                seq![TokM::Comma] + fam_tail(fams, k)
            } else {
                fam_tail(fams, k)
            }));
        }
    }
}

/// Parsing the serialized family list, placed at the end of the stream,
/// gives the families back exactly and consumes everything.
proof fn lemma_family_list_roundtrip(pre: Seq<TokM>, fams: Seq<FamilyM>, k: int)
    requires
        0 <= k < fams.len(),
        forall|i: int| k <= i < fams.len() ==> rt_ok_family(#[trigger] fams[i]),
    ensures
        Font::family_list(pre + fam_tail(fams, k), pre.len() as int) == Ok::<
            (Seq<FamilyM>, int),
            ErrorKind,
        >((fams.skip(k), (pre + fam_tail(fams, k)).len() as int)),
    decreases fams.len() - k,
{
    let toks = pre + fam_tail(fams, k);
    let pos = pre.len() as int;
    if k + 1 < fams.len() {
        let rest = seq![TokM::Comma] + fam_tail(fams, k + 1);
        assert(toks =~= pre + fam_toks(fams[k]) + rest);
        lemma_roundtrip_family(fams[k], pre, rest);
        let p = pos + fam_toks(fams[k]).len() as int;
        assert(FontFamily::spec_parse(toks, pos) == Some((fams[k], p)));
        assert(toks[p] == rest[0]);
        let pre2 = pre + fam_toks(fams[k]) + seq![TokM::Comma];
        assert(toks =~= pre2 + fam_tail(fams, k + 1));
        lemma_family_list_roundtrip(pre2, fams, k + 1);
        assert(pre2.len() as int == p + 1);
        assert(Font::family_list(toks, p + 1) == Ok::<(Seq<FamilyM>, int), ErrorKind>(
            (fams.skip(k + 1), toks.len() as int),
        ));
        assert(seq![fams[k]] + fams.skip(k + 1) =~= fams.skip(k));
    } else {
        let rest = Seq::<TokM>::empty();
        assert(toks =~= pre + fam_toks(fams[k]) + rest);
        lemma_roundtrip_family(fams[k], pre, rest);
        let p = pos + fam_toks(fams[k]).len() as int;
        assert(FontFamily::spec_parse(toks, pos) == Some((fams[k], p)));
        assert(p == toks.len());
        assert(fams.skip(k) =~= seq![fams[k]]);
    }
}

/// None of the leading component grammars reads a size's first token, and
/// it is not the ambiguous `normal` keyword either.
proof fn lemma_size_token_is_no_component(s: FontSize, toks: Seq<TokM>, p: int)
    requires
        0 <= p < toks.len(),
        toks[p] == s.ser_toks()[0],
    ensures
        !normal_at(toks, p),
        FontStyle::spec_parse(toks, p) is None,
        FontWeight::spec_parse(toks, p) is None,
        FontVariantCapsCSS2::spec_parse(toks, p) is None,
        FontStretchKeyword::spec_parse(toks, p) is None,
{
    reveal_strlit("normal");
    reveal_strlit("italic");
    reveal_strlit("oblique");
    reveal_strlit("bold");
    reveal_strlit("bolder");
    reveal_strlit("lighter");
    reveal_strlit("small-caps");
    reveal_strlit("ultra-condensed");
    reveal_strlit("extra-condensed");
    reveal_strlit("condensed");
    reveal_strlit("semi-condensed");
    reveal_strlit("semi-expanded");
    reveal_strlit("expanded");
    reveal_strlit("extra-expanded");
    reveal_strlit("ultra-expanded");
    reveal_strlit("xx-small");
    reveal_strlit("x-small");
    reveal_strlit("small");
    reveal_strlit("medium");
    reveal_strlit("large");
    reveal_strlit("x-large");
    reveal_strlit("xx-large");
    reveal_strlit("smaller");
    reveal_strlit("larger");
    match s {
        FontSize::Length(l) => {
        },
        FontSize::Absolute(v) => {
            match v {
                AbsoluteFontSize::Medium => {
                    lemma_not_eq_ic("medium"@, "normal"@, 0);
                    lemma_not_eq_ic("medium"@, "italic"@, 0);
                    lemma_not_eq_ic("medium"@, "bolder"@, 0);
                },
                AbsoluteFontSize::XSmall => {
                    lemma_not_eq_ic("x-small"@, "oblique"@, 0);
                    lemma_not_eq_ic("x-small"@, "lighter"@, 0);
                },
                AbsoluteFontSize::XLarge => {
                    lemma_not_eq_ic("x-large"@, "oblique"@, 0);
                    lemma_not_eq_ic("x-large"@, "lighter"@, 0);
                },
                AbsoluteFontSize::XXSmall => {
                    lemma_not_eq_ic("xx-small"@, "expanded"@, 0);
                },
                AbsoluteFontSize::XXLarge => {
                    lemma_not_eq_ic("xx-large"@, "expanded"@, 0);
                },
                _ => {},
            }
        },
        FontSize::Relative(v) => {
            match v {
                RelativeFontSize::Smaller => {
                    lemma_not_eq_ic("smaller"@, "oblique"@, 0);
                    lemma_not_eq_ic("smaller"@, "lighter"@, 0);
                },
                RelativeFontSize::Larger => {
                    lemma_not_eq_ic("larger"@, "normal"@, 0);
                    lemma_not_eq_ic("larger"@, "italic"@, 0);
                    lemma_not_eq_ic("larger"@, "bolder"@, 0);
                },
            }
        },
    }
}



/// The style component's token is never the bare `normal` keyword.
proof fn lemma_style_token_not_normal(st: FontStyle, toks: Seq<TokM>, p: int)
    requires
        st != FontStyle::spec_default(),
        0 <= p < toks.len(),
        toks[p] == st.ser_toks()[0],
    ensures
        !normal_at(toks, p),
{
    reveal_strlit("normal");
    reveal_strlit("italic");
    reveal_strlit("oblique");
    match st {
        FontStyle::Italic => {
            lemma_not_eq_ic("italic"@, "normal"@, 0);
        },
        _ => {},
    }
}

/// The caps component's token, `small-caps`, is read by no earlier grammar
/// of the shorthand loop.
proof fn lemma_caps_token_is_no_earlier_component(toks: Seq<TokM>, p: int)
    requires
        0 <= p < toks.len(),
        toks[p] == TokM::Ident("small-caps"@),
    ensures
        !normal_at(toks, p),
        FontStyle::spec_parse(toks, p) is None,
        FontWeight::spec_parse(toks, p) is None,
{
    reveal_strlit("normal");
    reveal_strlit("italic");
    reveal_strlit("oblique");
    reveal_strlit("bold");
    reveal_strlit("bolder");
    reveal_strlit("lighter");
    reveal_strlit("small-caps");
}

/// A non-default weight's first token is read by no earlier grammar of the
/// shorthand loop.
proof fn lemma_weight_token_is_no_earlier_component(
    w: FontWeight,
    minify: bool,
    toks: Seq<TokM>,
    p: int,
)
    requires
        w != FontWeight::spec_default(),
        0 <= p < toks.len(),
        toks[p] == w.ser_toks(minify)[0],
    ensures
        !normal_at(toks, p),
        FontStyle::spec_parse(toks, p) is None,
{
    reveal_strlit("normal");
    reveal_strlit("italic");
    reveal_strlit("oblique");
    reveal_strlit("bold");
    reveal_strlit("bolder");
    reveal_strlit("lighter");
    match w {
        FontWeight::Absolute(aw) => {
            if aw == AbsoluteFontWeight::Bold && !minify {
                lemma_not_eq_ic("bold"@, "normal"@, 0);
            }
        },
        FontWeight::Bolder => {
            lemma_not_eq_ic("bolder"@, "normal"@, 0);
            lemma_not_eq_ic("bolder"@, "italic"@, 0);
        },
        FontWeight::Lighter => {
            lemma_not_eq_ic("lighter"@, "oblique"@, 0);
        },
    }
}

/// A non-default stretch keyword's token is read by no earlier grammar of
/// the shorthand loop.
proof fn lemma_stretch_token_is_no_earlier_component(
    k: FontStretchKeyword,
    toks: Seq<TokM>,
    p: int,
)
    requires
        k != FontStretchKeyword::Normal,
        0 <= p < toks.len(),
        toks[p] == TokM::Ident(k.spelling()),
    ensures
        !normal_at(toks, p),
        FontStyle::spec_parse(toks, p) is None,
        FontWeight::spec_parse(toks, p) is None,
        FontVariantCapsCSS2::spec_parse(toks, p) is None,
{
    reveal_strlit("normal");
    reveal_strlit("italic");
    reveal_strlit("oblique");
    reveal_strlit("bold");
    reveal_strlit("bolder");
    reveal_strlit("lighter");
    reveal_strlit("small-caps");
    reveal_strlit("ultra-condensed");
    reveal_strlit("extra-condensed");
    reveal_strlit("condensed");
    reveal_strlit("semi-condensed");
    reveal_strlit("semi-expanded");
    reveal_strlit("expanded");
    reveal_strlit("extra-expanded");
    reveal_strlit("ultra-expanded");
}


/// The serialized shorthand splits around each of its components.
#[verifier::rlimit(100)]
#[verifier::spinoff_prover]
proof fn lemma_font_splits(
    a: Seq<TokM>,
    b: Seq<TokM>,
    c: Seq<TokM>,
    d: Seq<TokM>,
    sz: Seq<TokM>,
    e: Seq<TokM>,
    g: Seq<TokM>,
)
    ensures
        a + b + c + d + sz + e + g == Seq::<TokM>::empty() + a + (b + c + d + sz + e + g),
        a + b + c + d + sz + e + g == a + b + (c + d + sz + e + g),
        a + b + c + d + sz + e + g == (a + b) + c + (d + sz + e + g),
        a + b + c + d + sz + e + g == (a + b + c) + d + (sz + e + g),
        a + b + c + d + sz + e + g == (a + b + c + d) + sz + (e + g),
        a + b + c + d + sz + e + g == (a + b + c + d + sz) + (e + g),
{
    assert(a + b + c + d + sz + e + g =~= Seq::<TokM>::empty() + a + (b + c + d + sz + e + g));
    assert(a + b + c + d + sz + e + g =~= a + b + (c + d + sz + e + g));
    assert(a + b + c + d + sz + e + g =~= (a + b) + c + (d + sz + e + g));
    assert(a + b + c + d + sz + e + g =~= (a + b + c) + d + (sz + e + g));
    assert(a + b + c + d + sz + e + g =~= (a + b + c + d) + sz + (e + g));
    assert(a + b + c + d + sz + e + g =~= (a + b + c + d + sz) + (e + g));
}


/// One shorthand-loop step: a style component is taken.
proof fn lemma_step_style(
    toks: Seq<TokM>,
    pos: int,
    v: FontStyle,
    p: int,
    weight: Option<FontWeight>,
    caps: Option<FontVariantCapsCSS2>,
    stretch: Option<FontStretch>,
    count: int,
)
    requires
        !normal_at(toks, pos),
        FontStyle::spec_parse(toks, pos) == Some((v, p)),
        pos < p <= toks.len(),
    ensures
        Font::font_loop(toks, pos, None, weight, caps, stretch, count) == Font::font_loop(
            toks,
            p,
            Some(v),
            weight,
            caps,
            stretch,
            count + 1,
        ),
{
}

/// One shorthand-loop step: a weight component is taken.
proof fn lemma_step_weight(
    toks: Seq<TokM>,
    pos: int,
    style: Option<FontStyle>,
    v: FontWeight,
    p: int,
    caps: Option<FontVariantCapsCSS2>,
    stretch: Option<FontStretch>,
    count: int,
)
    requires
        !normal_at(toks, pos),
        style is Some || FontStyle::spec_parse(toks, pos) is None,
        FontWeight::spec_parse(toks, pos) == Some((v, p)),
        pos < p <= toks.len(),
    ensures
        Font::font_loop(toks, pos, style, None, caps, stretch, count) == Font::font_loop(
            toks,
            p,
            style,
            Some(v),
            caps,
            stretch,
            count + 1,
        ),
{
}

/// One shorthand-loop step: a CSS 2.1 caps component is taken.
proof fn lemma_step_caps(
    toks: Seq<TokM>,
    pos: int,
    style: Option<FontStyle>,
    weight: Option<FontWeight>,
    v: FontVariantCapsCSS2,
    p: int,
    stretch: Option<FontStretch>,
    count: int,
)
    requires
        !normal_at(toks, pos),
        style is Some || FontStyle::spec_parse(toks, pos) is None,
        weight is Some || FontWeight::spec_parse(toks, pos) is None,
        FontVariantCapsCSS2::spec_parse(toks, pos) == Some((v, p)),
        pos < p <= toks.len(),
    ensures
        Font::font_loop(toks, pos, style, weight, None, stretch, count) == Font::font_loop(
            toks,
            p,
            style,
            weight,
            Some(v),
            stretch,
            count + 1,
        ),
{
}

/// One shorthand-loop step: a stretch keyword is taken.
proof fn lemma_step_stretch(
    toks: Seq<TokM>,
    pos: int,
    style: Option<FontStyle>,
    weight: Option<FontWeight>,
    caps: Option<FontVariantCapsCSS2>,
    v: FontStretchKeyword,
    p: int,
    count: int,
)
    requires
        !normal_at(toks, pos),
        style is Some || FontStyle::spec_parse(toks, pos) is None,
        weight is Some || FontWeight::spec_parse(toks, pos) is None,
        caps is Some || FontVariantCapsCSS2::spec_parse(toks, pos) is None,
        FontStretchKeyword::spec_parse(toks, pos) == Some((v, p)),
        pos < p <= toks.len(),
    ensures
        Font::font_loop(toks, pos, style, weight, caps, None, count) == Font::font_loop(
            toks,
            p,
            style,
            weight,
            caps,
            Some(FontStretch::Keyword(v)),
            count + 1,
        ),
{
}

/// The last shorthand-loop step: the size ends the loop within the
/// ambiguity budget.
proof fn lemma_step_size(
    toks: Seq<TokM>,
    pos: int,
    style: Option<FontStyle>,
    weight: Option<FontWeight>,
    caps: Option<FontVariantCapsCSS2>,
    stretch: Option<FontStretch>,
    sz: FontSize,
    p: int,
    count: int,
)
    requires
        !normal_at(toks, pos),
        style is Some || FontStyle::spec_parse(toks, pos) is None,
        weight is Some || FontWeight::spec_parse(toks, pos) is None,
        caps is Some || FontVariantCapsCSS2::spec_parse(toks, pos) is None,
        stretch is Some || FontStretchKeyword::spec_parse(toks, pos) is None,
        FontSize::spec_parse(toks, pos) == Some((sz, p)),
        count <= 4,
    ensures
        Font::font_loop(toks, pos, style, weight, caps, stretch, count) == Font::after_size(
            toks,
            p,
            style,
            weight,
            caps,
            stretch,
            sz,
        ),
{
}

/// The font a serialized shorthand reads back as: the same value, with the
/// weight's numeric keyword equivalents where a non-default weight was
/// minified.
pub open spec fn font_reparsed(f: FontM, minify: bool) -> FontM {
    FontM {
        family: f.family,
        size: f.size,
        style: f.style,
        weight: if f.weight == FontWeight::spec_default() {
            f.weight
        } else {
            weight_reparsed(f.weight, minify)
        },
        stretch: f.stretch,
        line_height: f.line_height,
        variant_caps: f.variant_caps,
    }
}


/// The tokens of the shorthand after the size: the optional `/` line
/// height, then the family list.
pub open spec fn font_tail_toks(f: FontM, minify: bool) -> Seq<TokM> {
    (if f.line_height != LineHeight::spec_default() {
        seq![TokM::Delim('/')] + f.line_height.ser_toks()
    } else {
        seq![]
    }) + fam_list_toks_from(f.family, 0)
}

/// Walks the grammar's tail: the optional line height and the family list,
/// then assembles the font with the grammar's defaults in the empty slots.
#[verifier::rlimit(100)]
#[verifier::spinoff_prover]
proof fn lemma_font_tail(
    f: FontM,
    minify: bool,
    pre5: Seq<TokM>,
    st_slot: Option<FontStyle>,
    w_slot: Option<FontWeight>,
    cap_slot: Option<FontVariantCapsCSS2>,
    str_slot: Option<FontStretch>,
)
    requires
        f.family.len() > 0,
        forall|i: int| 0 <= i < f.family.len() ==> rt_ok_family(#[trigger] f.family[i]),
        st_slot == (if f.style != FontStyle::spec_default() {
            Some(f.style)
        } else {
            None::<FontStyle>
        }),
        cap_slot == (if f.variant_caps != FontVariantCapsCSS2::spec_default() {
            Some(f.variant_caps)
        } else {
            None::<FontVariantCapsCSS2>
        }),
        w_slot == (if f.weight != FontWeight::spec_default() {
            Some(weight_reparsed(f.weight, minify))
        } else {
            None::<FontWeight>
        }),
        str_slot == (if f.stretch != FontStretch::spec_default() {
            Some(f.stretch)
        } else {
            None::<FontStretch>
        }),
    ensures
        Font::after_size(
            pre5 + font_tail_toks(f, minify),
            pre5.len() as int,
            st_slot,
            w_slot,
            cap_slot,
            str_slot,
            f.size,
        ) == Ok::<(FontM, int), ErrorKind>(
            (font_reparsed(f, minify), (pre5 + font_tail_toks(f, minify)).len() as int),
        ),
{
    let ser = pre5 + font_tail_toks(f, minify);
    let p5 = pre5.len() as int;
    let has_lh = f.line_height != LineHeight::spec_default();
    let e: Seq<TokM> = if has_lh {
        seq![TokM::Delim('/')] + f.line_height.ser_toks()
    } else {
        seq![]
    };
    let g = fam_list_toks_from(f.family, 0);
    let p6 = p5 + e.len() as int;
    if has_lh {
        assert(ser[p5] == e[0]);
        let pre_lh = pre5 + seq![TokM::Delim('/')];
        assert(ser =~= pre_lh + f.line_height.ser_toks() + g);
        lemma_roundtrip_line_height(f.line_height, pre_lh, g);
        assert(LineHeight::spec_parse(ser, p5 + 1) == Some((f.line_height, p6)));
        assert(Font::after_size(ser, p5, st_slot, w_slot, cap_slot, str_slot, f.size)
            == Font::finish(
            ser,
            p6,
            st_slot,
            w_slot,
            cap_slot,
            str_slot,
            f.size,
            Some(f.line_height),
        ));
    } else {
        if p5 < ser.len() {
            assert(ser[p5] == g[0]);
            assert(!(g[0] is Delim)) by {
                lemma_first_family_token(f.family);
            }
        }
        assert(Font::after_size(ser, p5, st_slot, w_slot, cap_slot, str_slot, f.size)
            == Font::finish(ser, p5, st_slot, w_slot, cap_slot, str_slot, f.size, None));
    }
    let p_fam: int = if has_lh {
        p6
    } else {
        p5
    };
    let pre_fam = pre5 + e;
    lemma_fam_tail_eq(f.family, 0);
    assert(g == fam_tail(f.family, 0));
    assert(ser =~= pre_fam + fam_tail(f.family, 0));
    assert(pre_fam.len() as int == p_fam);
    lemma_family_list_roundtrip(pre_fam, f.family, 0);
    assert(f.family.skip(0) =~= f.family);
    assert(Font::family_list(ser, p_fam) == Ok::<(Seq<FamilyM>, int), ErrorKind>(
        (f.family, ser.len() as int),
    ));
    let lh_arg: Option<LineHeight> = if has_lh {
        Some(f.line_height)
    } else {
        None
    };
    assert(Font::finish(ser, p_fam, st_slot, w_slot, cap_slot, str_slot, f.size, lh_arg) == Ok::<
        (FontM, int),
        ErrorKind,
    >((font_reparsed(f, minify), ser.len() as int)));
}

/// Round trip for the `font` shorthand: serializing and re-parsing gives
/// the font back, exactly but for the weight's numeric keyword equivalents
/// when minifying. A percentage stretch cannot be written back into the
/// shorthand (its grammar only accepts stretch keywords), so a non-default
/// stretch must be a keyword and is only written verbose.
#[verifier::rlimit(100)]
#[verifier::spinoff_prover]
pub proof fn lemma_roundtrip_font(f: FontM, minify: bool)
    requires
        f.family.len() > 0,
        forall|i: int| 0 <= i < f.family.len() ==> rt_ok_family(#[trigger] f.family[i]),
        f.stretch != FontStretch::spec_default() ==> f.stretch is Keyword,
        minify ==> f.stretch == FontStretch::spec_default(),
    ensures
        Font::spec_parse(f.ser_toks(minify), 0) == Ok::<(FontM, int), ErrorKind>(
            (font_reparsed(f, minify), f.ser_toks(minify).len() as int),
        ),
        FontWeight::equivalent(font_reparsed(f, minify).weight, f.weight),
        font_reparsed(f, minify) == (FontM { weight: font_reparsed(f, minify).weight, ..f }),
{
    let ser = f.ser_toks(minify);
    let has_style = f.style != FontStyle::spec_default();
    let has_caps = f.variant_caps != FontVariantCapsCSS2::spec_default();
    let has_weight = f.weight != FontWeight::spec_default();
    let has_stretch = f.stretch != FontStretch::spec_default();
    let has_lh = f.line_height != LineHeight::spec_default();
    let a: Seq<TokM> = if has_style {
        f.style.ser_toks()
    } else {
        seq![]
    };
    let b: Seq<TokM> = if has_caps {
        f.variant_caps.ser_toks()
    } else {
        seq![]
    };
    let c: Seq<TokM> = if has_weight {
        f.weight.ser_toks(minify)
    } else {
        seq![]
    };
    let d: Seq<TokM> = if has_stretch {
        f.stretch.ser_toks(minify)
    } else {
        seq![]
    };
    let sz = f.size.ser_toks();
    let e: Seq<TokM> = if has_lh {
        seq![TokM::Delim('/')] + f.line_height.ser_toks()
    } else {
        seq![]
    };
    let g = fam_list_toks_from(f.family, 0);
    assert(ser == a + b + c + d + sz + e + g);
    let p1 = a.len() as int;
    let p2 = p1 + b.len() as int;
    let p3 = p2 + c.len() as int;
    let p4 = p3 + d.len() as int;
    let p5 = p4 + sz.len() as int;
    let p6 = p5 + e.len() as int;
    let st_slot: Option<FontStyle> = if has_style {
        Some(f.style)
    } else {
        None
    };
    let cap_slot: Option<FontVariantCapsCSS2> = if has_caps {
        Some(f.variant_caps)
    } else {
        None
    };
    let w_slot: Option<FontWeight> = if has_weight {
        Some(weight_reparsed(f.weight, minify))
    } else {
        None
    };
    let str_slot: Option<FontStretch> = if has_stretch {
        Some(f.stretch)
    } else {
        None
    };
    let n1: int = if has_style {
        1
    } else {
        0
    };
    let n2: int = n1 + (if has_caps {
        1int
    } else {
        0int
    });
    let n3: int = n2 + (if has_weight {
        1int
    } else {
        0int
    });
    let n4: int = n3 + (if has_stretch {
        1int
    } else {
        0int
    });
    lemma_font_splits(a, b, c, d, sz, e, g);
    // The token that follows the style component can never be read as an
    // oblique angle: no later component begins with a `deg` dimension.
    assert(lead_tok_no_deg(b + c + d + sz + e + g, f, minify, has_caps, has_weight, has_stretch))
        by {
        lemma_lead_no_deg(f, minify, b, c, d, sz, e, g, has_caps, has_weight, has_stretch);
    }
    if has_style {
        let rest1 = b + c + d + sz + e + g;
        assert(ser == Seq::<TokM>::empty() + a + rest1);
        lemma_roundtrip_font_style(f.style, Seq::empty(), rest1);
        assert(FontStyle::spec_parse(ser, 0) == Some((f.style, p1)));
        assert(ser[0] == a[0]);
        lemma_style_token_not_normal(f.style, ser, 0);
        lemma_step_style(ser, 0, f.style, p1, None, None, None, 0);
    }
    if has_caps {
        let pre = a;
        let rest = c + d + sz + e + g;
        assert(ser == pre + b + rest);
        lemma_roundtrip_caps2(f.variant_caps, pre, rest);
        assert(FontVariantCapsCSS2::spec_parse(ser, p1) == Some((f.variant_caps, p2)));
        assert(b[0] == TokM::Ident("small-caps"@));
        assert(ser[p1] == b[0]);
        lemma_caps_token_is_no_earlier_component(ser, p1);
        lemma_step_caps(ser, p1, st_slot, None, f.variant_caps, p2, None, n1);
    }
    if has_weight {
        let pre = a + b;
        let rest = d + sz + e + g;
        assert(ser == pre + c + rest);
        lemma_roundtrip_font_weight(f.weight, minify, pre, rest);
        assert(FontWeight::spec_parse(ser, p2) == Some((weight_reparsed(f.weight, minify), p3)));
        assert(ser[p2] == c[0]);
        lemma_weight_token_is_no_earlier_component(f.weight, minify, ser, p2);
        lemma_step_weight(ser, p2, st_slot, weight_reparsed(f.weight, minify), p3, cap_slot, None, n2);
    }
    if has_stretch {
        let k = f.stretch->Keyword_0;
        assert(d == seq![TokM::Ident(k.spelling())]);
        assert(ser[p3] == d[0]);
        lemma_stretch_kw_spelling(k);
        assert(FontStretchKeyword::spec_parse(ser, p3) == Some((k, p4)));
        lemma_stretch_token_is_no_earlier_component(k, ser, p3);
        lemma_step_stretch(ser, p3, st_slot, w_slot, cap_slot, k, p4, n3);
    }
    // The size.
    assert(ser[p4] == sz[0]);
    lemma_size_token_is_no_component(f.size, ser, p4);
    let pre4 = a + b + c + d;
    let rest5 = e + g;
    assert(ser == pre4 + sz + rest5);
    lemma_roundtrip_font_size(f.size, pre4, rest5);
    assert(FontSize::spec_parse(ser, p4) == Some((f.size, p5)));
    assert(n4 <= 4);
    lemma_step_size(ser, p4, st_slot, w_slot, cap_slot, str_slot, f.size, p5, n4);
    let pre5 = a + b + c + d + sz;
    assert(ser == pre5 + font_tail_toks(f, minify));
    assert(pre5.len() as int == p5);
    lemma_font_tail(f, minify, pre5, st_slot, w_slot, cap_slot, str_slot);
}

/// The token that follows the leading style component.
pub open spec fn lead_tok_no_deg(
    rest: Seq<TokM>,
    f: FontM,
    minify: bool,
    has_caps: bool,
    has_weight: bool,
    has_stretch: bool,
) -> bool {
    rest.len() == 0 || (match rest[0] {
        TokM::Dim(n, u) => !crate::text::seq_eq_ic(u, "deg"@),
        _ => true,
    })
}

/// No component that can follow the style begins with a `deg` dimension:
/// caps, weight and stretch begin with identifiers or plain numbers, and a
/// size dimension carries a length unit.
proof fn lemma_lead_no_deg(
    f: FontM,
    minify: bool,
    b: Seq<TokM>,
    c: Seq<TokM>,
    d: Seq<TokM>,
    sz: Seq<TokM>,
    e: Seq<TokM>,
    g: Seq<TokM>,
    has_caps: bool,
    has_weight: bool,
    has_stretch: bool,
)
    requires
        b == (if has_caps {
            f.variant_caps.ser_toks()
        } else {
            Seq::<TokM>::empty()
        }),
        c == (if has_weight {
            f.weight.ser_toks(minify)
        } else {
            Seq::<TokM>::empty()
        }),
        d == (if has_stretch {
            f.stretch.ser_toks(minify)
        } else {
            Seq::<TokM>::empty()
        }),
        has_stretch ==> f.stretch is Keyword,
        minify ==> !has_stretch,
        sz == f.size.ser_toks(),
    ensures
        lead_tok_no_deg(b + c + d + sz + e + g, f, minify, has_caps, has_weight, has_stretch),
{
    reveal_strlit("deg");
    reveal_strlit("px");
    reveal_strlit("em");
    reveal_strlit("rem");
    reveal_strlit("pt");
    reveal_strlit("vw");
    reveal_strlit("vh");
    let rest = b + c + d + sz + e + g;
    if has_caps {
        assert(rest[0] == b[0]);
    } else if has_weight {
        assert(rest[0] == c[0]);
    } else if has_stretch {
        assert(rest[0] == d[0]);
    } else {
        assert(rest[0] == sz[0]);
        match f.size {
            FontSize::Length(l) => {
                match l {
                    crate::values::LengthPercentage::Dimension(dim) => {
                        assert(!crate::text::seq_eq_ic(
                            crate::values::unit_spelling(dim.unit),
                            "deg"@,
                        )) by {
                            match dim.unit {
                                crate::values::LengthUnit::Rem => {
                                    lemma_not_eq_ic("rem"@, "deg"@, 0);
                                },
                                _ => {},
                            }
                        }
                    },
                    crate::values::LengthPercentage::Percentage(pct) => {
                    },
                }
            },
            FontSize::Absolute(v) => {
            },
            FontSize::Relative(v) => {
            },
        }
    }
}

/// The first token of a family list is an identifier or a quoted string.
proof fn lemma_first_family_token(fams: Seq<FamilyM>)
    requires
        fams.len() > 0,
    ensures
        fam_list_toks_from(fams, 0).len() > 0,
        !(fam_list_toks_from(fams, 0)[0] is Delim),
{
    let ft = fam_toks(fams[0]);
    match fams[0] {
        FamilyM::Generic(gg) => {
        },
        FamilyM::Name(nm) => {
            lemma_split_from_len(nm, 0);
            let ws = split_from(nm, 0);
            if ft == seq![TokM::QuotedStr(nm)] {
            } else {
                assert(ft == ws.map(|i: int, w: Seq<char>| TokM::Ident(w)));
                assert(ft[0] == TokM::Ident(ws[0]));
            }
        },
    }
    assert(fam_list_toks_from(fams, 0)[0] == ft[0]);
}

} // verus!




