//! CSS properties related to fonts: the typed values of the font longhands,
//! the `font` shorthand, and the handler that folds longhands into it.

use vstd::prelude::*;
use crate::text::{
    esc_join_from, push_char, seq_eq_ic, split_from, split_words, str_eq_ic, escape_words,
};
use crate::tokens::{
    lemma_toks_of_push, toks_of, Cursor, ErrorKind, ParserError, TokM, Token,
};
use crate::values::{wf_millis, Angle, LengthPercentage, Percentage};
use crate::properties::{
    clone_families, lemma_props_of_push, props_of, PropM, Property, PropertyId,
};
use crate::printer::{render_toks, Printer};

verus! {

/// A value for the `font-weight` property.
#[derive(Debug, Clone, Copy, PartialEq, Eq, Structural)]
pub enum FontWeight {
    /// An absolute font weight.
    Absolute(AbsoluteFontWeight),
    /// The `bolder` keyword.
    Bolder,
    /// The `lighter` keyword.
    Lighter,
}

/// An absolute font weight, as used in the `font-weight` property.
///
/// See [FontWeight](FontWeight).
#[derive(Debug, Clone, Copy, PartialEq, Eq, Structural)]
pub enum AbsoluteFontWeight {
    /// An explicit weight, in thousandths: `400` is `400000`.
    Weight(i64),
    /// Same as `400`.
    Normal,
    /// Same as `700`.
    Bold,
}

impl AbsoluteFontWeight {
    /// The canonical default: `normal`.
    pub open spec fn spec_default() -> AbsoluteFontWeight {
        AbsoluteFontWeight::Normal
    }

    /// Whether the value lies within the numeric bound.
    pub open spec fn wf(&self) -> bool {
        match self {
            AbsoluteFontWeight::Weight(n) => wf_millis(*n as int),
            _ => true,
        }
    }

    /// The numeric weight a value stands for, in thousandths: `normal` is
    /// `400` and `bold` is `700`.
    pub open spec fn weight_value(&self) -> int {
        match self {
            AbsoluteFontWeight::Weight(n) => *n as int,
            AbsoluteFontWeight::Normal => 400000,
            AbsoluteFontWeight::Bold => 700000,
        }
    }

    /// What parsing an absolute weight yields: a number, or one of the
    /// keywords `normal` and `bold`.
    pub open spec fn spec_parse(toks: Seq<TokM>, pos: int) -> Option<(AbsoluteFontWeight, int)> {
        if 0 <= pos < toks.len() {
            match toks[pos] {
                TokM::Number(n) => Some((AbsoluteFontWeight::Weight(n as i64), pos + 1)),
                TokM::Ident(s) => if seq_eq_ic(s, "normal"@) {
                    Some((AbsoluteFontWeight::Normal, pos + 1))
                } else if seq_eq_ic(s, "bold"@) {
                    Some((AbsoluteFontWeight::Bold, pos + 1))
                } else {
                    None
                },
                _ => None,
            }
        } else {
            None
        }
    }

    /// The token an absolute weight serializes to: when minifying, the
    /// shorter numeric equivalents `400` and `700` of the keywords.
    pub open spec fn ser_toks(&self, minify: bool) -> Seq<TokM> {
        match self {
            AbsoluteFontWeight::Weight(n) => seq![TokM::Number(*n as int)],
            AbsoluteFontWeight::Normal => if minify {
                seq![TokM::Number(400000)]
            } else {
                seq![TokM::Ident("normal"@)]
            },
            AbsoluteFontWeight::Bold => if minify {
                seq![TokM::Number(700000)]
            } else {
                seq![TokM::Ident("bold"@)]
            },
        }
    }

    /// Parses an absolute font weight.
    pub fn parse(cur: &mut Cursor) -> (r: Result<AbsoluteFontWeight, ParserError>)
        requires
            old(cur).wf(),
        ensures
            final(cur).wf(),
            final(cur).toks() == old(cur).toks(),
            match r {
                Ok(v) => Self::spec_parse(old(cur).toks(), old(cur).pos as int) == Some(
                    (v, final(cur).pos as int),
                ) && v.wf() && old(cur).pos < final(cur).pos,
                Err(e) => Self::spec_parse(old(cur).toks(), old(cur).pos as int) is None
                    && final(cur).pos == old(cur).pos && e.kind == ErrorKind::UnexpectedToken
                    && e.position == old(cur).pos,
            },
    {
        let start = cur.pos;
        match cur.expect_number() {
            Ok(n) => {
                return Ok(AbsoluteFontWeight::Weight(n));
            },
            Err(_) => {},
        }
        match cur.expect_ident() {
            Ok(id) => {
                if str_eq_ic(id.as_str(), "normal") {
                    Ok(AbsoluteFontWeight::Normal)
                } else if str_eq_ic(id.as_str(), "bold") {
                    Ok(AbsoluteFontWeight::Bold)
                } else {
                    cur.pos = start;
                    Err(cur.unexpected())
                }
            },
            Err(e) => Err(e),
        }
    }

    /// Appends the tokens an absolute weight serializes to.
    pub fn to_tokens(&self, minify: bool, out: &mut Vec<Token>)
        ensures
            toks_of(final(out)@) == toks_of(old(out)@) + self.ser_toks(minify),
    {
        match self {
            AbsoluteFontWeight::Weight(n) => {
                out.push(Token::Number(*n));
            },
            AbsoluteFontWeight::Normal => {
                if minify {
                    out.push(Token::Number(400000));
                } else {
                    out.push(Token::Ident(String::from_str("normal")));
                }
            },
            AbsoluteFontWeight::Bold => {
                if minify {
                    out.push(Token::Number(700000));
                } else {
                    out.push(Token::Ident(String::from_str("bold")));
                }
            },
        }
        proof {
            lemma_toks_of_push(old(out)@, out@.last());
            assert(toks_of(out@) =~= toks_of(old(out)@) + self.ser_toks(minify));
        }
    }
}

impl Default for AbsoluteFontWeight {
    /// The canonical default: `normal`.
    fn default() -> (r: AbsoluteFontWeight)
        ensures
            r == AbsoluteFontWeight::spec_default(),
    {
        AbsoluteFontWeight::Normal
    }
}

impl FontWeight {
    /// The canonical default: the absolute weight `normal`.
    pub open spec fn spec_default() -> FontWeight {
        FontWeight::Absolute(AbsoluteFontWeight::Normal)
    }

    /// Whether the value lies within the numeric bound.
    pub open spec fn wf(&self) -> bool {
        match self {
            FontWeight::Absolute(a) => a.wf(),
            _ => true,
        }
    }

    /// Whether the value is the canonical default.
    pub fn is_default(&self) -> (r: bool)
        ensures
            r == (*self == FontWeight::spec_default()),
    {
        matches!(self, FontWeight::Absolute(AbsoluteFontWeight::Normal))
    }

    /// Two weights mean the same: equal, or absolute weights of the same
    /// numeric value (so `normal` and `400` are interchangeable).
    pub open spec fn equivalent(a: FontWeight, b: FontWeight) -> bool {
        match (a, b) {
            (FontWeight::Absolute(x), FontWeight::Absolute(y)) => x.weight_value()
                == y.weight_value(),
            _ => a == b,
        }
    }

    /// What parsing a font weight yields: an absolute weight, or one of the
    /// keywords `bolder` and `lighter`.
    pub open spec fn spec_parse(toks: Seq<TokM>, pos: int) -> Option<(FontWeight, int)> {
        match AbsoluteFontWeight::spec_parse(toks, pos) {
            Some((v, p)) => Some((FontWeight::Absolute(v), p)),
            None => if 0 <= pos < toks.len() {
                match toks[pos] {
                    TokM::Ident(s) => if seq_eq_ic(s, "bolder"@) {
                        Some((FontWeight::Bolder, pos + 1))
                    } else if seq_eq_ic(s, "lighter"@) {
                        Some((FontWeight::Lighter, pos + 1))
                    } else {
                        None
                    },
                    _ => None,
                }
            } else {
                None
            },
        }
    }

    /// The token a font weight serializes to.
    pub open spec fn ser_toks(&self, minify: bool) -> Seq<TokM> {
        match self {
            FontWeight::Absolute(a) => a.ser_toks(minify),
            FontWeight::Bolder => seq![TokM::Ident("bolder"@)],
            FontWeight::Lighter => seq![TokM::Ident("lighter"@)],
        }
    }

    /// Parses a font weight.
    pub fn parse(cur: &mut Cursor) -> (r: Result<FontWeight, ParserError>)
        requires
            old(cur).wf(),
        ensures
            final(cur).wf(),
            final(cur).toks() == old(cur).toks(),
            match r {
                Ok(v) => Self::spec_parse(old(cur).toks(), old(cur).pos as int) == Some(
                    (v, final(cur).pos as int),
                ) && v.wf() && old(cur).pos < final(cur).pos,
                Err(e) => Self::spec_parse(old(cur).toks(), old(cur).pos as int) is None
                    && final(cur).pos == old(cur).pos && e.kind == ErrorKind::UnexpectedToken
                    && e.position == old(cur).pos,
            },
    {
        let start = cur.pos;
        match AbsoluteFontWeight::parse(cur) {
            Ok(v) => {
                return Ok(FontWeight::Absolute(v));
            },
            Err(_) => {},
        }
        match cur.expect_ident() {
            Ok(id) => {
                if str_eq_ic(id.as_str(), "bolder") {
                    Ok(FontWeight::Bolder)
                } else if str_eq_ic(id.as_str(), "lighter") {
                    Ok(FontWeight::Lighter)
                } else {
                    cur.pos = start;
                    Err(cur.unexpected())
                }
            },
            Err(e) => Err(e),
        }
    }

    /// Appends the tokens a font weight serializes to.
    pub fn to_tokens(&self, minify: bool, out: &mut Vec<Token>)
        ensures
            toks_of(final(out)@) == toks_of(old(out)@) + self.ser_toks(minify),
    {
        match self {
            FontWeight::Absolute(a) => {
                a.to_tokens(minify, out);
            },
            FontWeight::Bolder => {
                out.push(Token::Ident(String::from_str("bolder")));
                proof {
                    lemma_toks_of_push(old(out)@, out@.last());
                    assert(toks_of(out@) =~= toks_of(old(out)@) + self.ser_toks(minify));
                }
            },
            FontWeight::Lighter => {
                out.push(Token::Ident(String::from_str("lighter")));
                proof {
                    lemma_toks_of_push(old(out)@, out@.last());
                    assert(toks_of(out@) =~= toks_of(old(out)@) + self.ser_toks(minify));
                }
            },
        }
    }
}

impl Default for FontWeight {
    /// The canonical default: the absolute weight `normal`.
    fn default() -> (r: FontWeight)
        ensures
            r == FontWeight::spec_default(),
    {
        FontWeight::Absolute(AbsoluteFontWeight::Normal)
    }
}


/// An absolute font size keyword, as used in the `font-size` property.
///
/// See [FontSize](FontSize).
#[derive(Debug, Clone, Copy, PartialEq, Eq, Structural)]
pub enum AbsoluteFontSize {
    /// The `xx-small` keyword.
    XXSmall,
    /// The `x-small` keyword.
    XSmall,
    /// The `small` keyword.
    Small,
    /// The `medium` keyword.
    Medium,
    /// The `large` keyword.
    Large,
    /// The `x-large` keyword.
    XLarge,
    /// The `xx-large` keyword.
    XXLarge,
}

impl AbsoluteFontSize {
    /// The spelling of the keyword.
    pub open spec fn spelling(&self) -> Seq<char> {
        match self {
            AbsoluteFontSize::XXSmall => "xx-small"@,
            AbsoluteFontSize::XSmall => "x-small"@,
            AbsoluteFontSize::Small => "small"@,
            AbsoluteFontSize::Medium => "medium"@,
            AbsoluteFontSize::Large => "large"@,
            AbsoluteFontSize::XLarge => "x-large"@,
            AbsoluteFontSize::XXLarge => "xx-large"@,
        }
    }

    /// The keyword the text names, ASCII-case-insensitively.
    pub open spec fn from_seq(s: Seq<char>) -> Option<AbsoluteFontSize> {
        if seq_eq_ic(s, "xx-small"@) {
            Some(AbsoluteFontSize::XXSmall)
        } else if seq_eq_ic(s, "x-small"@) {
            Some(AbsoluteFontSize::XSmall)
        } else if seq_eq_ic(s, "small"@) {
            Some(AbsoluteFontSize::Small)
        } else if seq_eq_ic(s, "medium"@) {
            Some(AbsoluteFontSize::Medium)
        } else if seq_eq_ic(s, "large"@) {
            Some(AbsoluteFontSize::Large)
        } else if seq_eq_ic(s, "x-large"@) {
            Some(AbsoluteFontSize::XLarge)
        } else if seq_eq_ic(s, "xx-large"@) {
            Some(AbsoluteFontSize::XXLarge)
        } else {
            None
        }
    }

    /// What parsing an absolute size keyword yields.
    pub open spec fn spec_parse(toks: Seq<TokM>, pos: int) -> Option<(AbsoluteFontSize, int)> {
        if 0 <= pos < toks.len() {
            match toks[pos] {
                TokM::Ident(s) => match Self::from_seq(s) {
                    Some(v) => Some((v, pos + 1)),
                    None => None,
                },
                _ => None,
            }
        } else {
            None
        }
    }

    /// Parses an absolute size keyword.
    pub fn parse(cur: &mut Cursor) -> (r: Result<AbsoluteFontSize, ParserError>)
        requires
            old(cur).wf(),
        ensures
            final(cur).wf(),
            final(cur).toks() == old(cur).toks(),
            match r {
                Ok(v) => Self::spec_parse(old(cur).toks(), old(cur).pos as int) == Some(
                    (v, final(cur).pos as int),
                ) && old(cur).pos < final(cur).pos,
                Err(e) => Self::spec_parse(old(cur).toks(), old(cur).pos as int) is None
                    && final(cur).pos == old(cur).pos && e.kind == ErrorKind::UnexpectedToken
                    && e.position == old(cur).pos,
            },
    {
        let start = cur.pos;
        match cur.expect_ident() {
            Ok(id) => {
                if str_eq_ic(id.as_str(), "xx-small") {
                    Ok(AbsoluteFontSize::XXSmall)
                } else if str_eq_ic(id.as_str(), "x-small") {
                    Ok(AbsoluteFontSize::XSmall)
                } else if str_eq_ic(id.as_str(), "small") {
                    Ok(AbsoluteFontSize::Small)
                } else if str_eq_ic(id.as_str(), "medium") {
                    Ok(AbsoluteFontSize::Medium)
                } else if str_eq_ic(id.as_str(), "large") {
                    Ok(AbsoluteFontSize::Large)
                } else if str_eq_ic(id.as_str(), "x-large") {
                    Ok(AbsoluteFontSize::XLarge)
                } else if str_eq_ic(id.as_str(), "xx-large") {
                    Ok(AbsoluteFontSize::XXLarge)
                } else {
                    cur.pos = start;
                    Err(cur.unexpected())
                }
            },
            Err(e) => Err(e),
        }
    }

    /// The spelling of the keyword.
    pub fn spelling_str(&self) -> (r: &'static str)
        ensures
            r@ == self.spelling(),
    {
        match self {
            AbsoluteFontSize::XXSmall => "xx-small",
            AbsoluteFontSize::XSmall => "x-small",
            AbsoluteFontSize::Small => "small",
            AbsoluteFontSize::Medium => "medium",
            AbsoluteFontSize::Large => "large",
            AbsoluteFontSize::XLarge => "x-large",
            AbsoluteFontSize::XXLarge => "xx-large",
        }
    }
}

/// A relative font size keyword, as used in the `font-size` property.
///
/// See [FontSize](FontSize).
#[derive(Debug, Clone, Copy, PartialEq, Eq, Structural)]
pub enum RelativeFontSize {
    /// The `smaller` keyword.
    Smaller,
    /// The `larger` keyword.
    Larger,
}

impl RelativeFontSize {
    /// The spelling of the keyword.
    pub open spec fn spelling(&self) -> Seq<char> {
        match self {
            RelativeFontSize::Smaller => "smaller"@,
            RelativeFontSize::Larger => "larger"@,
        }
    }

    /// The keyword the text names, ASCII-case-insensitively.
    pub open spec fn from_seq(s: Seq<char>) -> Option<RelativeFontSize> {
        if seq_eq_ic(s, "smaller"@) {
            Some(RelativeFontSize::Smaller)
        } else if seq_eq_ic(s, "larger"@) {
            Some(RelativeFontSize::Larger)
        } else {
            None
        }
    }

    /// What parsing a relative size keyword yields.
    pub open spec fn spec_parse(toks: Seq<TokM>, pos: int) -> Option<(RelativeFontSize, int)> {
        if 0 <= pos < toks.len() {
            match toks[pos] {
                TokM::Ident(s) => match Self::from_seq(s) {
                    Some(v) => Some((v, pos + 1)),
                    None => None,
                },
                _ => None,
            }
        } else {
            None
        }
    }

    /// Parses a relative size keyword.
    pub fn parse(cur: &mut Cursor) -> (r: Result<RelativeFontSize, ParserError>)
        requires
            old(cur).wf(),
        ensures
            final(cur).wf(),
            final(cur).toks() == old(cur).toks(),
            match r {
                Ok(v) => Self::spec_parse(old(cur).toks(), old(cur).pos as int) == Some(
                    (v, final(cur).pos as int),
                ) && old(cur).pos < final(cur).pos,
                Err(e) => Self::spec_parse(old(cur).toks(), old(cur).pos as int) is None
                    && final(cur).pos == old(cur).pos && e.kind == ErrorKind::UnexpectedToken
                    && e.position == old(cur).pos,
            },
    {
        let start = cur.pos;
        match cur.expect_ident() {
            Ok(id) => {
                if str_eq_ic(id.as_str(), "smaller") {
                    Ok(RelativeFontSize::Smaller)
                } else if str_eq_ic(id.as_str(), "larger") {
                    Ok(RelativeFontSize::Larger)
                } else {
                    cur.pos = start;
                    Err(cur.unexpected())
                }
            },
            Err(e) => Err(e),
        }
    }

    /// The spelling of the keyword.
    pub fn spelling_str(&self) -> (r: &'static str)
        ensures
            r@ == self.spelling(),
    {
        match self {
            RelativeFontSize::Smaller => "smaller",
            RelativeFontSize::Larger => "larger",
        }
    }
}

/// A value for the `font-size` property.
#[derive(Debug, Clone, Copy, PartialEq, Eq, Structural)]
pub enum FontSize {
    /// An explicit size.
    Length(LengthPercentage),
    /// An absolute font size keyword.
    Absolute(AbsoluteFontSize),
    /// A relative font size keyword.
    Relative(RelativeFontSize),
}

impl FontSize {
    /// Whether the value lies within the numeric bound.
    pub open spec fn wf(&self) -> bool {
        match self {
            FontSize::Length(l) => l.wf(),
            _ => true,
        }
    }

    /// What parsing a font size yields: an explicit length or percentage, or
    /// an absolute or relative size keyword, in that order.
    pub open spec fn spec_parse(toks: Seq<TokM>, pos: int) -> Option<(FontSize, int)> {
        match LengthPercentage::spec_parse(toks, pos) {
            Some((v, p)) => Some((FontSize::Length(v), p)),
            None => match AbsoluteFontSize::spec_parse(toks, pos) {
                Some((v, p)) => Some((FontSize::Absolute(v), p)),
                None => match RelativeFontSize::spec_parse(toks, pos) {
                    Some((v, p)) => Some((FontSize::Relative(v), p)),
                    None => None,
                },
            },
        }
    }

    /// The token a font size serializes to.
    pub open spec fn ser_toks(&self) -> Seq<TokM> {
        match self {
            FontSize::Length(l) => l.ser_toks(),
            FontSize::Absolute(v) => seq![TokM::Ident(v.spelling())],
            FontSize::Relative(v) => seq![TokM::Ident(v.spelling())],
        }
    }

    /// Parses a font size.
    pub fn parse(cur: &mut Cursor) -> (r: Result<FontSize, ParserError>)
        requires
            old(cur).wf(),
        ensures
            final(cur).wf(),
            final(cur).toks() == old(cur).toks(),
            match r {
                Ok(v) => Self::spec_parse(old(cur).toks(), old(cur).pos as int) == Some(
                    (v, final(cur).pos as int),
                ) && v.wf() && old(cur).pos < final(cur).pos,
                Err(e) => Self::spec_parse(old(cur).toks(), old(cur).pos as int) is None
                    && final(cur).pos == old(cur).pos && e.kind == ErrorKind::UnexpectedToken
                    && e.position == old(cur).pos,
            },
    {
        match LengthPercentage::parse(cur) {
            Ok(v) => {
                return Ok(FontSize::Length(v));
            },
            Err(_) => {},
        }
        match AbsoluteFontSize::parse(cur) {
            Ok(v) => {
                return Ok(FontSize::Absolute(v));
            },
            Err(_) => {},
        }
        match RelativeFontSize::parse(cur) {
            Ok(v) => Ok(FontSize::Relative(v)),
            Err(e) => Err(e),
        }
    }

    /// Appends the tokens a font size serializes to.
    pub fn to_tokens(&self, out: &mut Vec<Token>)
        ensures
            toks_of(final(out)@) == toks_of(old(out)@) + self.ser_toks(),
    {
        match self {
            FontSize::Length(l) => {
                match l {
                    LengthPercentage::Dimension(d) => {
                        out.push(Token::Dim(d.millis, String::from_str(crate::values::unit_str(d.unit))));
                    },
                    LengthPercentage::Percentage(p) => {
                        out.push(Token::Percent(p.millis));
                    },
                }
            },
            FontSize::Absolute(v) => {
                out.push(Token::Ident(String::from_str(v.spelling_str())));
            },
            FontSize::Relative(v) => {
                out.push(Token::Ident(String::from_str(v.spelling_str())));
            },
        }
        proof {
            lemma_toks_of_push(old(out)@, out@.last());
            assert(toks_of(out@) =~= toks_of(old(out)@) + self.ser_toks());
        }
    }
}

/// A font stretch keyword, as used in the `font-stretch` property.
///
/// See [FontStretch](FontStretch).
#[derive(Debug, Clone, Copy, PartialEq, Eq, Structural)]
pub enum FontStretchKeyword {
    /// 100%
    Normal,
    /// 50%
    UltraCondensed,
    /// 62.5%
    ExtraCondensed,
    /// 75%
    Condensed,
    /// 87.5%
    SemiCondensed,
    /// 112.5%
    SemiExpanded,
    /// 125%
    Expanded,
    /// 150%
    ExtraExpanded,
    /// 200%
    UltraExpanded,
}

impl FontStretchKeyword {
    /// The canonical default: `normal`.
    pub open spec fn spec_default() -> FontStretchKeyword {
        FontStretchKeyword::Normal
    }

    /// The spelling of the keyword.
    pub open spec fn spelling(&self) -> Seq<char> {
        match self {
            FontStretchKeyword::Normal => "normal"@,
            FontStretchKeyword::UltraCondensed => "ultra-condensed"@,
            FontStretchKeyword::ExtraCondensed => "extra-condensed"@,
            FontStretchKeyword::Condensed => "condensed"@,
            FontStretchKeyword::SemiCondensed => "semi-condensed"@,
            FontStretchKeyword::SemiExpanded => "semi-expanded"@,
            FontStretchKeyword::Expanded => "expanded"@,
            FontStretchKeyword::ExtraExpanded => "extra-expanded"@,
            FontStretchKeyword::UltraExpanded => "ultra-expanded"@,
        }
    }

    /// The keyword the text names, ASCII-case-insensitively.
    pub open spec fn from_seq(s: Seq<char>) -> Option<FontStretchKeyword> {
        if seq_eq_ic(s, "normal"@) {
            Some(FontStretchKeyword::Normal)
        } else if seq_eq_ic(s, "ultra-condensed"@) {
            Some(FontStretchKeyword::UltraCondensed)
        } else if seq_eq_ic(s, "extra-condensed"@) {
            Some(FontStretchKeyword::ExtraCondensed)
        } else if seq_eq_ic(s, "condensed"@) {
            Some(FontStretchKeyword::Condensed)
        } else if seq_eq_ic(s, "semi-condensed"@) {
            Some(FontStretchKeyword::SemiCondensed)
        } else if seq_eq_ic(s, "semi-expanded"@) {
            Some(FontStretchKeyword::SemiExpanded)
        } else if seq_eq_ic(s, "expanded"@) {
            Some(FontStretchKeyword::Expanded)
        } else if seq_eq_ic(s, "extra-expanded"@) {
            Some(FontStretchKeyword::ExtraExpanded)
        } else if seq_eq_ic(s, "ultra-expanded"@) {
            Some(FontStretchKeyword::UltraExpanded)
        } else {
            None
        }
    }

    /// What parsing a stretch keyword yields.
    pub open spec fn spec_parse(toks: Seq<TokM>, pos: int) -> Option<(FontStretchKeyword, int)> {
        if 0 <= pos < toks.len() {
            match toks[pos] {
                TokM::Ident(s) => match Self::from_seq(s) {
                    Some(v) => Some((v, pos + 1)),
                    None => None,
                },
                _ => None,
            }
        } else {
            None
        }
    }

    /// The percentage the keyword stands for, in thousandths of a percent.
    pub open spec fn spec_percentage(&self) -> int {
        match self {
            FontStretchKeyword::UltraCondensed => 50000,
            FontStretchKeyword::ExtraCondensed => 62500,
            FontStretchKeyword::Condensed => 75000,
            FontStretchKeyword::SemiCondensed => 87500,
            FontStretchKeyword::Normal => 100000,
            FontStretchKeyword::SemiExpanded => 112500,
            FontStretchKeyword::Expanded => 125000,
            FontStretchKeyword::ExtraExpanded => 150000,
            FontStretchKeyword::UltraExpanded => 200000,
        }
    }

    /// The percentage the keyword stands for.
    fn to_percentage(&self) -> (r: Percentage)
        ensures
            r.millis as int == self.spec_percentage(),
            r.wf(),
    {
        let val: i64 = match self {
            FontStretchKeyword::UltraCondensed => 50000,
            FontStretchKeyword::ExtraCondensed => 62500,
            FontStretchKeyword::Condensed => 75000,
            FontStretchKeyword::SemiCondensed => 87500,
            FontStretchKeyword::Normal => 100000,
            FontStretchKeyword::SemiExpanded => 112500,
            FontStretchKeyword::Expanded => 125000,
            FontStretchKeyword::ExtraExpanded => 150000,
            FontStretchKeyword::UltraExpanded => 200000,
        };
        Percentage { millis: val }
    }

    /// Parses a stretch keyword.
    pub fn parse(cur: &mut Cursor) -> (r: Result<FontStretchKeyword, ParserError>)
        requires
            old(cur).wf(),
        ensures
            final(cur).wf(),
            final(cur).toks() == old(cur).toks(),
            match r {
                Ok(v) => Self::spec_parse(old(cur).toks(), old(cur).pos as int) == Some(
                    (v, final(cur).pos as int),
                ) && old(cur).pos < final(cur).pos,
                Err(e) => Self::spec_parse(old(cur).toks(), old(cur).pos as int) is None
                    && final(cur).pos == old(cur).pos && e.kind == ErrorKind::UnexpectedToken
                    && e.position == old(cur).pos,
            },
    {
        let start = cur.pos;
        match cur.expect_ident() {
            Ok(id) => {
                if str_eq_ic(id.as_str(), "normal") {
                    Ok(FontStretchKeyword::Normal)
                } else if str_eq_ic(id.as_str(), "ultra-condensed") {
                    Ok(FontStretchKeyword::UltraCondensed)
                } else if str_eq_ic(id.as_str(), "extra-condensed") {
                    Ok(FontStretchKeyword::ExtraCondensed)
                } else if str_eq_ic(id.as_str(), "condensed") {
                    Ok(FontStretchKeyword::Condensed)
                } else if str_eq_ic(id.as_str(), "semi-condensed") {
                    Ok(FontStretchKeyword::SemiCondensed)
                } else if str_eq_ic(id.as_str(), "semi-expanded") {
                    Ok(FontStretchKeyword::SemiExpanded)
                } else if str_eq_ic(id.as_str(), "expanded") {
                    Ok(FontStretchKeyword::Expanded)
                } else if str_eq_ic(id.as_str(), "extra-expanded") {
                    Ok(FontStretchKeyword::ExtraExpanded)
                } else if str_eq_ic(id.as_str(), "ultra-expanded") {
                    Ok(FontStretchKeyword::UltraExpanded)
                } else {
                    cur.pos = start;
                    Err(cur.unexpected())
                }
            },
            Err(e) => Err(e),
        }
    }

    /// The spelling of the keyword.
    pub fn spelling_str(&self) -> (r: &'static str)
        ensures
            r@ == self.spelling(),
    {
        match self {
            FontStretchKeyword::Normal => "normal",
            FontStretchKeyword::UltraCondensed => "ultra-condensed",
            FontStretchKeyword::ExtraCondensed => "extra-condensed",
            FontStretchKeyword::Condensed => "condensed",
            FontStretchKeyword::SemiCondensed => "semi-condensed",
            FontStretchKeyword::SemiExpanded => "semi-expanded",
            FontStretchKeyword::Expanded => "expanded",
            FontStretchKeyword::ExtraExpanded => "extra-expanded",
            FontStretchKeyword::UltraExpanded => "ultra-expanded",
        }
    }
}

impl Default for FontStretchKeyword {
    /// The canonical default: `normal`.
    fn default() -> (r: FontStretchKeyword)
        ensures
            r == FontStretchKeyword::spec_default(),
    {
        FontStretchKeyword::Normal
    }
}

/// A value for the `font-stretch` property.
#[derive(Debug, Clone, Copy, PartialEq, Eq, Structural)]
pub enum FontStretch {
    /// A font stretch keyword.
    Keyword(FontStretchKeyword),
    /// A percentage.
    Percentage(Percentage),
}

impl FontStretch {
    /// The canonical default: the keyword `normal`.
    pub open spec fn spec_default() -> FontStretch {
        FontStretch::Keyword(FontStretchKeyword::Normal)
    }

    /// Whether the value lies within the numeric bound.
    pub open spec fn wf(&self) -> bool {
        match self {
            FontStretch::Percentage(p) => p.wf(),
            _ => true,
        }
    }

    /// Whether the value is the canonical default.
    pub fn is_default(&self) -> (r: bool)
        ensures
            r == (*self == FontStretch::spec_default()),
    {
        matches!(self, FontStretch::Keyword(FontStretchKeyword::Normal))
    }

    /// The percentage a stretch stands for, in thousandths of a percent.
    pub open spec fn spec_percentage(&self) -> int {
        match self {
            FontStretch::Percentage(p) => p.millis as int,
            FontStretch::Keyword(k) => k.spec_percentage(),
        }
    }

    /// Two stretches mean the same: they stand for the same percentage.
    pub open spec fn equivalent(a: FontStretch, b: FontStretch) -> bool {
        a.spec_percentage() == b.spec_percentage()
    }

    /// What parsing a font stretch yields: a percentage, or a stretch
    /// keyword.
    pub open spec fn spec_parse(toks: Seq<TokM>, pos: int) -> Option<(FontStretch, int)> {
        match Percentage::spec_parse(toks, pos) {
            Some((v, p)) => Some((FontStretch::Percentage(v), p)),
            None => match FontStretchKeyword::spec_parse(toks, pos) {
                Some((v, p)) => Some((FontStretch::Keyword(v), p)),
                None => None,
            },
        }
    }

    /// The token a font stretch serializes to: when minifying, the keyword
    /// collapsed to its percentage, which is never longer.
    pub open spec fn ser_toks(&self, minify: bool) -> Seq<TokM> {
        if minify {
            seq![TokM::Percent(self.spec_percentage())]
        } else {
            match self {
                FontStretch::Percentage(p) => p.ser_toks(),
                FontStretch::Keyword(k) => seq![TokM::Ident(k.spelling())],
            }
        }
    }

    /// The percentage this stretch stands for.
    pub fn to_percentage(&self) -> (r: Percentage)
        ensures
            r.millis as int == self.spec_percentage(),
    {
        match self {
            FontStretch::Percentage(val) => *val,
            FontStretch::Keyword(keyword) => keyword.to_percentage(),
        }
    }

    /// Parses a font stretch.
    pub fn parse(cur: &mut Cursor) -> (r: Result<FontStretch, ParserError>)
        requires
            old(cur).wf(),
        ensures
            final(cur).wf(),
            final(cur).toks() == old(cur).toks(),
            match r {
                Ok(v) => Self::spec_parse(old(cur).toks(), old(cur).pos as int) == Some(
                    (v, final(cur).pos as int),
                ) && v.wf() && old(cur).pos < final(cur).pos,
                Err(e) => Self::spec_parse(old(cur).toks(), old(cur).pos as int) is None
                    && final(cur).pos == old(cur).pos && e.kind == ErrorKind::UnexpectedToken
                    && e.position == old(cur).pos,
            },
    {
        match Percentage::parse(cur) {
            Ok(v) => {
                return Ok(FontStretch::Percentage(v));
            },
            Err(_) => {},
        }
        match FontStretchKeyword::parse(cur) {
            Ok(v) => Ok(FontStretch::Keyword(v)),
            Err(e) => Err(e),
        }
    }

    /// Appends the tokens a font stretch serializes to.
    pub fn to_tokens(&self, minify: bool, out: &mut Vec<Token>)
        ensures
            toks_of(final(out)@) == toks_of(old(out)@) + self.ser_toks(minify),
    {
        if minify {
            let p = self.to_percentage();
            out.push(Token::Percent(p.millis));
        } else {
            match self {
                FontStretch::Percentage(p) => {
                    out.push(Token::Percent(p.millis));
                },
                FontStretch::Keyword(k) => {
                    out.push(Token::Ident(String::from_str(k.spelling_str())));
                },
            }
        }
        proof {
            lemma_toks_of_push(old(out)@, out@.last());
            assert(toks_of(out@) =~= toks_of(old(out)@) + self.ser_toks(minify));
        }
    }
}

impl Default for FontStretch {
    /// The canonical default: the keyword `normal`.
    fn default() -> (r: FontStretch)
        ensures
            r == FontStretch::spec_default(),
    {
        FontStretch::Keyword(FontStretchKeyword::Normal)
    }
}


/// A generic font family name, as used in the `font-family` property.
///
/// CSS-wide keywords and `default` are included so that they are parsed as
/// identifiers and never serialized as quoted strings.
///
/// See [FontFamily](FontFamily).
#[derive(Debug, Clone, Copy, PartialEq, Eq, Structural)]
pub enum GenericFontFamily {
    /// The `serif` family.
    Serif,
    /// The `sans-serif` family.
    SansSerif,
    /// The `cursive` family.
    Cursive,
    /// The `fantasy` family.
    Fantasy,
    /// The `monospace` family.
    Monospace,
    /// The `system-ui` family.
    SystemUI,
    /// The `emoji` family.
    Emoji,
    /// The `math` family.
    Math,
    /// The `fangsong` family.
    FangSong,
    /// The `ui-serif` family.
    UISerif,
    /// The `ui-sans-serif` family.
    UISansSerif,
    /// The `ui-monospace` family.
    UIMonospace,
    /// The `ui-rounded` family.
    UIRounded,
    /// The CSS-wide keyword `initial`.
    Initial,
    /// The CSS-wide keyword `inherit`.
    Inherit,
    /// The CSS-wide keyword `unset`.
    Unset,
    /// The reserved keyword `default`.
    ReservedDefault,
    /// The defaulting keyword `revert`.
    Revert,
    /// The defaulting keyword `revert-layer`.
    RevertLayer,
}

impl GenericFontFamily {
    /// The spelling of the keyword.
    pub open spec fn spelling(&self) -> Seq<char> {
        match self {
            GenericFontFamily::Serif => "serif"@,
            GenericFontFamily::SansSerif => "sans-serif"@,
            GenericFontFamily::Cursive => "cursive"@,
            GenericFontFamily::Fantasy => "fantasy"@,
            GenericFontFamily::Monospace => "monospace"@,
            GenericFontFamily::SystemUI => "system-ui"@,
            GenericFontFamily::Emoji => "emoji"@,
            GenericFontFamily::Math => "math"@,
            GenericFontFamily::FangSong => "fangsong"@,
            GenericFontFamily::UISerif => "ui-serif"@,
            GenericFontFamily::UISansSerif => "ui-sans-serif"@,
            GenericFontFamily::UIMonospace => "ui-monospace"@,
            GenericFontFamily::UIRounded => "ui-rounded"@,
            GenericFontFamily::Initial => "initial"@,
            GenericFontFamily::Inherit => "inherit"@,
            GenericFontFamily::Unset => "unset"@,
            GenericFontFamily::ReservedDefault => "default"@,
            GenericFontFamily::Revert => "revert"@,
            GenericFontFamily::RevertLayer => "revert-layer"@,
        }
    }

    /// The keyword the text names, ASCII-case-insensitively.
    pub open spec fn from_seq(s: Seq<char>) -> Option<GenericFontFamily> {
        if seq_eq_ic(s, "serif"@) {
            Some(GenericFontFamily::Serif)
        } else if seq_eq_ic(s, "sans-serif"@) {
            Some(GenericFontFamily::SansSerif)
        } else if seq_eq_ic(s, "cursive"@) {
            Some(GenericFontFamily::Cursive)
        } else if seq_eq_ic(s, "fantasy"@) {
            Some(GenericFontFamily::Fantasy)
        } else if seq_eq_ic(s, "monospace"@) {
            Some(GenericFontFamily::Monospace)
        } else if seq_eq_ic(s, "system-ui"@) {
            Some(GenericFontFamily::SystemUI)
        } else if seq_eq_ic(s, "emoji"@) {
            Some(GenericFontFamily::Emoji)
        } else if seq_eq_ic(s, "math"@) {
            Some(GenericFontFamily::Math)
        } else if seq_eq_ic(s, "fangsong"@) {
            Some(GenericFontFamily::FangSong)
        } else if seq_eq_ic(s, "ui-serif"@) {
            Some(GenericFontFamily::UISerif)
        } else if seq_eq_ic(s, "ui-sans-serif"@) {
            Some(GenericFontFamily::UISansSerif)
        } else if seq_eq_ic(s, "ui-monospace"@) {
            Some(GenericFontFamily::UIMonospace)
        } else if seq_eq_ic(s, "ui-rounded"@) {
            Some(GenericFontFamily::UIRounded)
        } else if seq_eq_ic(s, "initial"@) {
            Some(GenericFontFamily::Initial)
        } else if seq_eq_ic(s, "inherit"@) {
            Some(GenericFontFamily::Inherit)
        } else if seq_eq_ic(s, "unset"@) {
            Some(GenericFontFamily::Unset)
        } else if seq_eq_ic(s, "default"@) {
            Some(GenericFontFamily::ReservedDefault)
        } else if seq_eq_ic(s, "revert"@) {
            Some(GenericFontFamily::Revert)
        } else if seq_eq_ic(s, "revert-layer"@) {
            Some(GenericFontFamily::RevertLayer)
        } else {
            None
        }
    }

    /// What parsing a generic family keyword yields.
    pub open spec fn spec_parse(toks: Seq<TokM>, pos: int) -> Option<(GenericFontFamily, int)> {
        if 0 <= pos < toks.len() {
            match toks[pos] {
                TokM::Ident(s) => match Self::from_seq(s) {
                    Some(v) => Some((v, pos + 1)),
                    None => None,
                },
                _ => None,
            }
        } else {
            None
        }
    }

    /// Decides the keyword an identifier names, ASCII-case-insensitively.
    pub fn from_str_ic(id: &str) -> (r: Option<GenericFontFamily>)
        ensures
            r == Self::from_seq(id@),
    {
        if str_eq_ic(id, "serif") {
            Some(GenericFontFamily::Serif)
        } else if str_eq_ic(id, "sans-serif") {
            Some(GenericFontFamily::SansSerif)
        } else if str_eq_ic(id, "cursive") {
            Some(GenericFontFamily::Cursive)
        } else if str_eq_ic(id, "fantasy") {
            Some(GenericFontFamily::Fantasy)
        } else if str_eq_ic(id, "monospace") {
            Some(GenericFontFamily::Monospace)
        } else if str_eq_ic(id, "system-ui") {
            Some(GenericFontFamily::SystemUI)
        } else if str_eq_ic(id, "emoji") {
            Some(GenericFontFamily::Emoji)
        } else if str_eq_ic(id, "math") {
            Some(GenericFontFamily::Math)
        } else if str_eq_ic(id, "fangsong") {
            Some(GenericFontFamily::FangSong)
        } else if str_eq_ic(id, "ui-serif") {
            Some(GenericFontFamily::UISerif)
        } else if str_eq_ic(id, "ui-sans-serif") {
            Some(GenericFontFamily::UISansSerif)
        } else if str_eq_ic(id, "ui-monospace") {
            Some(GenericFontFamily::UIMonospace)
        } else if str_eq_ic(id, "ui-rounded") {
            Some(GenericFontFamily::UIRounded)
        } else if str_eq_ic(id, "initial") {
            Some(GenericFontFamily::Initial)
        } else if str_eq_ic(id, "inherit") {
            Some(GenericFontFamily::Inherit)
        } else if str_eq_ic(id, "unset") {
            Some(GenericFontFamily::Unset)
        } else if str_eq_ic(id, "default") {
            Some(GenericFontFamily::ReservedDefault)
        } else if str_eq_ic(id, "revert") {
            Some(GenericFontFamily::Revert)
        } else if str_eq_ic(id, "revert-layer") {
            Some(GenericFontFamily::RevertLayer)
        } else {
            None
        }
    }

    /// Parses a generic family keyword.
    pub fn parse(cur: &mut Cursor) -> (r: Result<GenericFontFamily, ParserError>)
        requires
            old(cur).wf(),
        ensures
            final(cur).wf(),
            final(cur).toks() == old(cur).toks(),
            match r {
                Ok(v) => Self::spec_parse(old(cur).toks(), old(cur).pos as int) == Some(
                    (v, final(cur).pos as int),
                ) && old(cur).pos < final(cur).pos,
                Err(e) => Self::spec_parse(old(cur).toks(), old(cur).pos as int) is None
                    && final(cur).pos == old(cur).pos && e.kind == ErrorKind::UnexpectedToken
                    && e.position == old(cur).pos,
            },
    {
        let start = cur.pos;
        match cur.expect_ident() {
            Ok(id) => {
                match Self::from_str_ic(id.as_str()) {
                    Some(v) => Ok(v),
                    None => {
                        cur.pos = start;
                        Err(cur.unexpected())
                    },
                }
            },
            Err(e) => Err(e),
        }
    }

    /// The spelling of the keyword.
    pub fn spelling_str(&self) -> (r: &'static str)
        ensures
            r@ == self.spelling(),
    {
        match self {
            GenericFontFamily::Serif => "serif",
            GenericFontFamily::SansSerif => "sans-serif",
            GenericFontFamily::Cursive => "cursive",
            GenericFontFamily::Fantasy => "fantasy",
            GenericFontFamily::Monospace => "monospace",
            GenericFontFamily::SystemUI => "system-ui",
            GenericFontFamily::Emoji => "emoji",
            GenericFontFamily::Math => "math",
            GenericFontFamily::FangSong => "fangsong",
            GenericFontFamily::UISerif => "ui-serif",
            GenericFontFamily::UISansSerif => "ui-sans-serif",
            GenericFontFamily::UIMonospace => "ui-monospace",
            GenericFontFamily::UIRounded => "ui-rounded",
            GenericFontFamily::Initial => "initial",
            GenericFontFamily::Inherit => "inherit",
            GenericFontFamily::Unset => "unset",
            GenericFontFamily::ReservedDefault => "default",
            GenericFontFamily::Revert => "revert",
            GenericFontFamily::RevertLayer => "revert-layer",
        }
    }
}

/// A value for the `font-family` property.
#[derive(Debug, Clone, PartialEq)]
pub enum FontFamily {
    /// A custom family name.
    FamilyName(String),
    /// A generic family name.
    Generic(GenericFontFamily),
}

/// The mathematical model of a font family.
pub enum FamilyM {
    /// A custom family name.
    Name(Seq<char>),
    /// A generic family name.
    Generic(GenericFontFamily),
}

impl View for FontFamily {
    type V = FamilyM;

    open spec fn view(&self) -> FamilyM {
        match self {
            FontFamily::FamilyName(s) => FamilyM::Name(s@),
            FontFamily::Generic(g) => FamilyM::Generic(*g),
        }
    }
}

/// Joins further identifier tokens onto an accumulated family name, one
/// space between words, and yields the joined name and the position after
/// the last identifier.
pub open spec fn collect_idents(toks: Seq<TokM>, pos: int, acc: Seq<char>) -> (Seq<char>, int)
    decreases toks.len() - pos,
{
    if 0 <= pos < toks.len() {
        match toks[pos] {
            TokM::Ident(s) => collect_idents(toks, pos + 1, acc + seq![' '] + s),
            _ => (acc, pos),
        }
    } else {
        (acc, pos)
    }
}

impl FontFamily {
    /// What parsing one font family yields: a quoted string taken verbatim,
    /// a generic family keyword, or a sequence of identifiers joined by
    /// single spaces.
    pub open spec fn spec_parse(toks: Seq<TokM>, pos: int) -> Option<(FamilyM, int)> {
        if 0 <= pos < toks.len() {
            match toks[pos] {
                TokM::QuotedStr(s) => Some((FamilyM::Name(s), pos + 1)),
                TokM::Ident(s) => match GenericFontFamily::from_seq(s) {
                    Some(g) => Some((FamilyM::Generic(g), pos + 1)),
                    None => Some(
                        {
                            let joined = collect_idents(toks, pos + 1, s);
                            (FamilyM::Name(joined.0), joined.1)
                        },
                    ),
                },
                _ => None,
            }
        } else {
            None
        }
    }

    /// Parses one font family.
    pub fn parse(cur: &mut Cursor) -> (r: Result<FontFamily, ParserError>)
        requires
            old(cur).wf(),
        ensures
            final(cur).wf(),
            final(cur).toks() == old(cur).toks(),
            match r {
                Ok(v) => Self::spec_parse(old(cur).toks(), old(cur).pos as int) == Some(
                    (v@, final(cur).pos as int),
                ) && old(cur).pos < final(cur).pos,
                Err(e) => Self::spec_parse(old(cur).toks(), old(cur).pos as int) is None
                    && final(cur).pos == old(cur).pos && e.kind == ErrorKind::UnexpectedToken
                    && e.position == old(cur).pos,
            },
    {
        match cur.expect_string() {
            Ok(s) => {
                return Ok(FontFamily::FamilyName(s));
            },
            Err(_) => {},
        }
        match GenericFontFamily::parse(cur) {
            Ok(g) => {
                return Ok(FontFamily::Generic(g));
            },
            Err(_) => {},
        }
        let mut name = match cur.expect_ident() {
            Ok(s) => s,
            Err(e) => {
                return Err(e);
            },
        };
        let ghost toks0 = cur.toks();
        let ghost s0 = name@;
        let ghost target = collect_idents(toks0, cur.pos as int, name@);
        loop
            invariant
                cur.wf(),
                cur.toks() == toks0,
                old(cur).pos < cur.pos <= toks0.len(),
                collect_idents(toks0, cur.pos as int, name@) == target,
            ensures
                cur.wf(),
                cur.toks() == toks0,
                old(cur).pos < cur.pos <= toks0.len(),
                (name@, cur.pos as int) == target,
            decreases toks0.len() - cur.pos,
        {
            match cur.expect_ident() {
                Ok(w) => {
                    let ghost p0 = cur.pos as int - 1;
                    let ghost name0 = name@;
                    push_char(&mut name, ' ');
                    name.append(w.as_str());
                    proof {
                        assert(name@ =~= name0 + seq![' '] + w@);
                        assert(collect_idents(toks0, p0, name0) == collect_idents(
                            toks0,
                            p0 + 1,
                            name0 + seq![' '] + w@,
                        ));
                    }
                },
                Err(_) => {
                    proof {
                        assert(collect_idents(toks0, cur.pos as int, name@) == (
                            name@,
                            cur.pos as int,
                        ));
                    }
                    break ;
                },
            }
        }
        proof {
            assert(toks0[old(cur).pos as int] == TokM::Ident(s0));
            assert(GenericFontFamily::spec_parse(toks0, old(cur).pos as int) is None);
            assert(GenericFontFamily::from_seq(s0) is None);
            assert(Self::spec_parse(toks0, old(cur).pos as int) == Some(
                (FamilyM::Name(name@), cur.pos as int),
            ));
        }
        Ok(FontFamily::FamilyName(name))
    }
}

/// A value for the `font-style` property.
#[derive(Debug, Clone, Copy, PartialEq, Eq, Structural)]
pub enum FontStyle {
    /// Normal font style.
    Normal,
    /// Italic font style.
    Italic,
    /// Oblique font style, with a custom angle.
    Oblique(Angle),
}

/// The angle an oblique style leans by when none is written: `14deg`.
pub const DEFAULT_OBLIQUE_MILLIS: i64 = 14000;

impl FontStyle {
    /// The canonical default: `normal`.
    pub open spec fn spec_default() -> FontStyle {
        FontStyle::Normal
    }

    /// Whether the value lies within the numeric bound.
    pub open spec fn wf(&self) -> bool {
        match self {
            FontStyle::Oblique(a) => a.wf(),
            _ => true,
        }
    }

    /// Whether the value is the canonical default.
    pub fn is_default(&self) -> (r: bool)
        ensures
            r == (*self == FontStyle::spec_default()),
    {
        matches!(self, FontStyle::Normal)
    }

    /// What parsing a font style yields: `normal`, `italic`, or `oblique`
    /// with an optional angle that defaults to `14deg`.
    pub open spec fn spec_parse(toks: Seq<TokM>, pos: int) -> Option<(FontStyle, int)> {
        if 0 <= pos < toks.len() {
            match toks[pos] {
                TokM::Ident(s) => if seq_eq_ic(s, "normal"@) {
                    Some((FontStyle::Normal, pos + 1))
                } else if seq_eq_ic(s, "italic"@) {
                    Some((FontStyle::Italic, pos + 1))
                } else if seq_eq_ic(s, "oblique"@) {
                    match Angle::spec_parse(toks, pos + 1) {
                        Some((a, p)) => Some((FontStyle::Oblique(a), p)),
                        None => Some(
                            (FontStyle::Oblique(Angle { millis: DEFAULT_OBLIQUE_MILLIS }), pos + 1),
                        ),
                    }
                } else {
                    None
                },
                _ => None,
            }
        } else {
            None
        }
    }

    /// The tokens a font style serializes to: the oblique angle is omitted
    /// when it is the default.
    pub open spec fn ser_toks(&self) -> Seq<TokM> {
        match self {
            FontStyle::Normal => seq![TokM::Ident("normal"@)],
            FontStyle::Italic => seq![TokM::Ident("italic"@)],
            FontStyle::Oblique(a) => if a.millis == DEFAULT_OBLIQUE_MILLIS {
                seq![TokM::Ident("oblique"@)]
            } else {
                seq![TokM::Ident("oblique"@), TokM::Dim(a.millis as int, "deg"@)]
            },
        }
    }

    /// Parses a font style.
    pub fn parse(cur: &mut Cursor) -> (r: Result<FontStyle, ParserError>)
        requires
            old(cur).wf(),
        ensures
            final(cur).wf(),
            final(cur).toks() == old(cur).toks(),
            match r {
                Ok(v) => Self::spec_parse(old(cur).toks(), old(cur).pos as int) == Some(
                    (v, final(cur).pos as int),
                ) && v.wf() && old(cur).pos < final(cur).pos,
                Err(e) => Self::spec_parse(old(cur).toks(), old(cur).pos as int) is None
                    && final(cur).pos == old(cur).pos && e.kind == ErrorKind::UnexpectedToken
                    && e.position == old(cur).pos,
            },
    {
        let start = cur.pos;
        match cur.expect_ident() {
            Ok(id) => {
                if str_eq_ic(id.as_str(), "normal") {
                    Ok(FontStyle::Normal)
                } else if str_eq_ic(id.as_str(), "italic") {
                    Ok(FontStyle::Italic)
                } else if str_eq_ic(id.as_str(), "oblique") {
                    match Angle::parse(cur) {
                        Ok(a) => Ok(FontStyle::Oblique(a)),
                        Err(_) => Ok(FontStyle::Oblique(Angle { millis: DEFAULT_OBLIQUE_MILLIS })),
                    }
                } else {
                    cur.pos = start;
                    Err(cur.unexpected())
                }
            },
            Err(e) => Err(e),
        }
    }

    /// Appends the tokens a font style serializes to.
    pub fn to_tokens(&self, out: &mut Vec<Token>)
        ensures
            toks_of(final(out)@) == toks_of(old(out)@) + self.ser_toks(),
    {
        match self {
            FontStyle::Normal => {
                out.push(Token::Ident(String::from_str("normal")));
                proof {
                    lemma_toks_of_push(old(out)@, out@.last());
                    assert(toks_of(out@) =~= toks_of(old(out)@) + self.ser_toks());
                }
            },
            FontStyle::Italic => {
                out.push(Token::Ident(String::from_str("italic")));
                proof {
                    lemma_toks_of_push(old(out)@, out@.last());
                    assert(toks_of(out@) =~= toks_of(old(out)@) + self.ser_toks());
                }
            },
            FontStyle::Oblique(a) => {
                out.push(Token::Ident(String::from_str("oblique")));
                proof {
                    lemma_toks_of_push(old(out)@, out@.last());
                }
                if a.millis != DEFAULT_OBLIQUE_MILLIS {
                    let ghost mid = out@;
                    out.push(Token::Dim(a.millis, String::from_str("deg")));
                    proof {
                        lemma_toks_of_push(mid, out@.last());
                    }
                }
                proof {
                    assert(toks_of(out@) =~= toks_of(old(out)@) + self.ser_toks());
                }
            },
        }
    }
}

impl Default for FontStyle {
    /// The canonical default: `normal`.
    fn default() -> (r: FontStyle)
        ensures
            r == FontStyle::spec_default(),
    {
        FontStyle::Normal
    }
}

/// A value for the `font-variant-caps` property.
#[derive(Debug, Clone, Copy, PartialEq, Eq, Structural)]
pub enum FontVariantCaps {
    /// No special capitalization features are applied.
    Normal,
    /// The small capitals feature is used for lower case letters.
    SmallCaps,
    /// Small capitals are used for both upper and lower case letters.
    AllSmallCaps,
    /// Petite capitals are used.
    PetiteCaps,
    /// Petite capitals are used for both upper and lower case letters.
    AllPetiteCaps,
    /// A mixture of small capitals for upper case letters with normal lower
    /// case letters.
    Unicase,
    /// Titling capitals are used.
    TitlingCaps,
}

impl FontVariantCaps {
    /// The spelling of the keyword.
    pub open spec fn spelling(&self) -> Seq<char> {
        match self {
            FontVariantCaps::Normal => "normal"@,
            FontVariantCaps::SmallCaps => "small-caps"@,
            FontVariantCaps::AllSmallCaps => "all-small-caps"@,
            FontVariantCaps::PetiteCaps => "petite-caps"@,
            FontVariantCaps::AllPetiteCaps => "all-petite-caps"@,
            FontVariantCaps::Unicase => "unicase"@,
            FontVariantCaps::TitlingCaps => "titling-caps"@,
        }
    }

    /// The keyword the text names, ASCII-case-insensitively.
    pub open spec fn from_seq(s: Seq<char>) -> Option<FontVariantCaps> {
        if seq_eq_ic(s, "normal"@) {
            Some(FontVariantCaps::Normal)
        } else if seq_eq_ic(s, "small-caps"@) {
            Some(FontVariantCaps::SmallCaps)
        } else if seq_eq_ic(s, "all-small-caps"@) {
            Some(FontVariantCaps::AllSmallCaps)
        } else if seq_eq_ic(s, "petite-caps"@) {
            Some(FontVariantCaps::PetiteCaps)
        } else if seq_eq_ic(s, "all-petite-caps"@) {
            Some(FontVariantCaps::AllPetiteCaps)
        } else if seq_eq_ic(s, "unicase"@) {
            Some(FontVariantCaps::Unicase)
        } else if seq_eq_ic(s, "titling-caps"@) {
            Some(FontVariantCaps::TitlingCaps)
        } else {
            None
        }
    }

    /// What parsing a `font-variant-caps` value yields.
    pub open spec fn spec_parse(toks: Seq<TokM>, pos: int) -> Option<(FontVariantCaps, int)> {
        if 0 <= pos < toks.len() {
            match toks[pos] {
                TokM::Ident(s) => match Self::from_seq(s) {
                    Some(v) => Some((v, pos + 1)),
                    None => None,
                },
                _ => None,
            }
        } else {
            None
        }
    }

    /// The token the keyword serializes to.
    pub open spec fn ser_toks(&self) -> Seq<TokM> {
        seq![TokM::Ident(self.spelling())]
    }

    /// The CSS 2.1 value this caps value is, where it is one: only `normal`
    /// and `small-caps` exist at that level.
    pub open spec fn spec_to_css2(&self) -> Option<FontVariantCapsCSS2> {
        match self {
            FontVariantCaps::Normal => Some(FontVariantCapsCSS2::Normal),
            FontVariantCaps::SmallCaps => Some(FontVariantCapsCSS2::SmallCaps),
            _ => None,
        }
    }

    /// The CSS 2.1 value this caps value is, where it is one.
    pub fn to_css2(&self) -> (r: Option<FontVariantCapsCSS2>)
        ensures
            r == self.spec_to_css2(),
    {
        match self {
            FontVariantCaps::Normal => Some(FontVariantCapsCSS2::Normal),
            FontVariantCaps::SmallCaps => Some(FontVariantCapsCSS2::SmallCaps),
            _ => None,
        }
    }

    /// Parses a `font-variant-caps` value.
    pub fn parse(cur: &mut Cursor) -> (r: Result<FontVariantCaps, ParserError>)
        requires
            old(cur).wf(),
        ensures
            final(cur).wf(),
            final(cur).toks() == old(cur).toks(),
            match r {
                Ok(v) => Self::spec_parse(old(cur).toks(), old(cur).pos as int) == Some(
                    (v, final(cur).pos as int),
                ) && old(cur).pos < final(cur).pos,
                Err(e) => Self::spec_parse(old(cur).toks(), old(cur).pos as int) is None
                    && final(cur).pos == old(cur).pos && e.kind == ErrorKind::UnexpectedToken
                    && e.position == old(cur).pos,
            },
    {
        let start = cur.pos;
        match cur.expect_ident() {
            Ok(id) => {
                if str_eq_ic(id.as_str(), "normal") {
                    Ok(FontVariantCaps::Normal)
                } else if str_eq_ic(id.as_str(), "small-caps") {
                    Ok(FontVariantCaps::SmallCaps)
                } else if str_eq_ic(id.as_str(), "all-small-caps") {
                    Ok(FontVariantCaps::AllSmallCaps)
                } else if str_eq_ic(id.as_str(), "petite-caps") {
                    Ok(FontVariantCaps::PetiteCaps)
                } else if str_eq_ic(id.as_str(), "all-petite-caps") {
                    Ok(FontVariantCaps::AllPetiteCaps)
                } else if str_eq_ic(id.as_str(), "unicase") {
                    Ok(FontVariantCaps::Unicase)
                } else if str_eq_ic(id.as_str(), "titling-caps") {
                    Ok(FontVariantCaps::TitlingCaps)
                } else {
                    cur.pos = start;
                    Err(cur.unexpected())
                }
            },
            Err(e) => Err(e),
        }
    }

    /// The spelling of the keyword.
    pub fn spelling_str(&self) -> (r: &'static str)
        ensures
            r@ == self.spelling(),
    {
        match self {
            FontVariantCaps::Normal => "normal",
            FontVariantCaps::SmallCaps => "small-caps",
            FontVariantCaps::AllSmallCaps => "all-small-caps",
            FontVariantCaps::PetiteCaps => "petite-caps",
            FontVariantCaps::AllPetiteCaps => "all-petite-caps",
            FontVariantCaps::Unicase => "unicase",
            FontVariantCaps::TitlingCaps => "titling-caps",
        }
    }

    /// Appends the token the keyword serializes to.
    pub fn to_tokens(&self, out: &mut Vec<Token>)
        ensures
            toks_of(final(out)@) == toks_of(old(out)@) + self.ser_toks(),
    {
        out.push(Token::Ident(String::from_str(self.spelling_str())));
        proof {
            lemma_toks_of_push(old(out)@, out@.last());
            assert(toks_of(out@) =~= toks_of(old(out)@) + self.ser_toks());
        }
    }
}

/// The CSS 2.1 values for the `font-variant-caps` property, as used in the
/// `font` shorthand.
///
/// See [Font](Font).
#[derive(Debug, Clone, Copy, PartialEq, Eq, Structural)]
pub enum FontVariantCapsCSS2 {
    /// No special capitalization features are applied.
    Normal,
    /// Small capitals are used for lower case letters.
    SmallCaps,
}

impl FontVariantCapsCSS2 {
    /// The canonical default: `normal`.
    pub open spec fn spec_default() -> FontVariantCapsCSS2 {
        FontVariantCapsCSS2::Normal
    }

    /// The spelling of the keyword.
    pub open spec fn spelling(&self) -> Seq<char> {
        match self {
            FontVariantCapsCSS2::Normal => "normal"@,
            FontVariantCapsCSS2::SmallCaps => "small-caps"@,
        }
    }

    /// The keyword the text names, ASCII-case-insensitively.
    pub open spec fn from_seq(s: Seq<char>) -> Option<FontVariantCapsCSS2> {
        if seq_eq_ic(s, "normal"@) {
            Some(FontVariantCapsCSS2::Normal)
        } else if seq_eq_ic(s, "small-caps"@) {
            Some(FontVariantCapsCSS2::SmallCaps)
        } else {
            None
        }
    }

    /// What parsing a CSS 2.1 caps value yields.
    pub open spec fn spec_parse(toks: Seq<TokM>, pos: int) -> Option<(FontVariantCapsCSS2, int)> {
        if 0 <= pos < toks.len() {
            match toks[pos] {
                TokM::Ident(s) => match Self::from_seq(s) {
                    Some(v) => Some((v, pos + 1)),
                    None => None,
                },
                _ => None,
            }
        } else {
            None
        }
    }

    /// The token the keyword serializes to.
    pub open spec fn ser_toks(&self) -> Seq<TokM> {
        seq![TokM::Ident(self.spelling())]
    }

    /// Whether the value is the canonical default.
    pub fn is_default(&self) -> (r: bool)
        ensures
            r == (*self == FontVariantCapsCSS2::spec_default()),
    {
        matches!(self, FontVariantCapsCSS2::Normal)
    }

    /// The full `font-variant-caps` value this CSS 2.1 value stands for.
    pub fn to_font_variant_caps(&self) -> (r: FontVariantCaps)
        ensures
            r == self.spec_to_font_variant_caps(),
    {
        match self {
            FontVariantCapsCSS2::Normal => FontVariantCaps::Normal,
            FontVariantCapsCSS2::SmallCaps => FontVariantCaps::SmallCaps,
        }
    }

    /// The full `font-variant-caps` value this CSS 2.1 value stands for.
    pub open spec fn spec_to_font_variant_caps(&self) -> FontVariantCaps {
        match self {
            FontVariantCapsCSS2::Normal => FontVariantCaps::Normal,
            FontVariantCapsCSS2::SmallCaps => FontVariantCaps::SmallCaps,
        }
    }

    /// Parses a CSS 2.1 caps value.
    pub fn parse(cur: &mut Cursor) -> (r: Result<FontVariantCapsCSS2, ParserError>)
        requires
            old(cur).wf(),
        ensures
            final(cur).wf(),
            final(cur).toks() == old(cur).toks(),
            match r {
                Ok(v) => Self::spec_parse(old(cur).toks(), old(cur).pos as int) == Some(
                    (v, final(cur).pos as int),
                ) && old(cur).pos < final(cur).pos,
                Err(e) => Self::spec_parse(old(cur).toks(), old(cur).pos as int) is None
                    && final(cur).pos == old(cur).pos && e.kind == ErrorKind::UnexpectedToken
                    && e.position == old(cur).pos,
            },
    {
        let start = cur.pos;
        match cur.expect_ident() {
            Ok(id) => {
                if str_eq_ic(id.as_str(), "normal") {
                    Ok(FontVariantCapsCSS2::Normal)
                } else if str_eq_ic(id.as_str(), "small-caps") {
                    Ok(FontVariantCapsCSS2::SmallCaps)
                } else {
                    cur.pos = start;
                    Err(cur.unexpected())
                }
            },
            Err(e) => Err(e),
        }
    }

    /// The spelling of the keyword.
    pub fn spelling_str(&self) -> (r: &'static str)
        ensures
            r@ == self.spelling(),
    {
        match self {
            FontVariantCapsCSS2::Normal => "normal",
            FontVariantCapsCSS2::SmallCaps => "small-caps",
        }
    }

    /// Appends the token the keyword serializes to.
    pub fn to_tokens(&self, out: &mut Vec<Token>)
        ensures
            toks_of(final(out)@) == toks_of(old(out)@) + self.ser_toks(),
    {
        out.push(Token::Ident(String::from_str(self.spelling_str())));
        proof {
            lemma_toks_of_push(old(out)@, out@.last());
            assert(toks_of(out@) =~= toks_of(old(out)@) + self.ser_toks());
        }
    }
}

impl Default for FontVariantCapsCSS2 {
    /// The canonical default: `normal`.
    fn default() -> (r: FontVariantCapsCSS2)
        ensures
            r == FontVariantCapsCSS2::spec_default(),
    {
        FontVariantCapsCSS2::Normal
    }
}

/// A value for the `line-height` property.
#[derive(Debug, Clone, Copy, PartialEq, Eq, Structural)]
pub enum LineHeight {
    /// The user agent sets the line height based on the font.
    Normal,
    /// A multiple of the element's font size, in thousandths.
    Number(i64),
    /// An explicit height.
    Length(LengthPercentage),
}

impl LineHeight {
    /// The canonical default: `normal`.
    pub open spec fn spec_default() -> LineHeight {
        LineHeight::Normal
    }

    /// Whether the value lies within the numeric bound.
    pub open spec fn wf(&self) -> bool {
        match self {
            LineHeight::Number(n) => wf_millis(*n as int),
            LineHeight::Length(l) => l.wf(),
            _ => true,
        }
    }

    /// Whether the value is the canonical default.
    pub fn is_default(&self) -> (r: bool)
        ensures
            r == (*self == LineHeight::spec_default()),
    {
        matches!(self, LineHeight::Normal)
    }

    /// What parsing a line height yields: `normal`, a bare number, or a
    /// length-or-percentage.
    pub open spec fn spec_parse(toks: Seq<TokM>, pos: int) -> Option<(LineHeight, int)> {
        if 0 <= pos < toks.len() {
            match toks[pos] {
                TokM::Ident(s) => if seq_eq_ic(s, "normal"@) {
                    Some((LineHeight::Normal, pos + 1))
                } else {
                    None
                },
                TokM::Number(n) => Some((LineHeight::Number(n as i64), pos + 1)),
                _ => match LengthPercentage::spec_parse(toks, pos) {
                    Some((v, p)) => Some((LineHeight::Length(v), p)),
                    None => None,
                },
            }
        } else {
            None
        }
    }

    /// The token a line height serializes to.
    pub open spec fn ser_toks(&self) -> Seq<TokM> {
        match self {
            LineHeight::Normal => seq![TokM::Ident("normal"@)],
            LineHeight::Number(n) => seq![TokM::Number(*n as int)],
            LineHeight::Length(l) => l.ser_toks(),
        }
    }

    /// Parses a line height.
    pub fn parse(cur: &mut Cursor) -> (r: Result<LineHeight, ParserError>)
        requires
            old(cur).wf(),
        ensures
            final(cur).wf(),
            final(cur).toks() == old(cur).toks(),
            match r {
                Ok(v) => Self::spec_parse(old(cur).toks(), old(cur).pos as int) == Some(
                    (v, final(cur).pos as int),
                ) && v.wf() && old(cur).pos < final(cur).pos,
                Err(e) => Self::spec_parse(old(cur).toks(), old(cur).pos as int) is None
                    && final(cur).pos == old(cur).pos && e.kind == ErrorKind::UnexpectedToken
                    && e.position == old(cur).pos,
            },
    {
        let start = cur.pos;
        match cur.expect_ident() {
            Ok(id) => {
                if str_eq_ic(id.as_str(), "normal") {
                    return Ok(LineHeight::Normal);
                }
                cur.pos = start;
                return Err(cur.unexpected());
            },
            Err(_) => {},
        }
        match cur.expect_number() {
            Ok(n) => {
                return Ok(LineHeight::Number(n));
            },
            Err(_) => {},
        }
        match LengthPercentage::parse(cur) {
            Ok(v) => Ok(LineHeight::Length(v)),
            Err(e) => Err(e),
        }
    }

    /// Appends the token a line height serializes to.
    pub fn to_tokens(&self, out: &mut Vec<Token>)
        ensures
            toks_of(final(out)@) == toks_of(old(out)@) + self.ser_toks(),
    {
        match self {
            LineHeight::Normal => {
                out.push(Token::Ident(String::from_str("normal")));
            },
            LineHeight::Number(n) => {
                out.push(Token::Number(*n));
            },
            LineHeight::Length(l) => {
                match l {
                    LengthPercentage::Dimension(d) => {
                        out.push(
                            Token::Dim(d.millis, String::from_str(crate::values::unit_str(d.unit))),
                        );
                    },
                    LengthPercentage::Percentage(p) => {
                        out.push(Token::Percent(p.millis));
                    },
                }
            },
        }
        proof {
            lemma_toks_of_push(old(out)@, out@.last());
            assert(toks_of(out@) =~= toks_of(old(out)@) + self.ser_toks());
        }
    }
}

impl Default for LineHeight {
    /// The canonical default: `normal`.
    fn default() -> (r: LineHeight)
        ensures
            r == LineHeight::spec_default(),
    {
        LineHeight::Normal
    }
}

/// A keyword for the `vertical-align` property.
#[derive(Debug, Clone, Copy, PartialEq, Eq, Structural)]
pub enum VerticalAlignKeyword {
    /// Aligns the baseline of the box with the baseline of the parent box.
    Baseline,
    /// Lowers the baseline to the position for subscripts.
    Sub,
    /// Raises the baseline to the position for superscripts.
    Super,
    /// Aligns the top of the box with the top of the line box.
    Top,
    /// Aligns the top of the box with the top of the parent's content area.
    TextTop,
    /// Aligns the vertical midpoint with the parent's baseline plus half its
    /// x-height.
    Middle,
    /// Aligns the bottom of the box with the bottom of the line box.
    Bottom,
    /// Aligns the bottom of the box with the bottom of the parent's content
    /// area.
    TextBottom,
}

impl VerticalAlignKeyword {
    /// The spelling of the keyword.
    pub open spec fn spelling(&self) -> Seq<char> {
        match self {
            VerticalAlignKeyword::Baseline => "baseline"@,
            VerticalAlignKeyword::Sub => "sub"@,
            VerticalAlignKeyword::Super => "super"@,
            VerticalAlignKeyword::Top => "top"@,
            VerticalAlignKeyword::TextTop => "text-top"@,
            VerticalAlignKeyword::Middle => "middle"@,
            VerticalAlignKeyword::Bottom => "bottom"@,
            VerticalAlignKeyword::TextBottom => "text-bottom"@,
        }
    }

    /// The keyword the text names, ASCII-case-insensitively.
    pub open spec fn from_seq(s: Seq<char>) -> Option<VerticalAlignKeyword> {
        if seq_eq_ic(s, "baseline"@) {
            Some(VerticalAlignKeyword::Baseline)
        } else if seq_eq_ic(s, "sub"@) {
            Some(VerticalAlignKeyword::Sub)
        } else if seq_eq_ic(s, "super"@) {
            Some(VerticalAlignKeyword::Super)
        } else if seq_eq_ic(s, "top"@) {
            Some(VerticalAlignKeyword::Top)
        } else if seq_eq_ic(s, "text-top"@) {
            Some(VerticalAlignKeyword::TextTop)
        } else if seq_eq_ic(s, "middle"@) {
            Some(VerticalAlignKeyword::Middle)
        } else if seq_eq_ic(s, "bottom"@) {
            Some(VerticalAlignKeyword::Bottom)
        } else if seq_eq_ic(s, "text-bottom"@) {
            Some(VerticalAlignKeyword::TextBottom)
        } else {
            None
        }
    }

    /// What parsing a vertical-align keyword yields.
    pub open spec fn spec_parse(toks: Seq<TokM>, pos: int) -> Option<(VerticalAlignKeyword, int)> {
        if 0 <= pos < toks.len() {
            match toks[pos] {
                TokM::Ident(s) => match Self::from_seq(s) {
                    Some(v) => Some((v, pos + 1)),
                    None => None,
                },
                _ => None,
            }
        } else {
            None
        }
    }

    /// Parses a vertical-align keyword.
    pub fn parse(cur: &mut Cursor) -> (r: Result<VerticalAlignKeyword, ParserError>)
        requires
            old(cur).wf(),
        ensures
            final(cur).wf(),
            final(cur).toks() == old(cur).toks(),
            match r {
                Ok(v) => Self::spec_parse(old(cur).toks(), old(cur).pos as int) == Some(
                    (v, final(cur).pos as int),
                ) && old(cur).pos < final(cur).pos,
                Err(e) => Self::spec_parse(old(cur).toks(), old(cur).pos as int) is None
                    && final(cur).pos == old(cur).pos && e.kind == ErrorKind::UnexpectedToken
                    && e.position == old(cur).pos,
            },
    {
        let start = cur.pos;
        match cur.expect_ident() {
            Ok(id) => {
                if str_eq_ic(id.as_str(), "baseline") {
                    Ok(VerticalAlignKeyword::Baseline)
                } else if str_eq_ic(id.as_str(), "sub") {
                    Ok(VerticalAlignKeyword::Sub)
                } else if str_eq_ic(id.as_str(), "super") {
                    Ok(VerticalAlignKeyword::Super)
                } else if str_eq_ic(id.as_str(), "top") {
                    Ok(VerticalAlignKeyword::Top)
                } else if str_eq_ic(id.as_str(), "text-top") {
                    Ok(VerticalAlignKeyword::TextTop)
                } else if str_eq_ic(id.as_str(), "middle") {
                    Ok(VerticalAlignKeyword::Middle)
                } else if str_eq_ic(id.as_str(), "bottom") {
                    Ok(VerticalAlignKeyword::Bottom)
                } else if str_eq_ic(id.as_str(), "text-bottom") {
                    Ok(VerticalAlignKeyword::TextBottom)
                } else {
                    cur.pos = start;
                    Err(cur.unexpected())
                }
            },
            Err(e) => Err(e),
        }
    }

    /// The spelling of the keyword.
    pub fn spelling_str(&self) -> (r: &'static str)
        ensures
            r@ == self.spelling(),
    {
        match self {
            VerticalAlignKeyword::Baseline => "baseline",
            VerticalAlignKeyword::Sub => "sub",
            VerticalAlignKeyword::Super => "super",
            VerticalAlignKeyword::Top => "top",
            VerticalAlignKeyword::TextTop => "text-top",
            VerticalAlignKeyword::Middle => "middle",
            VerticalAlignKeyword::Bottom => "bottom",
            VerticalAlignKeyword::TextBottom => "text-bottom",
        }
    }
}

/// A value for the `vertical-align` property.
#[derive(Debug, Clone, Copy, PartialEq, Eq, Structural)]
pub enum VerticalAlign {
    /// A vertical-align keyword.
    Keyword(VerticalAlignKeyword),
    /// An explicit length.
    Length(LengthPercentage),
}

impl VerticalAlign {
    /// Whether the value lies within the numeric bound.
    pub open spec fn wf(&self) -> bool {
        match self {
            VerticalAlign::Length(l) => l.wf(),
            _ => true,
        }
    }

    /// What parsing a vertical align yields: a length-or-percentage, or a
    /// keyword.
    pub open spec fn spec_parse(toks: Seq<TokM>, pos: int) -> Option<(VerticalAlign, int)> {
        match LengthPercentage::spec_parse(toks, pos) {
            Some((v, p)) => Some((VerticalAlign::Length(v), p)),
            None => match VerticalAlignKeyword::spec_parse(toks, pos) {
                Some((v, p)) => Some((VerticalAlign::Keyword(v), p)),
                None => None,
            },
        }
    }

    /// The token a vertical align serializes to.
    pub open spec fn ser_toks(&self) -> Seq<TokM> {
        match self {
            VerticalAlign::Keyword(k) => seq![TokM::Ident(k.spelling())],
            VerticalAlign::Length(l) => l.ser_toks(),
        }
    }

    /// Parses a vertical align.
    pub fn parse(cur: &mut Cursor) -> (r: Result<VerticalAlign, ParserError>)
        requires
            old(cur).wf(),
        ensures
            final(cur).wf(),
            final(cur).toks() == old(cur).toks(),
            match r {
                Ok(v) => Self::spec_parse(old(cur).toks(), old(cur).pos as int) == Some(
                    (v, final(cur).pos as int),
                ) && v.wf() && old(cur).pos < final(cur).pos,
                Err(e) => Self::spec_parse(old(cur).toks(), old(cur).pos as int) is None
                    && final(cur).pos == old(cur).pos && e.kind == ErrorKind::UnexpectedToken
                    && e.position == old(cur).pos,
            },
    {
        match LengthPercentage::parse(cur) {
            Ok(v) => {
                return Ok(VerticalAlign::Length(v));
            },
            Err(_) => {},
        }
        match VerticalAlignKeyword::parse(cur) {
            Ok(v) => Ok(VerticalAlign::Keyword(v)),
            Err(e) => Err(e),
        }
    }

    /// Appends the token a vertical align serializes to.
    pub fn to_tokens(&self, out: &mut Vec<Token>)
        ensures
            toks_of(final(out)@) == toks_of(old(out)@) + self.ser_toks(),
    {
        match self {
            VerticalAlign::Keyword(k) => {
                out.push(Token::Ident(String::from_str(k.spelling_str())));
            },
            VerticalAlign::Length(l) => {
                match l {
                    LengthPercentage::Dimension(d) => {
                        out.push(
                            Token::Dim(d.millis, String::from_str(crate::values::unit_str(d.unit))),
                        );
                    },
                    LengthPercentage::Percentage(p) => {
                        out.push(Token::Percent(p.millis));
                    },
                }
            },
        }
        proof {
            lemma_toks_of_push(old(out)@, out@.last());
            assert(toks_of(out@) =~= toks_of(old(out)@) + self.ser_toks());
        }
    }
}


/// The model of a sequence of font families.
pub open spec fn fams_of(v: Seq<FontFamily>) -> Seq<FamilyM> {
    v.map(|i: int, f: FontFamily| f@)
}

/// Appending one element to a concatenation extends its right part.
pub proof fn lemma_snoc_concat(base: Seq<PropM>, pre: Seq<PropM>, x: PropM)
    ensures
        (base + pre).push(x) == base + (pre + seq![x]),
{
    assert((base + pre).push(x) =~= base + (pre + seq![x]));
}

pub proof fn lemma_fams_of_push(v: Seq<FontFamily>, f: FontFamily)
    ensures
        fams_of(v.push(f)) == fams_of(v).push(f@),
{
    assert(fams_of(v.push(f)) =~= fams_of(v).push(f@));
}

/// Whether the stream holds the identifier `normal` at a position,
/// ASCII-case-insensitively.
pub open spec fn normal_at(toks: Seq<TokM>, pos: int) -> bool {
    0 <= pos < toks.len() && match toks[pos] {
        TokM::Ident(s) => seq_eq_ic(s, "normal"@),
        _ => false,
    }
}

/// A value for the `font` shorthand property.
#[derive(Debug, Clone, PartialEq)]
pub struct Font {
    /// The font family list.
    pub family: Vec<FontFamily>,
    /// The font size.
    pub size: FontSize,
    /// The font style.
    pub style: FontStyle,
    /// The font weight.
    pub weight: FontWeight,
    /// The font stretch.
    pub stretch: FontStretch,
    /// The line height.
    pub line_height: LineHeight,
    /// How the text is capitalized. Only CSS 2.1 values fit the shorthand.
    pub variant_caps: FontVariantCapsCSS2,
}

/// The mathematical model of a `font` shorthand value.
pub struct FontM {
    /// The font family list.
    pub family: Seq<FamilyM>,
    /// The font size.
    pub size: FontSize,
    /// The font style.
    pub style: FontStyle,
    /// The font weight.
    pub weight: FontWeight,
    /// The font stretch.
    pub stretch: FontStretch,
    /// The line height.
    pub line_height: LineHeight,
    /// How the text is capitalized.
    pub variant_caps: FontVariantCapsCSS2,
}

impl View for Font {
    type V = FontM;

    open spec fn view(&self) -> FontM {
        FontM {
            family: fams_of(self.family@),
            size: self.size,
            style: self.style,
            weight: self.weight,
            stretch: self.stretch,
            line_height: self.line_height,
            variant_caps: self.variant_caps,
        }
    }
}

impl Font {
    /// Whether every component lies within the numeric bound.
    pub open spec fn wf(&self) -> bool {
        self.size.wf() && self.style.wf() && self.weight.wf() && self.stretch.wf()
            && self.line_height.wf()
    }

    /// The comma-separated family list at the end of the shorthand: one or
    /// more families, and nothing after the last one.
    pub open spec fn family_list(toks: Seq<TokM>, pos: int) -> Result<(Seq<FamilyM>, int), ErrorKind>
        decreases toks.len() - pos,
    {
        match FontFamily::spec_parse(toks, pos) {
            None => Err(ErrorKind::UnexpectedToken),
            Some((f, p)) => if !(pos < p <= toks.len()) {
                Err(ErrorKind::UnexpectedToken)
            } else if p == toks.len() {
                Ok((seq![f], p))
            } else if toks[p] is Comma {
                match Self::family_list(toks, p + 1) {
                    Ok((fs, q)) => Ok((seq![f] + fs, q)),
                    Err(k) => Err(k),
                }
            } else {
                Err(ErrorKind::UnexpectedToken)
            },
        }
    }

    /// The tail of the grammar once the family list begins: the parsed
    /// components with the grammar's defaults filled in.
    pub open spec fn finish(
        toks: Seq<TokM>,
        pos: int,
        style: Option<FontStyle>,
        weight: Option<FontWeight>,
        caps: Option<FontVariantCapsCSS2>,
        stretch: Option<FontStretch>,
        size: FontSize,
        line_height: Option<LineHeight>,
    ) -> Result<(FontM, int), ErrorKind> {
        match Self::family_list(toks, pos) {
            Ok((fams, q)) => Ok(
                (
                    FontM {
                        family: fams,
                        size,
                        style: match style {
                            Some(v) => v,
                            None => FontStyle::spec_default(),
                        },
                        weight: match weight {
                            Some(v) => v,
                            None => FontWeight::spec_default(),
                        },
                        stretch: match stretch {
                            Some(v) => v,
                            None => FontStretch::spec_default(),
                        },
                        line_height: match line_height {
                            Some(v) => v,
                            None => LineHeight::spec_default(),
                        },
                        variant_caps: match caps {
                            Some(v) => v,
                            None => FontVariantCapsCSS2::spec_default(),
                        },
                    },
                    q,
                ),
            ),
            Err(k) => Err(k),
        }
    }

    /// The tail of the grammar after the mandatory size: an optional `/` and
    /// line height, then the family list.
    pub open spec fn after_size(
        toks: Seq<TokM>,
        pos: int,
        style: Option<FontStyle>,
        weight: Option<FontWeight>,
        caps: Option<FontVariantCapsCSS2>,
        stretch: Option<FontStretch>,
        size: FontSize,
    ) -> Result<(FontM, int), ErrorKind> {
        if 0 <= pos < toks.len() && toks[pos] == TokM::Delim('/') {
            match LineHeight::spec_parse(toks, pos + 1) {
                Some((lh, q)) => Self::finish(toks, q, style, weight, caps, stretch, size, Some(lh)),
                None => Err(ErrorKind::UnexpectedToken),
            }
        } else {
            Self::finish(toks, pos, style, weight, caps, stretch, size, None)
        }
    }

    /// The leading component loop of the shorthand grammar: `normal`, style,
    /// weight, CSS 2.1 caps and stretch keywords are attempted in that fixed
    /// order until none matches, counting each match; then the mandatory
    /// size. A missing size fails the whole parse as `InvalidDeclaration`,
    /// as do more than four components before it.
    pub open spec fn font_loop(
        toks: Seq<TokM>,
        pos: int,
        style: Option<FontStyle>,
        weight: Option<FontWeight>,
        caps: Option<FontVariantCapsCSS2>,
        stretch: Option<FontStretch>,
        count: int,
    ) -> Result<(FontM, int), ErrorKind>
        decreases toks.len() - pos,
    {
        if normal_at(toks, pos) {
            Self::font_loop(toks, pos + 1, style, weight, caps, stretch, count + 1)
        } else {
            let st = if style is None {
                FontStyle::spec_parse(toks, pos)
            } else {
                None
            };
            match st {
                Some((v, p)) => if pos < p <= toks.len() {
                    Self::font_loop(toks, p, Some(v), weight, caps, stretch, count + 1)
                } else {
                    Err(ErrorKind::UnexpectedToken)
                },
                None => {
                    let wt = if weight is None {
                        FontWeight::spec_parse(toks, pos)
                    } else {
                        None
                    };
                    match wt {
                        Some((v, p)) => if pos < p <= toks.len() {
                            Self::font_loop(toks, p, style, Some(v), caps, stretch, count + 1)
                        } else {
                            Err(ErrorKind::UnexpectedToken)
                        },
                        None => {
                            let cp = if caps is None {
                                FontVariantCapsCSS2::spec_parse(toks, pos)
                            } else {
                                None
                            };
                            match cp {
                                Some((v, p)) => if pos < p <= toks.len() {
                                    Self::font_loop(
                                        toks,
                                        p,
                                        style,
                                        weight,
                                        Some(v),
                                        stretch,
                                        count + 1,
                                    )
                                } else {
                                    Err(ErrorKind::UnexpectedToken)
                                },
                                None => {
                                    let sk = if stretch is None {
                                        FontStretchKeyword::spec_parse(toks, pos)
                                    } else {
                                        None
                                    };
                                    match sk {
                                        Some((v, p)) => if pos < p <= toks.len() {
                                            Self::font_loop(
                                                toks,
                                                p,
                                                style,
                                                weight,
                                                caps,
                                                Some(FontStretch::Keyword(v)),
                                                count + 1,
                                            )
                                        } else {
                                            Err(ErrorKind::UnexpectedToken)
                                        },
                                        None => match FontSize::spec_parse(toks, pos) {
                                            None => Err(ErrorKind::InvalidDeclaration),
                                            Some((size, p)) => if count > 4 {
                                                Err(ErrorKind::InvalidDeclaration)
                                            } else {
                                                Self::after_size(
                                                    toks,
                                                    p,
                                                    style,
                                                    weight,
                                                    caps,
                                                    stretch,
                                                    size,
                                                )
                                            },
                                        },
                                    }
                                },
                            }
                        },
                    }
                },
            }
        }
    }

    /// What parsing the whole `font` shorthand yields.
    pub open spec fn spec_parse(toks: Seq<TokM>, pos: int) -> Result<(FontM, int), ErrorKind> {
        Self::font_loop(toks, pos, None, None, None, None, 0)
    }

    /// Parses the `font` shorthand: leading components in any order, a
    /// mandatory size, an optional `/` line height, and a mandatory
    /// comma-separated family list that runs to the end of the value.
    pub fn parse(cur: &mut Cursor) -> (r: Result<Font, ParserError>)
        requires
            old(cur).wf(),
        ensures
            final(cur).wf(),
            final(cur).toks() == old(cur).toks(),
            match r {
                Ok(v) => Self::spec_parse(old(cur).toks(), old(cur).pos as int) == Ok::<
                    (FontM, int),
                    ErrorKind,
                >((v@, final(cur).pos as int)) && v.wf() && old(cur).pos < final(cur).pos,
                Err(e) => Self::spec_parse(old(cur).toks(), old(cur).pos as int) == Err::<
                    (FontM, int),
                    ErrorKind,
                >(e.kind) && final(cur).pos == old(cur).pos,
            },
    {
        let ghost toks0 = cur.toks();
        let ghost pos0 = cur.pos as int;
        let start = cur.pos;
        let mut style: Option<FontStyle> = None;
        let mut weight: Option<FontWeight> = None;
        let mut variant_caps: Option<FontVariantCapsCSS2> = None;
        let mut stretch: Option<FontStretch> = None;
        let mut count: usize = 0;
        let mut outcome: Option<Result<FontSize, ParserError>> = None;
        loop
            invariant_except_break
                outcome is None,
                Self::font_loop(
                    toks0,
                    cur.pos as int,
                    style,
                    weight,
                    variant_caps,
                    stretch,
                    count as int,
                ) == Self::spec_parse(toks0, pos0),
            invariant
                cur.wf(),
                cur.toks() == toks0,
                0 <= pos0 <= cur.pos <= toks0.len(),
                count <= cur.pos - pos0,
                match style {
                    Some(v) => v.wf(),
                    None => true,
                },
                match weight {
                    Some(v) => v.wf(),
                    None => true,
                },
                match stretch {
                    Some(v) => v.wf(),
                    None => true,
                },
            ensures
                cur.wf(),
                cur.toks() == toks0,
                0 <= pos0 <= cur.pos <= toks0.len(),
                match style {
                    Some(v) => v.wf(),
                    None => true,
                },
                match weight {
                    Some(v) => v.wf(),
                    None => true,
                },
                match stretch {
                    Some(v) => v.wf(),
                    None => true,
                },
                match outcome {
                    Some(Ok(sz)) => sz.wf() && pos0 < cur.pos && (if count > 4 {
                        Err::<(FontM, int), ErrorKind>(ErrorKind::InvalidDeclaration)
                    } else {
                        Self::after_size(
                            toks0,
                            cur.pos as int,
                            style,
                            weight,
                            variant_caps,
                            stretch,
                            sz,
                        )
                    }) == Self::spec_parse(toks0, pos0),
                    Some(Err(e)) => Self::spec_parse(toks0, pos0) == Err::<
                        (FontM, int),
                        ErrorKind,
                    >(e.kind),
                    None => false,
                },
            decreases toks0.len() - cur.pos,
        {
            let ghost g_pos = cur.pos as int;
            let ghost g_style = style;
            let ghost g_weight = weight;
            let ghost g_caps = variant_caps;
            let ghost g_stretch = stretch;
            let ghost g_count = count as int;
            let normal_save = cur.pos;
            let mut saw_normal = false;
            match cur.expect_ident() {
                Ok(id) => {
                    if str_eq_ic(id.as_str(), "normal") {
                        saw_normal = true;
                    } else {
                        cur.pos = normal_save;
                    }
                },
                Err(_) => {},
            }
            if saw_normal {
                count = count + 1;
                proof {
                    assert(normal_at(toks0, g_pos));
                    assert(Self::font_loop(toks0, g_pos, g_style, g_weight, g_caps, g_stretch, g_count)
                        == Self::font_loop(toks0, g_pos + 1, style, weight, variant_caps, stretch, g_count + 1));
                }
                continue ;
            }
            proof {
                assert(!normal_at(toks0, g_pos));
            }
            if style.is_none() {
                match FontStyle::parse(cur) {
                    Ok(v) => {
                        style = Some(v);
                        count = count + 1;
                        proof {
                            assert(Self::font_loop(toks0, g_pos, g_style, g_weight, g_caps, g_stretch, g_count)
                                == Self::font_loop(toks0, cur.pos as int, style, weight, variant_caps, stretch, g_count + 1));
                        }
                        continue ;
                    },
                    Err(_) => {},
                }
            }
            if weight.is_none() {
                match FontWeight::parse(cur) {
                    Ok(v) => {
                        weight = Some(v);
                        count = count + 1;
                        proof {
                            assert(Self::font_loop(toks0, g_pos, g_style, g_weight, g_caps, g_stretch, g_count)
                                == Self::font_loop(toks0, cur.pos as int, style, weight, variant_caps, stretch, g_count + 1));
                        }
                        continue ;
                    },
                    Err(_) => {},
                }
            }
            if variant_caps.is_none() {
                match FontVariantCapsCSS2::parse(cur) {
                    Ok(v) => {
                        variant_caps = Some(v);
                        count = count + 1;
                        proof {
                            assert(Self::font_loop(toks0, g_pos, g_style, g_weight, g_caps, g_stretch, g_count)
                                == Self::font_loop(toks0, cur.pos as int, style, weight, variant_caps, stretch, g_count + 1));
                        }
                        continue ;
                    },
                    Err(_) => {},
                }
            }
            if stretch.is_none() {
                match FontStretchKeyword::parse(cur) {
                    Ok(v) => {
                        stretch = Some(FontStretch::Keyword(v));
                        count = count + 1;
                        proof {
                            assert(Self::font_loop(toks0, g_pos, g_style, g_weight, g_caps, g_stretch, g_count)
                                == Self::font_loop(toks0, cur.pos as int, style, weight, variant_caps, stretch, g_count + 1));
                        }
                        continue ;
                    },
                    Err(_) => {},
                }
            }
            match FontSize::parse(cur) {
                Ok(sz) => {
                    outcome = Some(Ok(sz));
                    proof {
                        assert(Self::font_loop(toks0, g_pos, g_style, g_weight, g_caps, g_stretch, g_count)
                            == (if g_count > 4 {
                            Err::<(FontM, int), ErrorKind>(ErrorKind::InvalidDeclaration)
                        } else {
                            Self::after_size(toks0, cur.pos as int, style, weight, variant_caps, stretch, sz)
                        }));
                    }
                },
                Err(e) => {
                    outcome = Some(
                        Err(
                            ParserError {
                                kind: ErrorKind::InvalidDeclaration,
                                position: e.position,
                            },
                        ),
                    );
                    proof {
                        assert(Self::font_loop(toks0, g_pos, g_style, g_weight, g_caps, g_stretch, g_count)
                            == Err::<(FontM, int), ErrorKind>(ErrorKind::InvalidDeclaration));
                    }
                },
            }
            break ;
        }
        let size = match outcome {
            Some(Ok(sz)) => sz,
            Some(Err(e)) => {
                cur.pos = start;
                return Err(e);
            },
            None => {
                cur.pos = start;
                return Err(cur.unexpected());
            },
        };
        if count > 4 {
            let e = ParserError { kind: ErrorKind::InvalidDeclaration, position: cur.pos };
            cur.pos = start;
            return Err(e);
        }
        let ghost p_sz = cur.pos as int;
        let mut line_height: Option<LineHeight> = None;
        match cur.expect_delim('/') {
            Ok(_) => {
                match LineHeight::parse(cur) {
                    Ok(v) => {
                        line_height = Some(v);
                    },
                    Err(e) => {
                        cur.pos = start;
                        return Err(e);
                    },
                }
            },
            Err(_) => {},
        }
        let ghost p_fam = cur.pos as int;
        proof {
            assert(Self::after_size(toks0, p_sz, style, weight, variant_caps, stretch, size)
                == Self::finish(toks0, p_fam, style, weight, variant_caps, stretch, size, line_height));
        }
        let mut family: Vec<FontFamily> = Vec::new();
        let ghost q0 = cur.pos as int;
        let mut failed: Option<ParserError> = None;
        let mut finished = false;
        loop
            invariant_except_break
                !finished,
                failed is None,
                Self::family_list(toks0, q0) == (match Self::family_list(toks0, cur.pos as int) {
                    Ok(p) => Ok::<(Seq<FamilyM>, int), ErrorKind>(
                        (fams_of(family@) + p.0, p.1),
                    ),
                    Err(k) => Err::<(Seq<FamilyM>, int), ErrorKind>(k),
                }),
            invariant
                cur.wf(),
                cur.toks() == toks0,
                0 <= q0 <= cur.pos <= toks0.len(),
            ensures
                cur.wf(),
                cur.toks() == toks0,
                q0 <= cur.pos <= toks0.len(),
                match failed {
                    Some(e) => e.kind == ErrorKind::UnexpectedToken && Self::family_list(toks0, q0)
                        == Err::<(Seq<FamilyM>, int), ErrorKind>(ErrorKind::UnexpectedToken),
                    None => finished && Self::family_list(toks0, q0) == Ok::<
                        (Seq<FamilyM>, int),
                        ErrorKind,
                    >((fams_of(family@), cur.pos as int)),
                },
            decreases toks0.len() - cur.pos,
        {
            let ghost f_pos = cur.pos as int;
            let ghost fams_before = family@;
            match FontFamily::parse(cur) {
                Ok(f) => {
                    family.push(f);
                    proof {
                        lemma_fams_of_push(fams_before, family@.last());
                    }
                },
                Err(e) => {
                    failed = Some(e);
                    break ;
                },
            }
            if cur.is_exhausted() {
                finished = true;
                proof {
                    assert(Self::family_list(toks0, f_pos) == Ok::<(Seq<FamilyM>, int), ErrorKind>(
                        (seq![family@.last()@], cur.pos as int),
                    ));
                    assert(fams_of(fams_before) + (seq![family@.last()@] + Seq::<FamilyM>::empty())
                        =~= fams_of(family@));
                    assert(fams_of(fams_before) + seq![family@.last()@] =~= fams_of(family@));
                }
                break ;
            }
            let ghost p_after = cur.pos as int;
            match cur.expect_comma() {
                Ok(_) => {
                    proof {
                        assert(Self::family_list(toks0, f_pos) == (match Self::family_list(
                            toks0,
                            p_after + 1,
                        ) {
                            Ok(p) => Ok::<(Seq<FamilyM>, int), ErrorKind>(
                                (seq![family@.last()@] + p.0, p.1),
                            ),
                            Err(k) => Err::<(Seq<FamilyM>, int), ErrorKind>(k),
                        }));
                        assert forall|p: (Seq<FamilyM>, int)|
                            fams_of(fams_before) + (seq![family@.last()@] + p.0) =~= fams_of(
                                family@,
                            ) + p.0 by {}
                    }
                },
                Err(e) => {
                    failed = Some(e);
                    proof {
                        assert(Self::family_list(toks0, f_pos) == Err::<
                            (Seq<FamilyM>, int),
                            ErrorKind,
                        >(ErrorKind::UnexpectedToken));
                    }
                    break ;
                },
            }
        }
        match failed {
            Some(e) => {
                cur.pos = start;
                return Err(e);
            },
            None => {},
        }
        proof {
            assert(Self::family_list(toks0, p_fam) == Ok::<(Seq<FamilyM>, int), ErrorKind>(
                (fams_of(family@), cur.pos as int),
            ));
        }
        let font = Font {
            family,
            size,
            style: match style {
                Some(v) => v,
                None => FontStyle::Normal,
            },
            weight: match weight {
                Some(v) => v,
                None => FontWeight::Absolute(AbsoluteFontWeight::Normal),
            },
            stretch: match stretch {
                Some(v) => v,
                None => FontStretch::Keyword(FontStretchKeyword::Normal),
            },
            line_height: match line_height {
                Some(v) => v,
                None => LineHeight::Normal,
            },
            variant_caps: match variant_caps {
                Some(v) => v,
                None => FontVariantCapsCSS2::Normal,
            },
        };
        proof {
            assert(Self::finish(toks0, p_fam, style, weight, variant_caps, stretch, size, line_height)
                == Ok::<(FontM, int), ErrorKind>((font@, cur.pos as int)));
        }
        Ok(font)
    }
}


/// Whether a property id belongs to the font group.
pub open spec fn spec_is_font_property(id: PropertyId) -> bool {
    match id {
        PropertyId::FontFamily => true,
        PropertyId::FontSize => true,
        PropertyId::FontStyle => true,
        PropertyId::FontWeight => true,
        PropertyId::FontStretch => true,
        PropertyId::FontVariantCaps => true,
        PropertyId::LineHeight => true,
        PropertyId::Font => true,
        PropertyId::VerticalAlign => false,
    }
}

/// Decides whether a property id belongs to the font group.
pub fn is_font_property(property_id: &PropertyId) -> (r: bool)
    ensures
        r == spec_is_font_property(*property_id),
{
    match property_id {
        PropertyId::FontFamily
        | PropertyId::FontSize
        | PropertyId::FontStyle
        | PropertyId::FontWeight
        | PropertyId::FontStretch
        | PropertyId::FontVariantCaps
        | PropertyId::LineHeight
        | PropertyId::Font => true,
        _ => false,
    }
}

/// The mathematical model of the font group handler's state.
pub struct HandlerM {
    /// The accumulated `font-family` value.
    pub family: Option<Seq<FamilyM>>,
    /// The accumulated `font-size` value.
    pub size: Option<FontSize>,
    /// The accumulated `font-style` value.
    pub style: Option<FontStyle>,
    /// The accumulated `font-weight` value.
    pub weight: Option<FontWeight>,
    /// The accumulated `font-stretch` value.
    pub stretch: Option<FontStretch>,
    /// The accumulated `line-height` value.
    pub line_height: Option<LineHeight>,
    /// The accumulated `font-variant-caps` value.
    pub variant_caps: Option<FontVariantCaps>,
    /// Whether any slot holds a value.
    pub has_any: bool,
}

impl HandlerM {
    /// The state with every slot empty.
    pub open spec fn empty() -> HandlerM {
        HandlerM {
            family: None,
            size: None,
            style: None,
            weight: None,
            stretch: None,
            line_height: None,
            variant_caps: None,
            has_any: false,
        }
    }

    /// The handler's invariant: `has_any` holds exactly when some slot does.
    pub open spec fn inv(self) -> bool {
        self.has_any <==> (self.family is Some || self.size is Some || self.style is Some
            || self.weight is Some || self.stretch is Some || self.line_height is Some
            || self.variant_caps is Some)
    }

    /// Whether every slot holds a value.
    pub open spec fn complete(self) -> bool {
        self.family is Some && self.size is Some && self.style is Some && self.weight is Some
            && self.stretch is Some && self.line_height is Some && self.variant_caps is Some
    }

    /// The shorthand value the slots assemble to, with the given CSS 2.1
    /// caps value.
    pub open spec fn font_with(self, caps: FontVariantCapsCSS2) -> FontM {
        FontM {
            family: self.family.unwrap(),
            size: self.size.unwrap(),
            style: self.style.unwrap(),
            weight: self.weight.unwrap(),
            stretch: self.stretch.unwrap(),
            line_height: self.line_height.unwrap(),
            variant_caps: caps,
        }
    }

    /// What a flush emits. Nothing when nothing was accumulated. One `font`
    /// shorthand when every slot is full and the caps value fits CSS 2.1;
    /// when it does not, the shorthand carries the default caps and a
    /// standalone `font-variant-caps` declaration follows it. Otherwise each
    /// full slot is emitted as its own longhand, in the canonical order
    /// family, size, style, variant-caps, weight, stretch, line-height.
    pub open spec fn finalize_out(self) -> Seq<PropM> {
        if !self.has_any {
            seq![]
        } else if self.complete() {
            let caps = self.variant_caps.unwrap();
            match caps.spec_to_css2() {
                Some(c2) => seq![PropM::Font(self.font_with(c2))],
                None => seq![
                    PropM::Font(self.font_with(FontVariantCapsCSS2::Normal)),
                    PropM::FontVariantCaps(caps),
                ],
            }
        } else {
            self.longhands_out()
        }
    }

    /// The longhand declarations the full slots emit, in the canonical
    /// order family, size, style, variant-caps, weight, stretch,
    /// line-height.
    pub open spec fn longhands_out(self) -> Seq<PropM> {
        (if self.family is Some {
            seq![PropM::FontFamily(self.family.unwrap())]
        } else {
            seq![]
        }) + (if self.size is Some {
            seq![PropM::FontSize(self.size.unwrap())]
        } else {
            seq![]
        }) + (if self.style is Some {
            seq![PropM::FontStyle(self.style.unwrap())]
        } else {
            seq![]
        }) + (if self.variant_caps is Some {
            seq![PropM::FontVariantCaps(self.variant_caps.unwrap())]
        } else {
            seq![]
        }) + (if self.weight is Some {
            seq![PropM::FontWeight(self.weight.unwrap())]
        } else {
            seq![]
        }) + (if self.stretch is Some {
            seq![PropM::FontStretch(self.stretch.unwrap())]
        } else {
            seq![]
        }) + (if self.line_height is Some {
            seq![PropM::LineHeight(self.line_height.unwrap())]
        } else {
            seq![]
        })
    }

    /// What intake does: the next state, what is appended to the output
    /// list, and whether the declaration was consumed.
    pub open spec fn handle(self, p: PropM) -> (HandlerM, Seq<PropM>, bool) {
        match p {
            PropM::FontFamily(v) => (
                HandlerM { family: Some(v), has_any: true, ..self },
                seq![],
                true,
            ),
            PropM::FontSize(v) => (HandlerM { size: Some(v), has_any: true, ..self }, seq![], true),
            PropM::FontStyle(v) => (
                HandlerM { style: Some(v), has_any: true, ..self },
                seq![],
                true,
            ),
            PropM::FontWeight(v) => (
                HandlerM { weight: Some(v), has_any: true, ..self },
                seq![],
                true,
            ),
            PropM::FontStretch(v) => (
                HandlerM { stretch: Some(v), has_any: true, ..self },
                seq![],
                true,
            ),
            PropM::FontVariantCaps(v) => (
                HandlerM { variant_caps: Some(v), has_any: true, ..self },
                seq![],
                true,
            ),
            PropM::LineHeight(v) => (
                HandlerM { line_height: Some(v), has_any: true, ..self },
                seq![],
                true,
            ),
            PropM::Font(f) => (
                HandlerM {
                    family: Some(f.family),
                    size: Some(f.size),
                    style: Some(f.style),
                    weight: Some(f.weight),
                    stretch: Some(f.stretch),
                    line_height: Some(f.line_height),
                    variant_caps: Some(f.variant_caps.spec_to_font_variant_caps()),
                    has_any: true,
                },
                seq![],
                true,
            ),
            PropM::Unparsed(u) => if spec_is_font_property(u.property_id) {
                (HandlerM::empty(), self.finalize_out() + seq![PropM::Unparsed(u)], true)
            } else {
                (self, seq![], false)
            },
            PropM::VerticalAlign(v) => (self, seq![], false),
        }
    }
}

/// The per-block accumulator for the font property group: one optional slot
/// per longhand, and a flag telling whether anything was accumulated.
#[derive(Debug)]
pub struct FontHandler {
    /// The accumulated `font-family` value.
    pub family: Option<Vec<FontFamily>>,
    /// The accumulated `font-size` value.
    pub size: Option<FontSize>,
    /// The accumulated `font-style` value.
    pub style: Option<FontStyle>,
    /// The accumulated `font-weight` value.
    pub weight: Option<FontWeight>,
    /// The accumulated `font-stretch` value.
    pub stretch: Option<FontStretch>,
    /// The accumulated `line-height` value.
    pub line_height: Option<LineHeight>,
    /// The accumulated `font-variant-caps` value.
    pub variant_caps: Option<FontVariantCaps>,
    /// Whether any slot holds a value.
    pub has_any: bool,
}

impl View for FontHandler {
    type V = HandlerM;

    open spec fn view(&self) -> HandlerM {
        HandlerM {
            family: match self.family {
                Some(v) => Some(fams_of(v@)),
                None => None,
            },
            size: self.size,
            style: self.style,
            weight: self.weight,
            stretch: self.stretch,
            line_height: self.line_height,
            variant_caps: self.variant_caps,
            has_any: self.has_any,
        }
    }
}

impl FontHandler {
    /// Makes an empty handler.
    pub fn new() -> (r: FontHandler)
        ensures
            r@ == HandlerM::empty(),
            r@.inv(),
    {
        FontHandler {
            family: None,
            size: None,
            style: None,
            weight: None,
            stretch: None,
            line_height: None,
            variant_caps: None,
            has_any: false,
        }
    }

    /// Offers one declaration to the handler. Each longhand of the group is
    /// stored into its slot; the `font` shorthand fills every slot at once;
    /// an unparsed declaration naming a font property forces a flush and is
    /// then passed through; anything else is declined.
    pub fn handle_property(&mut self, property: &Property, dest: &mut Vec<Property>) -> (r: bool)
        requires
            old(self)@.inv(),
        ensures
            final(self)@ == old(self)@.handle(property@).0,
            props_of(final(dest)@) == props_of(old(dest)@) + old(self)@.handle(property@).1,
            r == old(self)@.handle(property@).2,
            final(self)@.inv(),
    {
        match property {
            Property::FontFamily(val) => {
                self.family = Some(clone_families(val));
                self.has_any = true;
                assert(props_of(dest@) =~= props_of(dest@) + Seq::<PropM>::empty());
                true
            },
            Property::FontSize(val) => {
                self.size = Some(*val);
                self.has_any = true;
                assert(props_of(dest@) =~= props_of(dest@) + Seq::<PropM>::empty());
                true
            },
            Property::FontStyle(val) => {
                self.style = Some(*val);
                self.has_any = true;
                assert(props_of(dest@) =~= props_of(dest@) + Seq::<PropM>::empty());
                true
            },
            Property::FontWeight(val) => {
                self.weight = Some(*val);
                self.has_any = true;
                assert(props_of(dest@) =~= props_of(dest@) + Seq::<PropM>::empty());
                true
            },
            Property::FontStretch(val) => {
                self.stretch = Some(*val);
                self.has_any = true;
                assert(props_of(dest@) =~= props_of(dest@) + Seq::<PropM>::empty());
                true
            },
            Property::FontVariantCaps(val) => {
                self.variant_caps = Some(*val);
                self.has_any = true;
                assert(props_of(dest@) =~= props_of(dest@) + Seq::<PropM>::empty());
                true
            },
            Property::LineHeight(val) => {
                self.line_height = Some(*val);
                self.has_any = true;
                assert(props_of(dest@) =~= props_of(dest@) + Seq::<PropM>::empty());
                true
            },
            Property::Font(val) => {
                self.family = Some(clone_families(&val.family));
                self.size = Some(val.size);
                self.style = Some(val.style);
                self.weight = Some(val.weight);
                self.stretch = Some(val.stretch);
                self.line_height = Some(val.line_height);
                self.variant_caps = Some(val.variant_caps.to_font_variant_caps());
                self.has_any = true;
                assert(props_of(dest@) =~= props_of(dest@) + Seq::<PropM>::empty());
                true
            },
            Property::Unparsed(val) => {
                if is_font_property(&val.property_id) {
                    let ghost h0 = self@;
                    let ghost d0 = props_of(dest@);
                    self.finalize(dest);
                    let ghost d1 = dest@;
                    dest.push(property.duplicate());
                    proof {
                        lemma_props_of_push(d1, dest@.last());
                        assert(props_of(dest@) =~= d0 + (h0.finalize_out() + seq![property@]));
                    }
                    true
                } else {
                    assert(props_of(dest@) =~= props_of(dest@) + Seq::<PropM>::empty());
                    false
                }
            },
            Property::VerticalAlign(val) => {
                assert(props_of(dest@) =~= props_of(dest@) + Seq::<PropM>::empty());
                false
            },
        }
    }

    /// Flushes the accumulated state into the output list and clears every
    /// slot.
    #[verifier::rlimit(100)]
    #[verifier::spinoff_prover]
    pub fn finalize(&mut self, decls: &mut Vec<Property>)
        requires
            old(self)@.inv(),
        ensures
            final(self)@ == HandlerM::empty(),
            final(self)@.inv(),
            props_of(final(decls)@) == props_of(old(decls)@) + old(self)@.finalize_out(),
    {
        if !self.has_any {
            assert(props_of(decls@) =~= props_of(decls@) + Seq::<PropM>::empty());
            return ;
        }
        self.has_any = false;
        let mut family: Option<Vec<FontFamily>> = None;
        core::mem::swap(&mut family, &mut self.family);
        let size = self.size;
        self.size = None;
        let style = self.style;
        self.style = None;
        let weight = self.weight;
        self.weight = None;
        let stretch = self.stretch;
        self.stretch = None;
        let line_height = self.line_height;
        self.line_height = None;
        let variant_caps = self.variant_caps;
        self.variant_caps = None;
        let ghost d0 = props_of(decls@);
        let ghost h0 = old(self)@;
        if family.is_some() && size.is_some() && style.is_some() && weight.is_some()
            && stretch.is_some() && line_height.is_some() && variant_caps.is_some() {
            Self::push_shorthand(
                family,
                size,
                style,
                weight,
                stretch,
                line_height,
                variant_caps,
                decls,
            );
            proof {
                assert(props_of(decls@) =~= d0 + h0.finalize_out());
            }
        } else {
            Self::push_longhands(
                family,
                size,
                style,
                weight,
                stretch,
                line_height,
                variant_caps,
                decls,
            );
            proof {
                assert(h0.finalize_out() == h0.longhands_out());
                assert(HandlerM {
                    family: match family {
                        Some(v) => Some(fams_of(v@)),
                        None => None,
                    },
                    size,
                    style,
                    weight,
                    stretch,
                    line_height,
                    variant_caps,
                    has_any: true,
                }.longhands_out() == h0.longhands_out());
                assert(props_of(decls@) =~= d0 + h0.finalize_out());
            }
        }
    }

    /// Appends the single `font` shorthand a complete slot set emits,
    /// with the standalone caps declaration where the caps value does not
    /// fit CSS 2.1.
    fn push_shorthand(
        family: Option<Vec<FontFamily>>,
        size: Option<FontSize>,
        style: Option<FontStyle>,
        weight: Option<FontWeight>,
        stretch: Option<FontStretch>,
        line_height: Option<LineHeight>,
        variant_caps: Option<FontVariantCaps>,
        decls: &mut Vec<Property>,
    )
        requires
            family is Some,
            size is Some,
            style is Some,
            weight is Some,
            stretch is Some,
            line_height is Some,
            variant_caps is Some,
        ensures
            props_of(final(decls)@) == props_of(old(decls)@) + (HandlerM {
                family: match family {
                    Some(v) => Some(fams_of(v@)),
                    None => None,
                },
                size,
                style,
                weight,
                stretch,
                line_height,
                variant_caps,
                has_any: true,
            }).finalize_out(),
    {
        let caps_full = match variant_caps {
            Some(c) => c,
            None => FontVariantCaps::Normal,
        };
        let caps = caps_full.to_css2();
        let caps2 = match caps {
            Some(c) => c,
            None => FontVariantCapsCSS2::Normal,
        };
        let font = Font {
            family: match family {
                Some(v) => v,
                None => Vec::new(),
            },
            size: match size {
                Some(v) => v,
                None => FontSize::Absolute(AbsoluteFontSize::Medium),
            },
            style: match style {
                Some(v) => v,
                None => FontStyle::Normal,
            },
            weight: match weight {
                Some(v) => v,
                None => FontWeight::Absolute(AbsoluteFontWeight::Normal),
            },
            stretch: match stretch {
                Some(v) => v,
                None => FontStretch::Keyword(FontStretchKeyword::Normal),
            },
            line_height: match line_height {
                Some(v) => v,
                None => LineHeight::Normal,
            },
            variant_caps: caps2,
        };
        let ghost d1 = decls@;
        decls.push(Property::Font(font));
        proof {
            lemma_props_of_push(d1, decls@.last());
        }
        if caps.is_none() {
            let ghost d2 = decls@;
            decls.push(Property::FontVariantCaps(caps_full));
            proof {
                lemma_props_of_push(d2, decls@.last());
            }
        }
        proof {
            assert(props_of(decls@) =~= props_of(old(decls)@) + (HandlerM {
                family: match family {
                    Some(v) => Some(fams_of(v@)),
                    None => None,
                },
                size,
                style,
                weight,
                stretch,
                line_height,
                variant_caps,
                has_any: true,
            }).finalize_out());
        }
    }

    /// Appends one longhand declaration for each full slot, in the
    /// canonical order.
    #[verifier::rlimit(100)]
    #[verifier::spinoff_prover]
    fn push_longhands(
        family: Option<Vec<FontFamily>>,
        size: Option<FontSize>,
        style: Option<FontStyle>,
        weight: Option<FontWeight>,
        stretch: Option<FontStretch>,
        line_height: Option<LineHeight>,
        variant_caps: Option<FontVariantCaps>,
        decls: &mut Vec<Property>,
    )
        ensures
            props_of(final(decls)@) == props_of(old(decls)@) + (HandlerM {
                family: match family {
                    Some(v) => Some(fams_of(v@)),
                    None => None,
                },
                size,
                style,
                weight,
                stretch,
                line_height,
                variant_caps,
                has_any: true,
            }).longhands_out(),
    {
        let ghost h = HandlerM {
            family: match &family {
                Some(v) => Some(fams_of(v@)),
                None => None,
            },
            size,
            style,
            weight,
            stretch,
            line_height,
            variant_caps,
            has_any: true,
        };
        let ghost d0 = props_of(decls@);
        let ghost pfam: Seq<PropM> = if h.family is Some {
            seq![PropM::FontFamily(h.family.unwrap())]
        } else {
            seq![]
        };
        let ghost psize: Seq<PropM> = if h.size is Some {
            seq![PropM::FontSize(h.size.unwrap())]
        } else {
            seq![]
        };
        let ghost pstyle: Seq<PropM> = if h.style is Some {
            seq![PropM::FontStyle(h.style.unwrap())]
        } else {
            seq![]
        };
        let ghost pcaps: Seq<PropM> = if h.variant_caps is Some {
            seq![PropM::FontVariantCaps(h.variant_caps.unwrap())]
        } else {
            seq![]
        };
        let ghost pweight: Seq<PropM> = if h.weight is Some {
            seq![PropM::FontWeight(h.weight.unwrap())]
        } else {
            seq![]
        };
        let ghost pstretch: Seq<PropM> = if h.stretch is Some {
            seq![PropM::FontStretch(h.stretch.unwrap())]
        } else {
            seq![]
        };
        let ghost plh: Seq<PropM> = if h.line_height is Some {
            seq![PropM::LineHeight(h.line_height.unwrap())]
        } else {
            seq![]
        };
        let ghost mut pre: Seq<PropM> = Seq::empty();
        proof {
            assert(d0 + pre =~= d0);
        }
        match family {
            Some(val) => {
                let ghost d = decls@;
                decls.push(Property::FontFamily(val));
                proof {
                    lemma_props_of_push(d, decls@.last());
                    assert(pfam =~= seq![decls@.last()@]);
                    lemma_snoc_concat(d0, pre, decls@.last()@);
                    pre = pre + pfam;
                }
            },
            None => {
                proof {
                    assert(pre + pfam =~= pre);
                    pre = pre + pfam;
                }
            },
        }
        match size {
            Some(val) => {
                let ghost d = decls@;
                decls.push(Property::FontSize(val));
                proof {
                    lemma_props_of_push(d, decls@.last());
                    assert(psize =~= seq![decls@.last()@]);
                    lemma_snoc_concat(d0, pre, decls@.last()@);
                    pre = pre + psize;
                }
            },
            None => {
                proof {
                    assert(pre + psize =~= pre);
                    pre = pre + psize;
                }
            },
        }
        match style {
            Some(val) => {
                let ghost d = decls@;
                decls.push(Property::FontStyle(val));
                proof {
                    lemma_props_of_push(d, decls@.last());
                    assert(pstyle =~= seq![decls@.last()@]);
                    lemma_snoc_concat(d0, pre, decls@.last()@);
                    pre = pre + pstyle;
                }
            },
            None => {
                proof {
                    assert(pre + pstyle =~= pre);
                    pre = pre + pstyle;
                }
            },
        }
        match variant_caps {
            Some(val) => {
                let ghost d = decls@;
                decls.push(Property::FontVariantCaps(val));
                proof {
                    lemma_props_of_push(d, decls@.last());
                    assert(pcaps =~= seq![decls@.last()@]);
                    lemma_snoc_concat(d0, pre, decls@.last()@);
                    pre = pre + pcaps;
                }
            },
            None => {
                proof {
                    assert(pre + pcaps =~= pre);
                    pre = pre + pcaps;
                }
            },
        }
        match weight {
            Some(val) => {
                let ghost d = decls@;
                decls.push(Property::FontWeight(val));
                proof {
                    lemma_props_of_push(d, decls@.last());
                    assert(pweight =~= seq![decls@.last()@]);
                    lemma_snoc_concat(d0, pre, decls@.last()@);
                    pre = pre + pweight;
                }
            },
            None => {
                proof {
                    assert(pre + pweight =~= pre);
                    pre = pre + pweight;
                }
            },
        }
        match stretch {
            Some(val) => {
                let ghost d = decls@;
                decls.push(Property::FontStretch(val));
                proof {
                    lemma_props_of_push(d, decls@.last());
                    assert(pstretch =~= seq![decls@.last()@]);
                    lemma_snoc_concat(d0, pre, decls@.last()@);
                    pre = pre + pstretch;
                }
            },
            None => {
                proof {
                    assert(pre + pstretch =~= pre);
                    pre = pre + pstretch;
                }
            },
        }
        match line_height {
            Some(val) => {
                let ghost d = decls@;
                decls.push(Property::LineHeight(val));
                proof {
                    lemma_props_of_push(d, decls@.last());
                    assert(plh =~= seq![decls@.last()@]);
                    lemma_snoc_concat(d0, pre, decls@.last()@);
                    pre = pre + plh;
                }
            },
            None => {
                proof {
                    assert(pre + plh =~= pre);
                    pre = pre + plh;
                }
            },
        }
        proof {
            assert(h.longhands_out() == pfam + psize + pstyle + pcaps + pweight + pstretch + plh);
            assert(pre =~= h.longhands_out());
        }
    }
}



/// Concatenation of token sequences associates.
pub proof fn lemma_tok_concat_assoc(a: Seq<TokM>, b: Seq<TokM>, c: Seq<TokM>)
    ensures
        (a + b) + c == a + (b + c),
{
    assert((a + b) + c =~= a + (b + c));
}

/// The tokens one family serializes to. A name is written as bare
/// identifiers, one per word, when it is nonempty, is not spelled like a
/// generic family, and its escaped form is not longer than the quoted form
/// (the name's length plus the two quotes); otherwise it is written as one
/// quoted string.
pub open spec fn fam_toks(f: FamilyM) -> Seq<TokM> {
    match f {
        FamilyM::Generic(g) => seq![TokM::Ident(g.spelling())],
        FamilyM::Name(s) => {
            let ws = split_from(s, 0);
            if s.len() > 0 && GenericFontFamily::from_seq(s) is None && esc_join_from(ws, 0).len()
                < s.len() + 2 {
                ws.map(|i: int, w: Seq<char>| TokM::Ident(w))
            } else {
                seq![TokM::QuotedStr(s)]
            }
        },
    }
}

/// The tokens a family list serializes to, from the family at `k` on, with
/// a comma before each family but the first.
pub open spec fn fam_list_toks_from(fams: Seq<FamilyM>, k: int) -> Seq<TokM>
    decreases fams.len() - k,
{
    if 0 <= k < fams.len() {
        (if k > 0 {
            seq![TokM::Comma]
        } else {
            seq![]
        }) + fam_toks(fams[k]) + fam_list_toks_from(fams, k + 1)
    } else {
        seq![]
    }
}

impl FontFamily {
    /// The tokens this family serializes to.
    pub open spec fn ser_toks(&self) -> Seq<TokM> {
        fam_toks(self@)
    }

    /// Appends the tokens this family serializes to.
    pub fn to_tokens(&self, out: &mut Vec<Token>)
        ensures
            toks_of(final(out)@) == toks_of(old(out)@) + fam_toks(self@),
    {
        let ghost base = toks_of(out@);
        match self {
            FontFamily::Generic(g) => {
                out.push(Token::Ident(String::from_str(g.spelling_str())));
                proof {
                    lemma_toks_of_push(old(out)@, out@.last());
                    assert(toks_of(out@) =~= base + fam_toks(self@));
                }
            },
            FontFamily::FamilyName(s) => {
                let is_generic = GenericFontFamily::from_str_ic(s.as_str()).is_some();
                let slen = s.unicode_len();
                if slen > 0 && !is_generic {
                    let words = split_words(s.as_str());
                    let ghost ws = words@.map(|i: int, w: String| w@);
                    let id = escape_words(&words);
                    let idlen = id.unicode_len();
                    if idlen <= slen || idlen - slen < 2 {
                        let mut k: usize = 0;
                        while k < words.len()
                            invariant
                                k <= words.len(),
                                ws == words@.map(|i: int, w: String| w@),
                                toks_of(out@) == base + ws.take(k as int).map(
                                    |i: int, w: Seq<char>| TokM::Ident(w),
                                ),
                            decreases words.len() - k,
                        {
                            let ghost d = out@;
                            out.push(Token::Ident(words[k].clone()));
                            proof {
                                lemma_toks_of_push(d, out@.last());
                                assert(ws.take(k as int + 1).map(
                                    |i: int, w: Seq<char>| TokM::Ident(w),
                                ) =~= ws.take(k as int).map(|i: int, w: Seq<char>| TokM::Ident(w)).push(
                                    TokM::Ident(ws[k as int]),
                                ));
                            }
                            k = k + 1;
                        }
                        proof {
                            assert(ws.take(words@.len() as int) =~= ws);
                            assert(toks_of(out@) =~= base + fam_toks(self@));
                        }
                    } else {
                        out.push(Token::QuotedStr(s.clone()));
                        proof {
                            lemma_toks_of_push(old(out)@, out@.last());
                            assert(toks_of(out@) =~= base + fam_toks(self@));
                        }
                    }
                } else {
                    out.push(Token::QuotedStr(s.clone()));
                    proof {
                        lemma_toks_of_push(old(out)@, out@.last());
                        assert(toks_of(out@) =~= base + fam_toks(self@));
                    }
                }
            },
        }
    }
}

impl FontM {
    /// The tokens the shorthand serializes to: style, CSS 2.1 caps, weight
    /// and stretch where they differ from their defaults, then the size,
    /// then `/` and the line height where it differs from its default, then
    /// the comma-separated family list.
    pub open spec fn ser_toks(self, minify: bool) -> Seq<TokM> {
        (if self.style != FontStyle::spec_default() {
            self.style.ser_toks()
        } else {
            seq![]
        }) + (if self.variant_caps != FontVariantCapsCSS2::spec_default() {
            self.variant_caps.ser_toks()
        } else {
            seq![]
        }) + (if self.weight != FontWeight::spec_default() {
            self.weight.ser_toks(minify)
        } else {
            seq![]
        }) + (if self.stretch != FontStretch::spec_default() {
            self.stretch.ser_toks(minify)
        } else {
            seq![]
        }) + self.size.ser_toks() + (if self.line_height != LineHeight::spec_default() {
            seq![TokM::Delim('/')] + self.line_height.ser_toks()
        } else {
            seq![]
        }) + fam_list_toks_from(self.family, 0)
    }
}

impl Font {
    /// Appends the tokens the shorthand serializes to.
    #[verifier::rlimit(60)]
    pub fn to_tokens(&self, minify: bool, out: &mut Vec<Token>)
        ensures
            toks_of(final(out)@) == toks_of(old(out)@) + self@.ser_toks(minify),
    {
        let ghost base = toks_of(out@);
        let ghost pstyle: Seq<TokM> = if self@.style != FontStyle::spec_default() {
            self.style.ser_toks()
        } else {
            seq![]
        };
        let ghost pcaps: Seq<TokM> = if self@.variant_caps != FontVariantCapsCSS2::spec_default() {
            self.variant_caps.ser_toks()
        } else {
            seq![]
        };
        let ghost pweight: Seq<TokM> = if self@.weight != FontWeight::spec_default() {
            self.weight.ser_toks(minify)
        } else {
            seq![]
        };
        let ghost pstretch: Seq<TokM> = if self@.stretch != FontStretch::spec_default() {
            self.stretch.ser_toks(minify)
        } else {
            seq![]
        };
        let ghost plh: Seq<TokM> = if self@.line_height != LineHeight::spec_default() {
            seq![TokM::Delim('/')] + self.line_height.ser_toks()
        } else {
            seq![]
        };
        let ghost mut done: Seq<TokM> = Seq::empty();
        proof {
            assert(base + done =~= base);
        }
        if !self.style.is_default() {
            self.style.to_tokens(out);
        }
        proof {
            if self@.style != FontStyle::spec_default() {
                lemma_tok_concat_assoc(base, done, pstyle);
            } else {
                assert((base + done) + pstyle =~= base + done);
                lemma_tok_concat_assoc(base, done, pstyle);
            }
            done = done + pstyle;
        }
        if !self.variant_caps.is_default() {
            self.variant_caps.to_tokens(out);
        }
        proof {
            if self@.variant_caps != FontVariantCapsCSS2::spec_default() {
                lemma_tok_concat_assoc(base, done, pcaps);
            } else {
                assert((base + done) + pcaps =~= base + done);
                lemma_tok_concat_assoc(base, done, pcaps);
            }
            done = done + pcaps;
        }
        if !self.weight.is_default() {
            self.weight.to_tokens(minify, out);
        }
        proof {
            if self@.weight != FontWeight::spec_default() {
                lemma_tok_concat_assoc(base, done, pweight);
            } else {
                assert((base + done) + pweight =~= base + done);
                lemma_tok_concat_assoc(base, done, pweight);
            }
            done = done + pweight;
        }
        if !self.stretch.is_default() {
            self.stretch.to_tokens(minify, out);
        }
        proof {
            if self@.stretch != FontStretch::spec_default() {
                lemma_tok_concat_assoc(base, done, pstretch);
            } else {
                assert((base + done) + pstretch =~= base + done);
                lemma_tok_concat_assoc(base, done, pstretch);
            }
            done = done + pstretch;
        }
        self.size.to_tokens(out);
        proof {
            lemma_tok_concat_assoc(base, done, self.size.ser_toks());
            done = done + self.size.ser_toks();
        }
        if !self.line_height.is_default() {
            let ghost d = out@;
            out.push(Token::Delim('/'));
            proof {
                lemma_toks_of_push(d, out@.last());
            }
            self.line_height.to_tokens(out);
            proof {
                assert(toks_of(out@) == ((base + done).push(TokM::Delim('/')))
                    + self.line_height.ser_toks());
                assert(((base + done).push(TokM::Delim('/'))) + self.line_height.ser_toks() =~= (
                base + done) + plh);
                lemma_tok_concat_assoc(base, done, plh);
                done = done + plh;
            }
        } else {
            proof {
                assert((base + done) + plh =~= base + done);
                lemma_tok_concat_assoc(base, done, plh);
                done = done + plh;
            }
        }
        let ghost mid = base + done;
        proof {
            assert(toks_of(out@) == mid);
            assert(mid + fam_list_toks_from(self@.family, 0) =~= toks_of(out@)
                + fam_list_toks_from(self@.family, 0));
        }
        let ghost fams = self@.family;
        let mut k: usize = 0;
        while k < self.family.len()
            invariant
                k <= self.family.len(),
                fams == fams_of(self.family@),
                mid + fam_list_toks_from(fams, 0) == toks_of(out@) + fam_list_toks_from(
                    fams,
                    k as int,
                ),
            decreases self.family.len() - k,
        {
            let ghost d0 = toks_of(out@);
            if k > 0 {
                let ghost d = out@;
                out.push(Token::Comma);
                proof {
                    lemma_toks_of_push(d, out@.last());
                }
            }
            self.family[k].to_tokens(out);
            proof {
                assert(fam_list_toks_from(fams, k as int) == (if k > 0 {
                    seq![TokM::Comma]
                } else {
                    Seq::<TokM>::empty()
                }) + fam_toks(fams[k as int]) + fam_list_toks_from(fams, k as int + 1));
                assert(self.family@[k as int]@ == fams[k as int]);
                if k > 0 {
                    assert(toks_of(out@) =~= d0 + (seq![TokM::Comma] + fam_toks(fams[k as int])));
                } else {
                    assert(toks_of(out@) =~= d0 + (Seq::<TokM>::empty() + fam_toks(
                        fams[k as int],
                    )));
                }
                assert(toks_of(out@) + fam_list_toks_from(fams, k as int + 1) =~= d0
                    + fam_list_toks_from(fams, k as int));
            }
            k = k + 1;
        }
        proof {
            assert(fam_list_toks_from(fams, self.family@.len() as int) == Seq::<TokM>::empty());
            assert(toks_of(out@) + fam_list_toks_from(fams, self.family@.len() as int) =~= toks_of(
                out@,
            ));
            assert(self@.ser_toks(minify) == done + fam_list_toks_from(fams, 0));
            lemma_tok_concat_assoc(base, done, fam_list_toks_from(fams, 0));
            assert(toks_of(out@) =~= base + self@.ser_toks(minify));
        }
    }
}


/// Appends the tokens a comma-separated family list serializes to.
pub fn families_to_tokens(v: &Vec<FontFamily>, out: &mut Vec<Token>)
    ensures
        toks_of(final(out)@) == toks_of(old(out)@) + fam_list_toks_from(fams_of(v@), 0),
{
    let ghost base = toks_of(out@);
    let ghost fams = fams_of(v@);
    proof {
        assert(base + fam_list_toks_from(fams, 0) =~= toks_of(out@) + fam_list_toks_from(fams, 0));
    }
    let mut k: usize = 0;
    while k < v.len()
        invariant
            k <= v.len(),
            fams == fams_of(v@),
            base + fam_list_toks_from(fams, 0) == toks_of(out@) + fam_list_toks_from(
                fams,
                k as int,
            ),
        decreases v.len() - k,
    {
        let ghost d0 = toks_of(out@);
        if k > 0 {
            let ghost d = out@;
            out.push(Token::Comma);
            proof {
                lemma_toks_of_push(d, out@.last());
            }
        }
        v[k].to_tokens(out);
        proof {
            assert(v@[k as int]@ == fams[k as int]);
            if k > 0 {
                assert(toks_of(out@) =~= d0 + (seq![TokM::Comma] + fam_toks(fams[k as int])));
            } else {
                assert(toks_of(out@) =~= d0 + (Seq::<TokM>::empty() + fam_toks(fams[k as int])));
            }
            assert(toks_of(out@) + fam_list_toks_from(fams, k as int + 1) =~= d0
                + fam_list_toks_from(fams, k as int));
        }
        k = k + 1;
    }
    proof {
        assert(fam_list_toks_from(fams, v@.len() as int) == Seq::<TokM>::empty());
        assert(toks_of(out@) + fam_list_toks_from(fams, v@.len() as int) =~= toks_of(out@));
    }
}

impl AbsoluteFontWeight {
    /// Writes the CSS text of this value.
    pub fn to_css(&self, dest: &mut Printer)
        ensures
            final(dest).minify == old(dest).minify,
            final(dest).dest@ == old(dest).dest@ + render_toks(
                self.ser_toks(old(dest).minify),
                old(dest).minify,
            ),
    {
        let mut toks: Vec<Token> = Vec::new();
        self.to_tokens(dest.minify, &mut toks);
        proof {
            assert(toks_of(toks@) =~= self.ser_toks(dest.minify));
        }
        dest.write_tokens(&toks);
    }
}

impl FontWeight {
    /// Writes the CSS text of this value.
    pub fn to_css(&self, dest: &mut Printer)
        ensures
            final(dest).minify == old(dest).minify,
            final(dest).dest@ == old(dest).dest@ + render_toks(
                self.ser_toks(old(dest).minify),
                old(dest).minify,
            ),
    {
        let mut toks: Vec<Token> = Vec::new();
        self.to_tokens(dest.minify, &mut toks);
        proof {
            assert(toks_of(toks@) =~= self.ser_toks(dest.minify));
        }
        dest.write_tokens(&toks);
    }
}

impl FontSize {
    /// Writes the CSS text of this value.
    pub fn to_css(&self, dest: &mut Printer)
        ensures
            final(dest).minify == old(dest).minify,
            final(dest).dest@ == old(dest).dest@ + render_toks(
                self.ser_toks(),
                old(dest).minify,
            ),
    {
        let mut toks: Vec<Token> = Vec::new();
        self.to_tokens(&mut toks);
        proof {
            assert(toks_of(toks@) =~= self.ser_toks());
        }
        dest.write_tokens(&toks);
    }
}

impl FontStretch {
    /// Writes the CSS text of this value.
    pub fn to_css(&self, dest: &mut Printer)
        ensures
            final(dest).minify == old(dest).minify,
            final(dest).dest@ == old(dest).dest@ + render_toks(
                self.ser_toks(old(dest).minify),
                old(dest).minify,
            ),
    {
        let mut toks: Vec<Token> = Vec::new();
        self.to_tokens(dest.minify, &mut toks);
        proof {
            assert(toks_of(toks@) =~= self.ser_toks(dest.minify));
        }
        dest.write_tokens(&toks);
    }
}

impl FontFamily {
    /// Writes the CSS text of this family.
    pub fn to_css(&self, dest: &mut Printer)
        ensures
            final(dest).minify == old(dest).minify,
            final(dest).dest@ == old(dest).dest@ + render_toks(
                self.ser_toks(),
                old(dest).minify,
            ),
    {
        let mut toks: Vec<Token> = Vec::new();
        self.to_tokens(&mut toks);
        proof {
            assert(toks_of(toks@) =~= self.ser_toks());
        }
        dest.write_tokens(&toks);
    }
}

impl FontStyle {
    /// Writes the CSS text of this value.
    pub fn to_css(&self, dest: &mut Printer)
        ensures
            final(dest).minify == old(dest).minify,
            final(dest).dest@ == old(dest).dest@ + render_toks(
                self.ser_toks(),
                old(dest).minify,
            ),
    {
        let mut toks: Vec<Token> = Vec::new();
        self.to_tokens(&mut toks);
        proof {
            assert(toks_of(toks@) =~= self.ser_toks());
        }
        dest.write_tokens(&toks);
    }
}

impl FontVariantCaps {
    /// Writes the CSS text of this value.
    pub fn to_css(&self, dest: &mut Printer)
        ensures
            final(dest).minify == old(dest).minify,
            final(dest).dest@ == old(dest).dest@ + render_toks(
                self.ser_toks(),
                old(dest).minify,
            ),
    {
        let mut toks: Vec<Token> = Vec::new();
        self.to_tokens(&mut toks);
        proof {
            assert(toks_of(toks@) =~= self.ser_toks());
        }
        dest.write_tokens(&toks);
    }
}

impl FontVariantCapsCSS2 {
    /// Writes the CSS text of this value.
    pub fn to_css(&self, dest: &mut Printer)
        ensures
            final(dest).minify == old(dest).minify,
            final(dest).dest@ == old(dest).dest@ + render_toks(
                self.ser_toks(),
                old(dest).minify,
            ),
    {
        let mut toks: Vec<Token> = Vec::new();
        self.to_tokens(&mut toks);
        proof {
            assert(toks_of(toks@) =~= self.ser_toks());
        }
        dest.write_tokens(&toks);
    }
}

impl LineHeight {
    /// Writes the CSS text of this value.
    pub fn to_css(&self, dest: &mut Printer)
        ensures
            final(dest).minify == old(dest).minify,
            final(dest).dest@ == old(dest).dest@ + render_toks(
                self.ser_toks(),
                old(dest).minify,
            ),
    {
        let mut toks: Vec<Token> = Vec::new();
        self.to_tokens(&mut toks);
        proof {
            assert(toks_of(toks@) =~= self.ser_toks());
        }
        dest.write_tokens(&toks);
    }
}

impl VerticalAlign {
    /// Writes the CSS text of this value.
    pub fn to_css(&self, dest: &mut Printer)
        ensures
            final(dest).minify == old(dest).minify,
            final(dest).dest@ == old(dest).dest@ + render_toks(
                self.ser_toks(),
                old(dest).minify,
            ),
    {
        let mut toks: Vec<Token> = Vec::new();
        self.to_tokens(&mut toks);
        proof {
            assert(toks_of(toks@) =~= self.ser_toks());
        }
        dest.write_tokens(&toks);
    }
}

impl Font {
    /// Writes the CSS text of the shorthand.
    pub fn to_css(&self, dest: &mut Printer)
        ensures
            final(dest).minify == old(dest).minify,
            final(dest).dest@ == old(dest).dest@ + render_toks(
                self@.ser_toks(old(dest).minify),
                old(dest).minify,
            ),
    {
        let mut toks: Vec<Token> = Vec::new();
        self.to_tokens(dest.minify, &mut toks);
        proof {
            assert(toks_of(toks@) =~= self@.ser_toks(dest.minify));
        }
        dest.write_tokens(&toks);
    }
}

} // verus!






