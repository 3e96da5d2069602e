//! Property tagging: the closed enumeration of property names the engine
//! specializes, and the tagged union carrying each property's parsed value,
//! with a raw fallback for declarations recognized by name only.

use vstd::prelude::*;
use crate::font::{
    fam_list_toks_from, fams_of, families_to_tokens, FamilyM, Font, FontFamily, FontM, FontSize,
    FontStretch, FontStyle, FontVariantCaps, FontWeight, LineHeight, VerticalAlign,
};
use crate::printer::{render_toks, Printer};
use crate::tokens::{lemma_toks_of_push, toks_of, TokM, Token};

verus! {

/// The name of a property the engine knows.
#[derive(Debug, Clone, Copy, PartialEq, Eq, Structural)]
pub enum PropertyId {
    /// The `font-family` property.
    FontFamily,
    /// The `font-size` property.
    FontSize,
    /// The `font-style` property.
    FontStyle,
    /// The `font-weight` property.
    FontWeight,
    /// The `font-stretch` property.
    FontStretch,
    /// The `font-variant-caps` property.
    FontVariantCaps,
    /// The `line-height` property.
    LineHeight,
    /// The `font` shorthand property.
    Font,
    /// The `vertical-align` property.
    VerticalAlign,
}

/// A declaration the engine recognizes by name but does not specialize: its
/// property id and its raw value tokens.
#[derive(Debug, Clone, PartialEq)]
pub struct UnparsedProperty {
    /// The property the declaration names.
    pub property_id: PropertyId,
    /// The raw value tokens.
    pub value: Vec<Token>,
}

/// The mathematical model of an unparsed declaration.
pub struct UnparsedM {
    /// The property the declaration names.
    pub property_id: PropertyId,
    /// The raw value tokens.
    pub value: Seq<TokM>,
}

impl View for UnparsedProperty {
    type V = UnparsedM;

    open spec fn view(&self) -> UnparsedM {
        UnparsedM { property_id: self.property_id, value: toks_of(self.value@) }
    }
}

/// A parsed declaration: one variant per specialized property, and a raw
/// fallback.
#[derive(Debug, Clone, PartialEq)]
pub enum Property {
    /// A `font-family` value list.
    FontFamily(Vec<FontFamily>),
    /// A `font-size` value.
    FontSize(FontSize),
    /// A `font-style` value.
    FontStyle(FontStyle),
    /// A `font-weight` value.
    FontWeight(FontWeight),
    /// A `font-stretch` value.
    FontStretch(FontStretch),
    /// A `font-variant-caps` value.
    FontVariantCaps(FontVariantCaps),
    /// A `line-height` value.
    LineHeight(LineHeight),
    /// A `font` shorthand value.
    Font(Font),
    /// A `vertical-align` value.
    VerticalAlign(VerticalAlign),
    /// A declaration passed through unparsed.
    Unparsed(UnparsedProperty),
}

/// The mathematical model of a parsed declaration.
pub enum PropM {
    /// A `font-family` value list.
    FontFamily(Seq<FamilyM>),
    /// A `font-size` value.
    FontSize(FontSize),
    /// A `font-style` value.
    FontStyle(FontStyle),
    /// A `font-weight` value.
    FontWeight(FontWeight),
    /// A `font-stretch` value.
    FontStretch(FontStretch),
    /// A `font-variant-caps` value.
    FontVariantCaps(FontVariantCaps),
    /// A `line-height` value.
    LineHeight(LineHeight),
    /// A `font` shorthand value.
    Font(FontM),
    /// A `vertical-align` value.
    VerticalAlign(VerticalAlign),
    /// A declaration passed through unparsed.
    Unparsed(UnparsedM),
}

impl View for Property {
    type V = PropM;

    open spec fn view(&self) -> PropM {
        match self {
            Property::FontFamily(v) => PropM::FontFamily(fams_of(v@)),
            Property::FontSize(v) => PropM::FontSize(*v),
            Property::FontStyle(v) => PropM::FontStyle(*v),
            Property::FontWeight(v) => PropM::FontWeight(*v),
            Property::FontStretch(v) => PropM::FontStretch(*v),
            Property::FontVariantCaps(v) => PropM::FontVariantCaps(*v),
            Property::LineHeight(v) => PropM::LineHeight(*v),
            Property::Font(v) => PropM::Font(v@),
            Property::VerticalAlign(v) => PropM::VerticalAlign(*v),
            Property::Unparsed(v) => PropM::Unparsed(v@),
        }
    }
}

/// The model of a declaration list.
pub open spec fn props_of(v: Seq<Property>) -> Seq<PropM> {
    v.map(|i: int, p: Property| p@)
}

pub proof fn lemma_props_of_push(v: Seq<Property>, p: Property)
    ensures
        props_of(v.push(p)) == props_of(v).push(p@),
{
    assert(props_of(v.push(p)) =~= props_of(v).push(p@));
}

/// Copies a family, keeping its model.
pub fn clone_family(f: &FontFamily) -> (r: FontFamily)
    ensures
        r@ == f@,
{
    match f {
        FontFamily::FamilyName(s) => FontFamily::FamilyName(s.clone()),
        FontFamily::Generic(g) => FontFamily::Generic(*g),
    }
}

/// Copies a family list, keeping its model.
pub fn clone_families(v: &Vec<FontFamily>) -> (r: Vec<FontFamily>)
    ensures
        fams_of(r@) == fams_of(v@),
{
    let mut out: Vec<FontFamily> = Vec::new();
    let mut i: usize = 0;
    while i < v.len()
        invariant
            i <= v.len(),
            out@.len() == i,
            forall|j: int| 0 <= j < i ==> out@[j]@ == v@[j]@,
        decreases v.len() - i,
    {
        out.push(clone_family(&v[i]));
        i = i + 1;
    }
    proof {
        assert(fams_of(out@) =~= fams_of(v@));
    }
    out
}

/// Copies a token, keeping its model.
pub fn clone_token(t: &Token) -> (r: Token)
    ensures
        r@ == t@,
{
    match t {
        Token::Ident(s) => Token::Ident(s.clone()),
        Token::QuotedStr(s) => Token::QuotedStr(s.clone()),
        Token::Number(n) => Token::Number(*n),
        Token::Percent(n) => Token::Percent(*n),
        Token::Dim(n, u) => Token::Dim(*n, u.clone()),
        Token::Delim(c) => Token::Delim(*c),
        Token::Comma => Token::Comma,
    }
}

/// Copies a token list, keeping its model.
pub fn clone_tokens(v: &Vec<Token>) -> (r: Vec<Token>)
    ensures
        toks_of(r@) == toks_of(v@),
{
    let mut out: Vec<Token> = Vec::new();
    let mut i: usize = 0;
    while i < v.len()
        invariant
            i <= v.len(),
            out@.len() == i,
            forall|j: int| 0 <= j < i ==> out@[j]@ == v@[j]@,
        decreases v.len() - i,
    {
        out.push(clone_token(&v[i]));
        i = i + 1;
    }
    proof {
        assert(toks_of(out@) =~= toks_of(v@));
    }
    out
}

/// Copies a font value, keeping its model.
pub fn clone_font(f: &Font) -> (r: Font)
    ensures
        r@ == f@,
        f.wf() ==> r.wf(),
{
    Font {
        family: clone_families(&f.family),
        size: f.size,
        style: f.style,
        weight: f.weight,
        stretch: f.stretch,
        line_height: f.line_height,
        variant_caps: f.variant_caps,
    }
}

impl Property {
    /// Copies a declaration, keeping its model.
    pub fn duplicate(&self) -> (r: Property)
        ensures
            r@ == self@,
    {
        match self {
            Property::FontFamily(v) => Property::FontFamily(clone_families(v)),
            Property::FontSize(v) => Property::FontSize(*v),
            Property::FontStyle(v) => Property::FontStyle(*v),
            Property::FontWeight(v) => Property::FontWeight(*v),
            Property::FontStretch(v) => Property::FontStretch(*v),
            Property::FontVariantCaps(v) => Property::FontVariantCaps(*v),
            Property::LineHeight(v) => Property::LineHeight(*v),
            Property::Font(v) => Property::Font(clone_font(v)),
            Property::VerticalAlign(v) => Property::VerticalAlign(*v),
            Property::Unparsed(v) => Property::Unparsed(
                UnparsedProperty { property_id: v.property_id, value: clone_tokens(&v.value) },
            ),
        }
    }
}


impl PropertyId {
    /// The property's name.
    pub open spec fn spec_name(&self) -> Seq<char> {
        match self {
            PropertyId::FontFamily => "font-family"@,
            PropertyId::FontSize => "font-size"@,
            PropertyId::FontStyle => "font-style"@,
            PropertyId::FontWeight => "font-weight"@,
            PropertyId::FontStretch => "font-stretch"@,
            PropertyId::FontVariantCaps => "font-variant-caps"@,
            PropertyId::LineHeight => "line-height"@,
            PropertyId::Font => "font"@,
            PropertyId::VerticalAlign => "vertical-align"@,
        }
    }

    /// The property's name.
    pub fn name_str(&self) -> (r: &'static str)
        ensures
            r@ == self.spec_name(),
    {
        match self {
            PropertyId::FontFamily => "font-family",
            PropertyId::FontSize => "font-size",
            PropertyId::FontStyle => "font-style",
            PropertyId::FontWeight => "font-weight",
            PropertyId::FontStretch => "font-stretch",
            PropertyId::FontVariantCaps => "font-variant-caps",
            PropertyId::LineHeight => "line-height",
            PropertyId::Font => "font",
            PropertyId::VerticalAlign => "vertical-align",
        }
    }
}

/// The property a declaration sets.
pub open spec fn prop_id_of(p: PropM) -> PropertyId {
    match p {
        PropM::FontFamily(v) => PropertyId::FontFamily,
        PropM::FontSize(v) => PropertyId::FontSize,
        PropM::FontStyle(v) => PropertyId::FontStyle,
        PropM::FontWeight(v) => PropertyId::FontWeight,
        PropM::FontStretch(v) => PropertyId::FontStretch,
        PropM::FontVariantCaps(v) => PropertyId::FontVariantCaps,
        PropM::LineHeight(v) => PropertyId::LineHeight,
        PropM::Font(v) => PropertyId::Font,
        PropM::VerticalAlign(v) => PropertyId::VerticalAlign,
        PropM::Unparsed(u) => u.property_id,
    }
}

/// The tokens a declaration's value serializes to.
pub open spec fn prop_val_toks(p: PropM, minify: bool) -> Seq<TokM> {
    match p {
        PropM::FontFamily(fams) => fam_list_toks_from(fams, 0),
        PropM::FontSize(v) => v.ser_toks(),
        PropM::FontStyle(v) => v.ser_toks(),
        PropM::FontWeight(v) => v.ser_toks(minify),
        PropM::FontStretch(v) => v.ser_toks(minify),
        PropM::FontVariantCaps(v) => v.ser_toks(),
        PropM::LineHeight(v) => v.ser_toks(),
        PropM::Font(f) => f.ser_toks(minify),
        PropM::VerticalAlign(v) => v.ser_toks(),
        PropM::Unparsed(u) => u.value,
    }
}

/// The CSS text of one declaration: its name, a colon, and its value.
pub open spec fn prop_css(p: PropM, minify: bool) -> Seq<char> {
    prop_id_of(p).spec_name() + (if minify {
        ":"@
    } else {
        ": "@
    }) + render_toks(prop_val_toks(p, minify), minify)
}

/// Appends copies of the given tokens.
pub fn extend_tokens(out: &mut Vec<Token>, v: &Vec<Token>)
    ensures
        toks_of(final(out)@) == toks_of(old(out)@) + toks_of(v@),
{
    let ghost base = toks_of(out@);
    let mut i: usize = 0;
    while i < v.len()
        invariant
            i <= v.len(),
            toks_of(out@) == base + toks_of(v@).take(i as int),
        decreases v.len() - i,
    {
        let ghost d = out@;
        out.push(clone_token(&v[i]));
        proof {
            lemma_toks_of_push(d, out@.last());
            assert(base + toks_of(v@).take(i as int + 1) =~= (base + toks_of(v@).take(
                i as int,
            )).push(v@[i as int]@));
        }
        i = i + 1;
    }
    proof {
        assert(toks_of(v@).take(v@.len() as int) =~= toks_of(v@));
    }
}

impl Property {
    /// The property this declaration sets.
    pub fn property_id(&self) -> (r: PropertyId)
        ensures
            r == prop_id_of(self@),
    {
        match self {
            Property::FontFamily(v) => PropertyId::FontFamily,
            Property::FontSize(v) => PropertyId::FontSize,
            Property::FontStyle(v) => PropertyId::FontStyle,
            Property::FontWeight(v) => PropertyId::FontWeight,
            Property::FontStretch(v) => PropertyId::FontStretch,
            Property::FontVariantCaps(v) => PropertyId::FontVariantCaps,
            Property::LineHeight(v) => PropertyId::LineHeight,
            Property::Font(v) => PropertyId::Font,
            Property::VerticalAlign(v) => PropertyId::VerticalAlign,
            Property::Unparsed(u) => u.property_id,
        }
    }

    /// Appends the tokens this declaration's value serializes to.
    pub fn to_tokens(&self, minify: bool, out: &mut Vec<Token>)
        ensures
            toks_of(final(out)@) == toks_of(old(out)@) + prop_val_toks(self@, minify),
    {
        match self {
            Property::FontFamily(v) => {
                families_to_tokens(v, out);
            },
            Property::FontSize(v) => {
                v.to_tokens(out);
            },
            Property::FontStyle(v) => {
                v.to_tokens(out);
            },
            Property::FontWeight(v) => {
                v.to_tokens(minify, out);
            },
            Property::FontStretch(v) => {
                v.to_tokens(minify, out);
            },
            Property::FontVariantCaps(v) => {
                v.to_tokens(out);
            },
            Property::LineHeight(v) => {
                v.to_tokens(out);
            },
            Property::Font(f) => {
                f.to_tokens(minify, out);
            },
            Property::VerticalAlign(v) => {
                v.to_tokens(out);
            },
            Property::Unparsed(u) => {
                extend_tokens(out, &u.value);
            },
        }
    }

    /// Writes the CSS text of this declaration: its name, a colon (with a
    /// space when not minifying), and its value.
    pub fn to_css(&self, dest: &mut Printer)
        ensures
            final(dest).minify == old(dest).minify,
            final(dest).dest@ == old(dest).dest@ + prop_css(self@, old(dest).minify),
    {
        let ghost base = dest.dest@;
        dest.write_str(self.property_id().name_str());
        if dest.minify {
            dest.write_str(":");
        } else {
            dest.write_str(": ");
        }
        let mut toks: Vec<Token> = Vec::new();
        self.to_tokens(dest.minify, &mut toks);
        proof {
            assert(toks_of(toks@) =~= prop_val_toks(self@, dest.minify));
        }
        dest.write_tokens(&toks);
        proof {
            assert(dest.dest@ =~= base + prop_css(self@, dest.minify));
        }
    }
}

} // verus!

