//! Leaf value types the font grammars compose: percentages, angles, and
//! length-or-percentage values. Numeric values are carried in thousandths of
//! their unit, so `62.5%` is `Percentage { millis: 62500 }`.

use vstd::prelude::*;
use crate::text::{char_eq_ic, seq_eq_ic, str_eq_ic};
use crate::tokens::{Cursor, ErrorKind, ParserError, TokM, NUM_LIMIT};

verus! {

/// Whether a value in thousandths lies within the numeric bound.
pub open spec fn wf_millis(n: int) -> bool {
    -(NUM_LIMIT as int) <= n <= NUM_LIMIT as int
}

/// A percentage, in thousandths of a percent: `62.5%` has `millis == 62500`.
#[derive(Debug, Clone, Copy, PartialEq, Eq, Structural)]
pub struct Percentage {
    /// Thousandths of a percent.
    pub millis: i64,
}

/// An angle in degrees, in thousandths: `14deg` has `millis == 14000`.
#[derive(Debug, Clone, Copy, PartialEq, Eq, Structural)]
pub struct Angle {
    /// Thousandths of a degree.
    pub millis: i64,
}

/// A length unit the engine recognizes.
#[derive(Debug, Clone, Copy, PartialEq, Eq, Structural)]
pub enum LengthUnit {
    /// Pixels.
    Px,
    /// The element's font size.
    Em,
    /// The root element's font size.
    Rem,
    /// Points.
    Pt,
    /// Hundredths of the viewport width.
    Vw,
    /// Hundredths of the viewport height.
    Vh,
}

/// An explicit length: a value in thousandths and its unit.
#[derive(Debug, Clone, Copy, PartialEq, Eq, Structural)]
pub struct Length {
    /// Thousandths of the unit.
    pub millis: i64,
    /// The unit.
    pub unit: LengthUnit,
}

/// A length or a percentage.
#[derive(Debug, Clone, Copy, PartialEq, Eq, Structural)]
pub enum LengthPercentage {
    /// An explicit length.
    Dimension(Length),
    /// A percentage.
    Percentage(Percentage),
}

/// The spelling of a length unit.
pub open spec fn unit_spelling(u: LengthUnit) -> Seq<char> {
    match u {
        LengthUnit::Px => "px"@,
        LengthUnit::Em => "em"@,
        LengthUnit::Rem => "rem"@,
        LengthUnit::Pt => "pt"@,
        LengthUnit::Vw => "vw"@,
        LengthUnit::Vh => "vh"@,
    }
}

/// The unit whose spelling matches the text, ASCII-case-insensitively.
pub open spec fn unit_from_seq(s: Seq<char>) -> Option<LengthUnit> {
    if seq_eq_ic(s, "px"@) {
        Some(LengthUnit::Px)
    } else if seq_eq_ic(s, "em"@) {
        Some(LengthUnit::Em)
    } else if seq_eq_ic(s, "rem"@) {
        Some(LengthUnit::Rem)
    } else if seq_eq_ic(s, "pt"@) {
        Some(LengthUnit::Pt)
    } else if seq_eq_ic(s, "vw"@) {
        Some(LengthUnit::Vw)
    } else if seq_eq_ic(s, "vh"@) {
        Some(LengthUnit::Vh)
    } else {
        None
    }
}

/// The spelling of a length unit.
pub fn unit_str(u: LengthUnit) -> (r: &'static str)
    ensures
        r@ == unit_spelling(u),
{
    match u {
        LengthUnit::Px => "px",
        LengthUnit::Em => "em",
        LengthUnit::Rem => "rem",
        LengthUnit::Pt => "pt",
        LengthUnit::Vw => "vw",
        LengthUnit::Vh => "vh",
    }
}

/// Decides the unit named by the text, ASCII-case-insensitively.
pub fn unit_from_str(s: &str) -> (r: Option<LengthUnit>)
    ensures
        r == unit_from_seq(s@),
{
    if str_eq_ic(s, "px") {
        Some(LengthUnit::Px)
    } else if str_eq_ic(s, "em") {
        Some(LengthUnit::Em)
    } else if str_eq_ic(s, "rem") {
        Some(LengthUnit::Rem)
    } else if str_eq_ic(s, "pt") {
        Some(LengthUnit::Pt)
    } else if str_eq_ic(s, "vw") {
        Some(LengthUnit::Vw)
    } else if str_eq_ic(s, "vh") {
        Some(LengthUnit::Vh)
    } else {
        None
    }
}

impl Percentage {
    /// Whether the value lies within the numeric bound.
    pub open spec fn wf(&self) -> bool {
        wf_millis(self.millis as int)
    }

    /// What parsing a percentage from the stream yields: the value and the
    /// next position, or nothing where the grammar rejects.
    pub open spec fn spec_parse(toks: Seq<TokM>, pos: int) -> Option<(Percentage, int)> {
        if 0 <= pos < toks.len() {
            match toks[pos] {
                TokM::Percent(n) => Some((Percentage { millis: n as i64 }, pos + 1)),
                _ => None,
            }
        } else {
            None
        }
    }

    /// The token a percentage serializes to.
    pub open spec fn ser_toks(&self) -> Seq<TokM> {
        seq![TokM::Percent(self.millis as int)]
    }

    /// Parses a percentage.
    pub fn parse(cur: &mut Cursor) -> (r: Result<Percentage, ParserError>)
        requires
            old(cur).wf(),
        ensures
            final(cur).wf(),
            final(cur).toks() == old(cur).toks(),
            match r {
                Ok(v) => Self::spec_parse(old(cur).toks(), old(cur).pos as int) == Some(
                    (v, final(cur).pos as int),
                ) && v.wf() && old(cur).pos < final(cur).pos,
                Err(e) => Self::spec_parse(old(cur).toks(), old(cur).pos as int) is None
                    && final(cur).pos == old(cur).pos && e.kind == ErrorKind::UnexpectedToken
                    && e.position == old(cur).pos,
            },
    {
        match cur.expect_percentage() {
            Ok(n) => Ok(Percentage { millis: n }),
            Err(e) => Err(e),
        }
    }
}

impl Angle {
    /// Whether the value lies within the numeric bound.
    pub open spec fn wf(&self) -> bool {
        wf_millis(self.millis as int)
    }

    /// What parsing an angle from the stream yields: a dimension whose unit
    /// is `deg`, ASCII-case-insensitively.
    pub open spec fn spec_parse(toks: Seq<TokM>, pos: int) -> Option<(Angle, int)> {
        if 0 <= pos < toks.len() {
            match toks[pos] {
                TokM::Dim(n, u) => if seq_eq_ic(u, "deg"@) {
                    Some((Angle { millis: n as i64 }, pos + 1))
                } else {
                    None
                },
                _ => None,
            }
        } else {
            None
        }
    }

    /// The token an angle serializes to.
    pub open spec fn ser_toks(&self) -> Seq<TokM> {
        seq![TokM::Dim(self.millis as int, "deg"@)]
    }

    /// Parses an angle.
    pub fn parse(cur: &mut Cursor) -> (r: Result<Angle, ParserError>)
        requires
            old(cur).wf(),
        ensures
            final(cur).wf(),
            final(cur).toks() == old(cur).toks(),
            match r {
                Ok(v) => Self::spec_parse(old(cur).toks(), old(cur).pos as int) == Some(
                    (v, final(cur).pos as int),
                ) && v.wf() && old(cur).pos < final(cur).pos,
                Err(e) => Self::spec_parse(old(cur).toks(), old(cur).pos as int) is None
                    && final(cur).pos == old(cur).pos && e.kind == ErrorKind::UnexpectedToken
                    && e.position == old(cur).pos,
            },
    {
        let start = cur.pos;
        match cur.expect_dimension() {
            Ok((n, u)) => {
                if str_eq_ic(u.as_str(), "deg") {
                    Ok(Angle { millis: n })
                } else {
                    cur.pos = start;
                    Err(cur.unexpected())
                }
            },
            Err(e) => Err(e),
        }
    }
}

impl LengthPercentage {
    /// Whether the value lies within the numeric bound.
    pub open spec fn wf(&self) -> bool {
        match self {
            LengthPercentage::Dimension(l) => wf_millis(l.millis as int),
            LengthPercentage::Percentage(p) => p.wf(),
        }
    }

    /// What parsing a length-or-percentage from the stream yields: a
    /// dimension with a recognized length unit, or a percentage.
    pub open spec fn spec_parse(toks: Seq<TokM>, pos: int) -> Option<(LengthPercentage, int)> {
        if 0 <= pos < toks.len() {
            match toks[pos] {
                TokM::Dim(n, u) => match unit_from_seq(u) {
                    Some(unit) => Some(
                        (LengthPercentage::Dimension(Length { millis: n as i64, unit }), pos + 1),
                    ),
                    None => None,
                },
                TokM::Percent(n) => Some(
                    (LengthPercentage::Percentage(Percentage { millis: n as i64 }), pos + 1),
                ),
                _ => None,
            }
        } else {
            None
        }
    }

    /// The token a length-or-percentage serializes to.
    pub open spec fn ser_toks(&self) -> Seq<TokM> {
        match self {
            LengthPercentage::Dimension(l) => seq![
                TokM::Dim(l.millis as int, unit_spelling(l.unit)),
            ],
            LengthPercentage::Percentage(p) => p.ser_toks(),
        }
    }

    /// Parses a length or percentage.
    pub fn parse(cur: &mut Cursor) -> (r: Result<LengthPercentage, ParserError>)
        requires
            old(cur).wf(),
        ensures
            final(cur).wf(),
            final(cur).toks() == old(cur).toks(),
            match r {
                Ok(v) => Self::spec_parse(old(cur).toks(), old(cur).pos as int) == Some(
                    (v, final(cur).pos as int),
                ) && v.wf() && old(cur).pos < final(cur).pos,
                Err(e) => Self::spec_parse(old(cur).toks(), old(cur).pos as int) is None
                    && final(cur).pos == old(cur).pos && e.kind == ErrorKind::UnexpectedToken
                    && e.position == old(cur).pos,
            },
    {
        let start = cur.pos;
        match cur.expect_dimension() {
            Ok((n, u)) => {
                match unit_from_str(u.as_str()) {
                    Some(unit) => Ok(LengthPercentage::Dimension(Length { millis: n, unit })),
                    None => {
                        cur.pos = start;
                        Err(cur.unexpected())
                    },
                }
            },
            Err(_) => {
                match cur.expect_percentage() {
                    Ok(n) => Ok(LengthPercentage::Percentage(Percentage { millis: n })),
                    Err(e) => Err(e),
                }
            },
        }
    }
}

/// Shows that a sequence differing from another at one position is not its
/// ASCII-case-insensitive equal.
pub proof fn lemma_not_eq_ic(a: Seq<char>, b: Seq<char>, i: int)
    requires
        0 <= i < a.len(),
        i < b.len(),
        !char_eq_ic(a[i], b[i]),
    ensures
        !seq_eq_ic(a, b),
{
    if seq_eq_ic(a, b) {
        assert(char_eq_ic(a[i], b[i]));
    }
}

/// A unit's spelling names that unit and no other.
pub proof fn lemma_unit_roundtrip(u: LengthUnit)
    ensures
        unit_from_seq(unit_spelling(u)) == Some(u),
{
    reveal_strlit("px");
    reveal_strlit("em");
    reveal_strlit("rem");
    reveal_strlit("pt");
    reveal_strlit("vw");
    reveal_strlit("vh");
    crate::text::lemma_seq_eq_ic_refl(unit_spelling(u));
    match u {
        LengthUnit::Px => {
        },
        LengthUnit::Em => {
            lemma_not_eq_ic("em"@, "px"@, 0);
        },
        LengthUnit::Rem => {
        },
        LengthUnit::Pt => {
            lemma_not_eq_ic("pt"@, "px"@, 1);
            lemma_not_eq_ic("pt"@, "em"@, 0);
        },
        LengthUnit::Vw => {
            lemma_not_eq_ic("vw"@, "px"@, 0);
            lemma_not_eq_ic("vw"@, "em"@, 0);
            lemma_not_eq_ic("vw"@, "pt"@, 0);
        },
        LengthUnit::Vh => {
            lemma_not_eq_ic("vh"@, "px"@, 0);
            lemma_not_eq_ic("vh"@, "em"@, 0);
            lemma_not_eq_ic("vh"@, "pt"@, 0);
            lemma_not_eq_ic("vh"@, "vw"@, 1);
        },
    }
}

} // verus!
