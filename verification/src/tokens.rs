//! The token stream a declaration's value is parsed from, and the cursor the
//! value parsers walk over it.
//!
//! An external tokenizer splits raw CSS text into these tokens; whitespace is
//! already dropped. Numeric tokens carry their value in thousandths, so that
//! `12.5` arrives as `12500`.

use vstd::prelude::*;

verus! {

/// Numeric token values are bounded to this many thousandths in magnitude, so
/// that arithmetic on them cannot overflow an `i64`.
pub const NUM_LIMIT: i64 = 1_000_000_000_000_000;

/// How a parse failed.
#[derive(Debug, Clone, Copy, PartialEq, Eq, Structural)]
pub enum ErrorKind {
    /// A value grammar rejected the token at the current position.
    UnexpectedToken,
    /// The input was well tokenized but semantically invalid for the grammar.
    InvalidDeclaration,
}

/// A parse failure: its kind, and the token position it was noticed at.
#[derive(Debug, Clone, Copy, PartialEq, Eq, Structural)]
pub struct ParserError {
    /// The kind of failure.
    pub kind: ErrorKind,
    /// The position of the cursor when the failure was noticed.
    pub position: usize,
}

/// One CSS token of a declaration's value.
#[derive(Debug, Clone, PartialEq)]
pub enum Token {
    /// An identifier.
    Ident(String),
    /// A quoted string, without its quotes.
    QuotedStr(String),
    /// A plain number, in thousandths.
    Number(i64),
    /// A percentage, in thousandths of a percent.
    Percent(i64),
    /// A dimension: a value in thousandths, and its unit.
    Dim(i64, String),
    /// A single delimiter character.
    Delim(char),
    /// A comma.
    Comma,
}

/// The mathematical model of a token.
pub enum TokM {
    /// An identifier.
    Ident(Seq<char>),
    /// A quoted string, without its quotes.
    QuotedStr(Seq<char>),
    /// A plain number, in thousandths.
    Number(int),
    /// A percentage, in thousandths of a percent.
    Percent(int),
    /// A dimension: a value in thousandths, and its unit.
    Dim(int, Seq<char>),
    /// A single delimiter character.
    Delim(char),
    /// A comma.
    Comma,
}

impl View for Token {
    type V = TokM;

    open spec fn view(&self) -> TokM {
        match self {
            Token::Ident(s) => TokM::Ident(s@),
            Token::QuotedStr(s) => TokM::QuotedStr(s@),
            Token::Number(n) => TokM::Number(*n as int),
            Token::Percent(n) => TokM::Percent(*n as int),
            Token::Dim(n, u) => TokM::Dim(*n as int, u@),
            Token::Delim(c) => TokM::Delim(*c),
            Token::Comma => TokM::Comma,
        }
    }
}

/// Whether a token's numeric value, if it has one, lies within `NUM_LIMIT`.
pub open spec fn wf_tok(t: TokM) -> bool {
    match t {
        TokM::Number(n) => -(NUM_LIMIT as int) <= n <= NUM_LIMIT as int,
        TokM::Percent(n) => -(NUM_LIMIT as int) <= n <= NUM_LIMIT as int,
        TokM::Dim(n, _) => -(NUM_LIMIT as int) <= n <= NUM_LIMIT as int,
        _ => true,
    }
}

/// Whether every token of a stream is well formed.
pub open spec fn wf_toks(ts: Seq<TokM>) -> bool {
    forall|i: int| 0 <= i < ts.len() ==> wf_tok(#[trigger] ts[i])
}

/// The model of a token sequence.
pub open spec fn toks_of(v: Seq<Token>) -> Seq<TokM> {
    v.map(|i: int, t: Token| t@)
}

pub proof fn lemma_toks_of_push(v: Seq<Token>, t: Token)
    ensures
        toks_of(v.push(t)) == toks_of(v).push(t@),
{
    assert(toks_of(v.push(t)) =~= toks_of(v).push(t@));
}

/// A cursor over the token stream of one declaration's value. Parsers advance
/// `pos`; a failed alternative restores it, so alternatives can be attempted
/// speculatively.
pub struct Cursor {
    /// The tokens of the declaration's value.
    pub tokens: Vec<Token>,
    /// The current position.
    pub pos: usize,
}

impl Cursor {
    /// The model of the token stream.
    pub open spec fn toks(&self) -> Seq<TokM> {
        toks_of(self.tokens@)
    }

    /// The cursor is inside the stream and every token is well formed.
    pub open spec fn wf(&self) -> bool {
        self.pos <= self.tokens@.len() && wf_toks(self.toks())
    }

    /// Makes a cursor at the start of a token stream.
    pub fn new(tokens: Vec<Token>) -> (r: Cursor)
        requires
            wf_toks(tokens@.map(|i: int, t: Token| t@)),
        ensures
            r.wf(),
            r.toks() == tokens@.map(|i: int, t: Token| t@),
            r.pos == 0,
    {
        Cursor { tokens, pos: 0 }
    }

    /// Whether the whole stream has been consumed.
    pub fn is_exhausted(&self) -> (r: bool)
        ensures
            r == (self.pos >= self.toks().len()),
    {
        self.pos >= self.tokens.len()
    }

    /// An `UnexpectedToken` error at the current position.
    pub fn unexpected(&self) -> (r: ParserError)
        ensures
            r.kind == ErrorKind::UnexpectedToken,
            r.position == self.pos,
    {
        ParserError { kind: ErrorKind::UnexpectedToken, position: self.pos }
    }

    /// Consumes an identifier token and returns its text.
    pub fn expect_ident(&mut self) -> (r: Result<String, ParserError>)
        requires
            old(self).wf(),
        ensures
            final(self).wf(),
            final(self).toks() == old(self).toks(),
            match r {
                Ok(s) => old(self).pos < old(self).toks().len() && old(self).toks()[old(
                    self,
                ).pos as int] == TokM::Ident(s@) && final(self).pos == old(self).pos + 1,
                Err(e) => final(self).pos == old(self).pos && e.kind == ErrorKind::UnexpectedToken
                    && e.position == old(self).pos && !(old(self).pos < old(self).toks().len() && old(self).toks()[old(
                    self,
                ).pos as int] is Ident),
            },
    {
        if self.pos < self.tokens.len() {
            match &self.tokens[self.pos] {
                Token::Ident(s) => {
                    let out = s.clone();
                    self.pos = self.pos + 1;
                    Ok(out)
                },
                _ => Err(self.unexpected()),
            }
        } else {
            Err(self.unexpected())
        }
    }

    /// Consumes a quoted-string token and returns its text.
    pub fn expect_string(&mut self) -> (r: Result<String, ParserError>)
        requires
            old(self).wf(),
        ensures
            final(self).wf(),
            final(self).toks() == old(self).toks(),
            match r {
                Ok(s) => old(self).pos < old(self).toks().len() && old(self).toks()[old(
                    self,
                ).pos as int] == TokM::QuotedStr(s@) && final(self).pos == old(self).pos + 1,
                Err(e) => final(self).pos == old(self).pos && e.kind == ErrorKind::UnexpectedToken
                    && e.position == old(self).pos && !(old(self).pos < old(self).toks().len() && old(self).toks()[old(
                    self,
                ).pos as int] is QuotedStr),
            },
    {
        if self.pos < self.tokens.len() {
            match &self.tokens[self.pos] {
                Token::QuotedStr(s) => {
                    let out = s.clone();
                    self.pos = self.pos + 1;
                    Ok(out)
                },
                _ => Err(self.unexpected()),
            }
        } else {
            Err(self.unexpected())
        }
    }

    /// Consumes a number token and returns its value in thousandths.
    pub fn expect_number(&mut self) -> (r: Result<i64, ParserError>)
        requires
            old(self).wf(),
        ensures
            final(self).wf(),
            final(self).toks() == old(self).toks(),
            match r {
                Ok(n) => old(self).pos < old(self).toks().len() && old(self).toks()[old(
                    self,
                ).pos as int] == TokM::Number(n as int) && final(self).pos == old(self).pos + 1
                    && -NUM_LIMIT <= n <= NUM_LIMIT,
                Err(e) => final(self).pos == old(self).pos && e.kind == ErrorKind::UnexpectedToken
                    && e.position == old(self).pos && !(old(self).pos < old(self).toks().len() && old(self).toks()[old(
                    self,
                ).pos as int] is Number),
            },
    {
        if self.pos < self.tokens.len() {
            match &self.tokens[self.pos] {
                Token::Number(n) => {
                    let out = *n;
                    assert(wf_tok(self.toks()[self.pos as int]));
                    self.pos = self.pos + 1;
                    Ok(out)
                },
                _ => Err(self.unexpected()),
            }
        } else {
            Err(self.unexpected())
        }
    }

    /// Consumes a percentage token and returns its value in thousandths of a
    /// percent.
    pub fn expect_percentage(&mut self) -> (r: Result<i64, ParserError>)
        requires
            old(self).wf(),
        ensures
            final(self).wf(),
            final(self).toks() == old(self).toks(),
            match r {
                Ok(n) => old(self).pos < old(self).toks().len() && old(self).toks()[old(
                    self,
                ).pos as int] == TokM::Percent(n as int) && final(self).pos == old(self).pos + 1
                    && -NUM_LIMIT <= n <= NUM_LIMIT,
                Err(e) => final(self).pos == old(self).pos && e.kind == ErrorKind::UnexpectedToken
                    && e.position == old(self).pos && !(old(self).pos < old(self).toks().len() && old(self).toks()[old(
                    self,
                ).pos as int] is Percent),
            },
    {
        if self.pos < self.tokens.len() {
            match &self.tokens[self.pos] {
                Token::Percent(n) => {
                    let out = *n;
                    assert(wf_tok(self.toks()[self.pos as int]));
                    self.pos = self.pos + 1;
                    Ok(out)
                },
                _ => Err(self.unexpected()),
            }
        } else {
            Err(self.unexpected())
        }
    }

    /// Consumes a dimension token and returns its value in thousandths and
    /// its unit.
    pub fn expect_dimension(&mut self) -> (r: Result<(i64, String), ParserError>)
        requires
            old(self).wf(),
        ensures
            final(self).wf(),
            final(self).toks() == old(self).toks(),
            match r {
                Ok(p) => old(self).pos < old(self).toks().len() && old(self).toks()[old(
                    self,
                ).pos as int] == TokM::Dim(p.0 as int, p.1@) && final(self).pos == old(self).pos + 1
                    && -NUM_LIMIT <= p.0 <= NUM_LIMIT,
                Err(e) => final(self).pos == old(self).pos && e.kind == ErrorKind::UnexpectedToken
                    && e.position == old(self).pos && !(old(self).pos < old(self).toks().len() && old(self).toks()[old(
                    self,
                ).pos as int] is Dim),
            },
    {
        if self.pos < self.tokens.len() {
            match &self.tokens[self.pos] {
                Token::Dim(n, u) => {
                    let out = (*n, u.clone());
                    assert(wf_tok(self.toks()[self.pos as int]));
                    self.pos = self.pos + 1;
                    Ok(out)
                },
                _ => Err(self.unexpected()),
            }
        } else {
            Err(self.unexpected())
        }
    }

    /// Consumes the given delimiter token.
    pub fn expect_delim(&mut self, c: char) -> (r: Result<(), ParserError>)
        requires
            old(self).wf(),
        ensures
            final(self).wf(),
            final(self).toks() == old(self).toks(),
            match r {
                Ok(u) => old(self).pos < old(self).toks().len() && old(self).toks()[old(
                    self,
                ).pos as int] == TokM::Delim(c) && final(self).pos == old(self).pos + 1,
                Err(e) => final(self).pos == old(self).pos && e.kind == ErrorKind::UnexpectedToken
                    && e.position == old(self).pos && !(old(self).pos < old(self).toks().len() && old(self).toks()[old(
                    self,
                ).pos as int] == TokM::Delim(c)),
            },
    {
        if self.pos < self.tokens.len() {
            match &self.tokens[self.pos] {
                Token::Delim(d) => {
                    if *d == c {
                        self.pos = self.pos + 1;
                        Ok(())
                    } else {
                        Err(self.unexpected())
                    }
                },
                _ => Err(self.unexpected()),
            }
        } else {
            Err(self.unexpected())
        }
    }

    /// Consumes a comma token.
    pub fn expect_comma(&mut self) -> (r: Result<(), ParserError>)
        requires
            old(self).wf(),
        ensures
            final(self).wf(),
            final(self).toks() == old(self).toks(),
            match r {
                Ok(u) => old(self).pos < old(self).toks().len() && old(self).toks()[old(
                    self,
                ).pos as int] == TokM::Comma && final(self).pos == old(self).pos + 1,
                Err(e) => final(self).pos == old(self).pos && e.kind == ErrorKind::UnexpectedToken
                    && e.position == old(self).pos && !(old(self).pos < old(self).toks().len() && old(self).toks()[old(
                    self,
                ).pos as int] is Comma),
            },
    {
        if self.pos < self.tokens.len() {
            match &self.tokens[self.pos] {
                Token::Comma => {
                    self.pos = self.pos + 1;
                    Ok(())
                },
                _ => Err(self.unexpected()),
            }
        } else {
            Err(self.unexpected())
        }
    }
}

} // verus!
