//! The text destination serialization writes into: it renders token
//! sequences as CSS text, minimal or verbose as the minify mode asks.

use vstd::prelude::*;
use crate::text::{escape_ident, escape_string, ident_escaped, push_char, string_escaped};
use crate::tokens::{toks_of, TokM, Token};

verus! {

/// The character for one decimal digit.
pub open spec fn digit_char(d: int) -> char {
    if d == 0 {
        '0'
    } else if d == 1 {
        '1'
    } else if d == 2 {
        '2'
    } else if d == 3 {
        '3'
    } else if d == 4 {
        '4'
    } else if d == 5 {
        '5'
    } else if d == 6 {
        '6'
    } else if d == 7 {
        '7'
    } else if d == 8 {
        '8'
    } else {
        '9'
    }
}

/// The decimal digits of a natural number, most significant first.
pub open spec fn dec_str(n: nat) -> Seq<char>
    decreases n,
{
    if n < 10 {
        seq![digit_char(n as int)]
    } else {
        dec_str(n / 10) + seq![digit_char((n % 10) as int)]
    }
}

/// The up-to-three fractional digits of a value in thousandths, with
/// trailing zeros dropped.
pub open spec fn frac_str(fr: int) -> Seq<char> {
    let d1 = fr / 100;
    let d2 = (fr / 10) % 10;
    let d3 = fr % 10;
    if d3 != 0 {
        seq![digit_char(d1), digit_char(d2), digit_char(d3)]
    } else if d2 != 0 {
        seq![digit_char(d1), digit_char(d2)]
    } else {
        seq![digit_char(d1)]
    }
}

/// The text of a numeric value in thousandths: a minus sign where negative,
/// the integer part (dropped when minifying a pure fraction), and the
/// fraction after a dot where there is one.
pub open spec fn fmt_millis(m: int, minify: bool) -> Seq<char> {
    let a = if m < 0 {
        -m
    } else {
        m
    };
    let ip = a / 1000;
    let fr = a % 1000;
    (if m < 0 {
        seq!['-']
    } else {
        seq![]
    }) + (if minify && ip == 0 && fr != 0 {
        seq![]
    } else {
        dec_str(ip as nat)
    }) + (if fr != 0 {
        seq!['.'] + frac_str(fr)
    } else {
        seq![]
    })
}

/// The text one token renders to.
pub open spec fn tok_text(t: TokM, minify: bool) -> Seq<char> {
    match t {
        TokM::Ident(s) => ident_escaped(s),
        TokM::QuotedStr(s) => string_escaped(s),
        TokM::Number(n) => fmt_millis(n, minify),
        TokM::Percent(n) => fmt_millis(n, minify) + seq!['%'],
        TokM::Dim(n, u) => fmt_millis(n, minify) + u,
        TokM::Delim(c) => seq![c],
        TokM::Comma => seq![','],
    }
}

/// The separator between two neighbouring tokens: nothing before a comma, a
/// space elsewhere, but the space around a delimiter or after a comma is
/// dropped when minifying.
pub open spec fn sep_text(prev: TokM, cur: TokM, minify: bool) -> Seq<char> {
    if cur is Comma {
        seq![]
    } else if cur is Delim || prev is Delim || prev is Comma {
        if minify {
            seq![]
        } else {
            seq![' ']
        }
    } else {
        seq![' ']
    }
}

/// The text a token sequence renders to, from the token at `i` on.
pub open spec fn render_from(ts: Seq<TokM>, i: int, minify: bool) -> Seq<char>
    decreases ts.len() - i,
{
    if 0 <= i < ts.len() {
        (if i > 0 {
            sep_text(ts[i - 1], ts[i], minify)
        } else {
            seq![]
        }) + tok_text(ts[i], minify) + render_from(ts, i + 1, minify)
    } else {
        seq![]
    }
}

/// The text a token sequence renders to.
pub open spec fn render_toks(ts: Seq<TokM>, minify: bool) -> Seq<char> {
    render_from(ts, 0, minify)
}

/// Writes one decimal digit.
fn push_digit(d: u64, out: &mut String)
    requires
        d < 10,
    ensures
        final(out)@ == old(out)@.push(digit_char(d as int)),
{
    let c: char = match d {
        0 => '0',
        1 => '1',
        2 => '2',
        3 => '3',
        4 => '4',
        5 => '5',
        6 => '6',
        7 => '7',
        8 => '8',
        _ => '9',
    };
    push_char(out, c);
}

/// Writes the decimal digits of a natural number.
fn push_u64(n: u64, out: &mut String)
    ensures
        final(out)@ == old(out)@ + dec_str(n as nat),
    decreases n,
{
    if n >= 10 {
        push_u64(n / 10, out);
    }
    push_digit(n % 10, out);
    proof {
        assert(final(out)@ =~= old(out)@ + dec_str(n as nat));
    }
}

/// Writes a numeric value in thousandths.
pub fn push_millis(m: i64, minify: bool, out: &mut String)
    ensures
        final(out)@ == old(out)@ + fmt_millis(m as int, minify),
{
    if m < 0 {
        push_char(out, '-');
    }
    let a: u64 = if m < 0 {
        if m == i64::MIN {
            9223372036854775808u64
        } else {
            (-m) as u64
        }
    } else {
        m as u64
    };
    proof {
        assert(a as int == (if (m as int) < 0 { -(m as int) } else { m as int }));
    }
    let ip: u64 = a / 1000;
    let fr: u64 = a % 1000;
    if !(minify && ip == 0 && fr != 0) {
        push_u64(ip, out);
    }
    if fr != 0 {
        push_char(out, '.');
        let d1 = fr / 100;
        let d2 = (fr / 10) % 10;
        let d3 = fr % 10;
        if d3 != 0 {
            push_digit(d1, out);
            push_digit(d2, out);
            push_digit(d3, out);
        } else if d2 != 0 {
            push_digit(d1, out);
            push_digit(d2, out);
        } else {
            push_digit(d1, out);
        }
    }
    proof {
        assert(final(out)@ =~= old(out)@ + fmt_millis(m as int, minify));
    }
}

/// A serialization destination: the text written so far, and whether the
/// shortest forms are preferred.
#[derive(Debug)]
pub struct Printer {
    /// The text written so far.
    pub dest: String,
    /// Whether the shortest semantically equivalent forms are preferred
    /// over the literal ones.
    pub minify: bool,
}

impl Printer {
    /// Makes an empty printer.
    pub fn new(minify: bool) -> (r: Printer)
        ensures
            r.dest@.len() == 0,
            r.minify == minify,
    {
        Printer { dest: String::new(), minify }
    }

    /// Appends literal text.
    pub fn write_str(&mut self, s: &str)
        ensures
            final(self).dest@ == old(self).dest@ + s@,
            final(self).minify == old(self).minify,
    {
        self.dest.append(s);
    }

    /// Hands out the text written so far.
    pub fn finish(self) -> (r: String)
        ensures
            r@ == self.dest@,
    {
        self.dest
    }

    /// Writes the text one token renders to.
    fn write_tok_text(&mut self, tok: &Token)
        ensures
            final(self).dest@ == old(self).dest@ + tok_text(tok@, old(self).minify),
            final(self).minify == old(self).minify,
    {
        let ghost mid = self.dest@;
        match tok {
            Token::Ident(s) => {
                let e = escape_ident(s.as_str());
                self.dest.append(e.as_str());
            },
            Token::QuotedStr(s) => {
                let e = escape_string(s.as_str());
                self.dest.append(e.as_str());
            },
            Token::Number(n) => {
                push_millis(*n, self.minify, &mut self.dest);
            },
            Token::Percent(n) => {
                push_millis(*n, self.minify, &mut self.dest);
                push_char(&mut self.dest, '%');
            },
            Token::Dim(n, u) => {
                push_millis(*n, self.minify, &mut self.dest);
                self.dest.append(u.as_str());
            },
            Token::Delim(c) => {
                push_char(&mut self.dest, *c);
            },
            Token::Comma => {
                push_char(&mut self.dest, ',');
            },
        }
        proof {
            assert(self.dest@ =~= mid + tok_text(tok@, self.minify));
        }
    }

    /// Writes the separator two neighbouring tokens ask for.
    fn write_sep(&mut self, prev: &Token, cur: &Token)
        ensures
            final(self).dest@ == old(self).dest@ + sep_text(prev@, cur@, old(self).minify),
            final(self).minify == old(self).minify,
    {
        let ghost before = self.dest@;
        let cur_comma = matches!(cur, Token::Comma);
        let cur_delim = matches!(cur, Token::Delim(_));
        let prev_delim = matches!(prev, Token::Delim(_));
        let prev_comma = matches!(prev, Token::Comma);
        if cur_comma {
        } else if cur_delim || prev_delim || prev_comma {
            if !self.minify {
                push_char(&mut self.dest, ' ');
            }
        } else {
            push_char(&mut self.dest, ' ');
        }
        proof {
            assert(self.dest@ =~= before + sep_text(prev@, cur@, self.minify));
        }
    }

    /// Renders a token sequence, with the separators its neighbouring
    /// tokens ask for.
    pub fn write_tokens(&mut self, toks: &Vec<Token>)
        ensures
            final(self).dest@ == old(self).dest@ + render_toks(
                toks_of(toks@),
                old(self).minify,
            ),
            final(self).minify == old(self).minify,
    {
        let ghost ts = toks_of(toks@);
        let ghost base = self.dest@;
        let mut i: usize = 0;
        while i < toks.len()
            invariant
                i <= toks.len(),
                ts == toks_of(toks@),
                self.minify == old(self).minify,
                base + render_from(ts, 0, self.minify) == self.dest@ + render_from(
                    ts,
                    i as int,
                    self.minify,
                ),
            decreases toks.len() - i,
        {
            let ghost before = self.dest@;
            if i > 0 {
                self.write_sep(&toks[i - 1], &toks[i]);
            }
            self.write_tok_text(&toks[i]);
            proof {
                assert(self.dest@ + render_from(ts, i as int + 1, self.minify) =~= before
                    + render_from(ts, i as int, self.minify));
            }
            i = i + 1;
        }
        proof {
            assert(self.dest@ =~= self.dest@ + render_from(ts, toks@.len() as int, self.minify));
        }
    }
}

} // verus!
