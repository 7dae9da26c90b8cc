//! The token model: a flat sequence in which a delimited group is an opening
//! token, the group's tokens, and a closing token.

use vstd::prelude::*;
use vstd::string::StringExecFns;

verus! {

/// The three visible delimiters.
#[derive(Clone, Copy, Debug, PartialEq, Eq, Structural)]
pub enum Delim {
    Paren,
    Bracket,
    Brace,
}

/// One token of a declaration.
#[derive(Clone, Debug)]
pub enum Token {
    /// An identifier or keyword, with its text.
    Ident(String),
    /// A literal, with its text as written.
    Literal(String),
    /// One punctuation character; the flag says that the next token follows
    /// it without a space (`'a`, `->`, `::`).
    Punct(char, bool),
    /// The opening of a delimited group.
    Open(Delim),
    /// The closing of a delimited group.
    Close(Delim),
}

/// The character that opens a group.
pub open spec fn open_char(d: Delim) -> char {
    match d {
        Delim::Paren => '(',
        Delim::Bracket => '[',
        Delim::Brace => '{',
    }
}

/// The character that closes a group.
pub open spec fn close_char(d: Delim) -> char {
    match d {
        Delim::Paren => ')',
        Delim::Bracket => ']',
        Delim::Brace => '}',
    }
}

/// The text of one token: what it was written as, then a space unless the
/// token is joined to the next.
pub open spec fn token_text(t: Token) -> Seq<char> {
    match t {
        Token::Ident(s) => s@.push(' '),
        Token::Literal(s) => s@.push(' '),
        Token::Punct(c, joint) => if joint {
            seq![c]
        } else {
            seq![c, ' ']
        },
        Token::Open(d) => seq![open_char(d), ' '],
        Token::Close(d) => seq![close_char(d), ' '],
    }
}

/// The text of the tokens from `lo` up to `hi`, in order.
pub open spec fn render(toks: Seq<Token>, lo: int, hi: int) -> Seq<char>
    decreases hi - lo,
{
    if hi <= lo || hi > toks.len() || lo < 0 {
        Seq::empty()
    } else {
        render(toks, lo, hi - 1) + token_text(toks[hi - 1])
    }
}

/// The token is the punctuation character `c`.
pub open spec fn is_punct(t: Token, c: char) -> bool {
    t matches Token::Punct(p, _) && p == c
}

/// The token opens a group delimited by `d`.
pub open spec fn is_open(t: Token, d: Delim) -> bool {
    t matches Token::Open(e) && e == d
}

/// The token closes a group delimited by `d`.
pub open spec fn is_close(t: Token, d: Delim) -> bool {
    t matches Token::Close(e) && e == d
}

/// Where the group closes that was opened before `pos`, `depth` further
/// groups being open at `pos`.
pub open spec fn scan_close(toks: Seq<Token>, pos: int, depth: int) -> Option<int>
    decreases toks.len() - pos,
{
    if pos < 0 || pos >= toks.len() {
        None
    } else {
        match toks[pos] {
            Token::Open(_) => scan_close(toks, pos + 1, depth + 1),
            Token::Close(_) => if depth <= 0 {
                Some(pos)
            } else {
                scan_close(toks, pos + 1, depth - 1)
            },
            _ => scan_close(toks, pos + 1, depth),
        }
    }
}

/// The closing token of the group that `toks[open]` opens, if the group is
/// closed by a delimiter of the same kind.
pub open spec fn close_of(toks: Seq<Token>, open: int) -> Option<int> {
    if 0 <= open < toks.len() {
        match toks[open] {
            Token::Open(d) => match scan_close(toks, open + 1, 0) {
                Some(c) => if is_close(toks[c], d) {
                    Some(c)
                } else {
                    None
                },
                None => None,
            },
            _ => None,
        }
    } else {
        None
    }
}

/// A vector's length is a machine integer.
pub proof fn lemma_len_fits(toks: &Vec<Token>)
    ensures
        toks@.len() <= usize::MAX,
{
    assert(toks@.len() == toks.len());
}

/// `String::push`: the character is added at the end.
#[verifier::external_body]
fn push_char(s: &mut String, c: char)
    ensures
        final(s)@ == old(s)@.push(c),
{
    s.push(c)
}

/// Whether the punctuation character `c` stands at `pos`.
pub fn punct_at(toks: &Vec<Token>, pos: usize, c: char) -> (r: bool)
    ensures
        r == (pos < toks@.len() && is_punct(toks@[pos as int], c)),
{
    if pos < toks.len() {
        match &toks[pos] {
            Token::Punct(p, _) => *p == c,
            _ => false,
        }
    } else {
        false
    }
}

/// Whether a group delimited by `d` opens at `pos`.
pub fn open_at(toks: &Vec<Token>, pos: usize, d: Delim) -> (r: bool)
    ensures
        r == (pos < toks@.len() && is_open(toks@[pos as int], d)),
{
    if pos < toks.len() {
        match &toks[pos] {
            Token::Open(e) => *e == d,
            _ => false,
        }
    } else {
        false
    }
}

/// Writes one token's text at the end of `out`.
pub fn push_token(out: &mut String, t: &Token)
    ensures
        final(out)@ == old(out)@ + token_text(*t),
{
    match t {
        Token::Ident(s) => {
            out.append(s.as_str());
            push_char(out, ' ');
            assert(final(out)@ =~= old(out)@ + token_text(*t));
        },
        Token::Literal(s) => {
            out.append(s.as_str());
            push_char(out, ' ');
            assert(final(out)@ =~= old(out)@ + token_text(*t));
        },
        Token::Punct(c, joint) => {
            push_char(out, *c);
            if !*joint {
                push_char(out, ' ');
            }
            assert(final(out)@ =~= old(out)@ + token_text(*t));
        },
        Token::Open(d) => {
            let c: char = match d {
                Delim::Paren => '(',
                Delim::Bracket => '[',
                Delim::Brace => '{',
            };
            push_char(out, c);
            push_char(out, ' ');
            assert(final(out)@ =~= old(out)@ + token_text(*t));
        },
        Token::Close(d) => {
            let c: char = match d {
                Delim::Paren => ')',
                Delim::Bracket => ']',
                Delim::Brace => '}',
            };
            push_char(out, c);
            push_char(out, ' ');
            assert(final(out)@ =~= old(out)@ + token_text(*t));
        },
    }
}

/// The text of the tokens from `lo` up to `hi`.
pub fn render_range(toks: &Vec<Token>, lo: usize, hi: usize) -> (out: String)
    requires
        lo <= hi <= toks@.len(),
    ensures
        out@ == render(toks@, lo as int, hi as int),
{
    let mut out = String::new();
    let mut i: usize = lo;
    while i < hi
        invariant
            lo <= i <= hi <= toks@.len(),
            out@ == render(toks@, lo as int, i as int),
        decreases hi - i,
    {
        push_token(&mut out, &toks[i]);
        i += 1;
    }
    out
}

/// The closing token of the group opened at `open`.
pub fn find_close(toks: &Vec<Token>, open: usize) -> (r: Option<usize>)
    ensures
        match r {
            Some(c) => close_of(toks@, open as int) == Some(c as int) && open < c < toks@.len(),
            None => close_of(toks@, open as int).is_none(),
        },
{
    if open >= toks.len() {
        return None;
    }
    let d: Delim = match &toks[open] {
        Token::Open(d) => *d,
        _ => { return None; },
    };
    assert(toks@[open as int] == Token::Open(d));
    let mut i: usize = open + 1;
    let mut depth: usize = 0;
    while i < toks.len()
        invariant
            open < i <= toks@.len(),
            depth <= i,
            toks@[open as int] == Token::Open(d),
            scan_close(toks@, open + 1, 0) == scan_close(toks@, i as int, depth as int),
        decreases toks@.len() - i,
    {
        match &toks[i] {
            Token::Open(_) => {
                depth += 1;
            },
            Token::Close(e) => {
                if depth == 0 {
                    assert(scan_close(toks@, i as int, 0) == Some(i as int));
                    if *e == d {
                        return Some(i);
                    }
                    return None;
                }
                depth -= 1;
            },
            _ => {},
        }
        i += 1;
    }
    None
}

} // verus!
