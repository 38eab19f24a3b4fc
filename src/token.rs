use vstd::prelude::*;

verus! {

/// The bracket kind of a delimited group.
#[derive(Clone, Copy, Debug, PartialEq, Eq, Structural)]
pub enum Delim {
    Paren,
    Brace,
    Bracket,
}

/// One token of a flattened macro input. A delimited group is flattened into
/// its `Open` token, its contents and its `Close` token; a token's position is
/// its index in the sequence.
#[derive(Clone, Debug)]
pub enum Token {
    Ident(String),
    /// A punctuation character, and whether it is joined to the next one
    /// (the first `:` of `::`).
    Punct(char, bool),
    /// A string literal: its source text and its value.
    Str(String, String),
    /// Any other literal, by its source text.
    Lit(String),
    Open(Delim),
    Close(Delim),
}

pub enum TokenV {
    Ident(Seq<char>),
    Punct(char, bool),
    Str(Seq<char>, Seq<char>),
    Lit(Seq<char>),
    Open(Delim),
    Close(Delim),
}

impl View for Token {
    type V = TokenV;

    open spec fn view(&self) -> TokenV {
        match self {
            Token::Ident(s) => TokenV::Ident(s@),
            Token::Punct(c, j) => TokenV::Punct(*c, *j),
            Token::Str(raw, v) => TokenV::Str(raw@, v@),
            Token::Lit(s) => TokenV::Lit(s@),
            Token::Open(d) => TokenV::Open(*d),
            Token::Close(d) => TokenV::Close(*d),
        }
    }
}

pub open spec fn toks(v: Seq<Token>) -> Seq<TokenV> {
    v.map_values(|t: Token| t@)
}

pub open spec fn open_text(d: Delim) -> Seq<char> {
    match d {
        Delim::Paren => seq!['('],
        Delim::Brace => seq!['{'],
        Delim::Bracket => seq!['['],
    }
}

pub open spec fn close_text(d: Delim) -> Seq<char> {
    match d {
        Delim::Paren => seq![')'],
        Delim::Brace => seq!['}'],
        Delim::Bracket => seq![']'],
    }
}

/// The source text of a token followed by its separator: a space, or nothing
/// after a punctuation character joined to the next.
pub open spec fn token_text(t: TokenV) -> Seq<char> {
    match t {
        TokenV::Ident(s) => s + seq![' '],
        TokenV::Punct(c, joint) => if joint { seq![c] } else { seq![c, ' '] },
        TokenV::Str(raw, _) => raw + seq![' '],
        TokenV::Lit(raw) => raw + seq![' '],
        TokenV::Open(d) => open_text(d) + seq![' '],
        TokenV::Close(d) => close_text(d) + seq![' '],
    }
}

/// The source text of a token sequence.
pub open spec fn render(s: Seq<TokenV>) -> Seq<char>
    decreases s.len(),
{
    if s.len() == 0 {
        Seq::empty()
    } else {
        render(s.drop_last()) + token_text(s.last())
    }
}

/// Relies on `String::push`: appends one character.
#[verifier::external_body]
pub(crate) fn push_char(out: &mut String, c: char)
    ensures
        final(out)@ == old(out)@.push(c),
{
    out.push(c);
}

pub(crate) fn append_str(out: &mut String, s: &str)
    ensures
        final(out)@ == old(out)@ + s@,
{
    out.append(s);
}

fn append_delim(out: &mut String, d: Delim, open: bool)
    ensures
        final(out)@ == old(out)@ + (if open { open_text(d) } else { close_text(d) }),
{
    let c = match (d, open) {
        (Delim::Paren, true) => '(',
        (Delim::Brace, true) => '{',
        (Delim::Bracket, true) => '[',
        (Delim::Paren, false) => ')',
        (Delim::Brace, false) => '}',
        (Delim::Bracket, false) => ']',
    };
    push_char(out, c);
    proof {
        assert(old(out)@.push(c) =~= old(out)@ + (if open { open_text(d) } else { close_text(d) }));
    }
}

/// Appends the text of one token.
pub fn append_token(out: &mut String, t: &Token)
    ensures
        final(out)@ == old(out)@ + token_text(t@),
{
    let ghost start = out@;
    match t {
        Token::Ident(s) => {
            append_str(out, s.as_str());
            push_char(out, ' ');
        },
        Token::Punct(c, joint) => {
            push_char(out, *c);
            if !*joint {
                push_char(out, ' ');
            }
        },
        Token::Str(raw, _) => {
            append_str(out, raw.as_str());
            push_char(out, ' ');
        },
        Token::Lit(raw) => {
            append_str(out, raw.as_str());
            push_char(out, ' ');
        },
        Token::Open(d) => {
            append_delim(out, *d, true);
            push_char(out, ' ');
        },
        Token::Close(d) => {
            append_delim(out, *d, false);
            push_char(out, ' ');
        },
    }
    assert(out@ =~= start + token_text(t@));
}

/// Appends the source text of a token sequence.
pub fn append_tokens(out: &mut String, ts: &Vec<Token>)
    ensures
        final(out)@ == old(out)@ + render(toks(ts@)),
{
    let ghost start = out@;
    let mut i: usize = 0;
    while i < ts.len()
        invariant
            i <= ts.len(),
            out@ == start + render(toks(ts@.take(i as int))),
        decreases ts.len() - i,
    {
        append_token(out, &ts[i]);
        proof {
            let s = toks(ts@.take(i as int + 1));
            assert(s.drop_last() =~= toks(ts@.take(i as int)));
            assert(s.last() == ts@[i as int]@);
        }
        i = i + 1;
    }
    assert(ts@.take(ts.len() as int) =~= ts@);
}

/// The source text of a token sequence.
pub fn render_tokens(ts: &Vec<Token>) -> (r: String)
    ensures
        r@ == render(toks(ts@)),
{
    let mut out = String::new();
    append_tokens(&mut out, ts);
    out
}

/// Whether two texts are equal, character by character.
pub fn same_text(a: &str, b: &str) -> (r: bool)
    ensures
        r == (a@ == b@),
{
    let n = a.unicode_len();
    if n != b.unicode_len() {
        return false;
    }
    let mut i: usize = 0;
    while i < n
        invariant
            n == a@.len(),
            n == b@.len(),
            i <= n,
            forall|k: int| 0 <= k < i ==> a@[k] == b@[k],
        decreases n - i,
    {
        if a.get_char(i) != b.get_char(i) {
            return false;
        }
        i = i + 1;
    }
    assert(a@ =~= b@);
    true
}

} // verus!

verus! {

impl Token {
    /// A copy of the token.
    pub fn copy(&self) -> (r: Token)
        ensures
            r@ == self@,
    {
        match self {
            Token::Ident(s) => Token::Ident(s.clone()),
            Token::Punct(c, j) => Token::Punct(*c, *j),
            Token::Str(raw, v) => Token::Str(raw.clone(), v.clone()),
            Token::Lit(s) => Token::Lit(s.clone()),
            Token::Open(d) => Token::Open(*d),
            Token::Close(d) => Token::Close(*d),
        }
    }
}

/// A copy of the tokens from `from` up to `to`.
pub fn copy_range(ts: &Vec<Token>, from: usize, to: usize) -> (r: Vec<Token>)
    requires
        from <= to <= ts.len(),
    ensures
        toks(r@) == toks(ts@).subrange(from as int, to as int),
{
    let mut r: Vec<Token> = Vec::new();
    let mut i = from;
    while i < to
        invariant
            from <= i <= to <= ts.len(),
            toks(r@) == toks(ts@).subrange(from as int, i as int),
        decreases to - i,
    {
        let t = ts[i].copy();
        let ghost before = toks(r@);
        r.push(t);
        assert(toks(r@) =~= before.push(t@));
        assert(toks(ts@).subrange(from as int, i as int + 1) =~= toks(ts@).subrange(
            from as int,
            i as int,
        ).push(ts@[i as int]@));
        i = i + 1;
    }
    r
}

} // verus!
