use vstd::prelude::*;
use crate::error::{ErrorV, MacroError, SyntaxError, SyntaxErrorV};
use crate::method::{HttpMethod, upper_of, verb_of_upper};
use crate::model::{EndpointDef, EndpointV, HttpProviderDef, ProviderV, StrLit, endpoints_view};
use crate::token::{Delim, Token, TokenV, copy_range, same_text, toks};

verus! {

pub open spec fn is_punct(t: TokenV, c: char) -> bool {
    match t {
        TokenV::Punct(d, _) => d == c,
        _ => false,
    }
}

/// Whether the `>` at `i` closes an arrow `->` rather than angle brackets.
pub open spec fn is_arrow_head(s: Seq<TokenV>, i: int) -> bool {
    i > 0 && s[i - 1] == TokenV::Punct('-', true)
}

/// The end of a type reference that starts at `i`: the first `,` outside
/// any group or angle brackets, the first unmatched closing delimiter, or the
/// end of the tokens.
pub open spec fn type_end(s: Seq<TokenV>, i: int, groups: nat, angles: nat) -> int
    decreases s.len() - i,
{
    if i < 0 || i >= s.len() {
        s.len() as int
    } else {
        match s[i] {
            TokenV::Open(_) => type_end(s, i + 1, groups + 1, angles),
            TokenV::Close(_) => if groups == 0 {
                i
            } else {
                type_end(s, i + 1, (groups - 1) as nat, angles)
            },
            TokenV::Punct(c, _) => if groups > 0 {
                type_end(s, i + 1, groups, angles)
            } else if c == ',' && angles == 0 {
                i
            } else if c == '<' {
                type_end(s, i + 1, groups, angles + 1)
            } else if c == '>' && angles > 0 && !is_arrow_head(s, i) {
                type_end(s, i + 1, groups, (angles - 1) as nat)
            } else {
                type_end(s, i + 1, groups, angles)
            },
            _ => type_end(s, i + 1, groups, angles),
        }
    }
}

pub proof fn lemma_type_end_bounds(s: Seq<TokenV>, i: int, groups: nat, angles: nat)
    requires
        0 <= i <= s.len(),
    ensures
        i <= type_end(s, i, groups, angles) <= s.len(),
    decreases s.len() - i,
{
    if i < s.len() {
        match s[i] {
            TokenV::Open(_) => lemma_type_end_bounds(s, i + 1, groups + 1, angles),
            TokenV::Close(_) => if groups > 0 {
                lemma_type_end_bounds(s, i + 1, (groups - 1) as nat, angles)
            },
            TokenV::Punct(c, _) => if groups > 0 {
                lemma_type_end_bounds(s, i + 1, groups, angles)
            } else if c == ',' && angles == 0 {
            } else if c == '<' {
                lemma_type_end_bounds(s, i + 1, groups, angles + 1)
            } else if c == '>' && angles > 0 && !is_arrow_head(s, i) {
                lemma_type_end_bounds(s, i + 1, groups, (angles - 1) as nat)
            } else {
                lemma_type_end_bounds(s, i + 1, groups, angles)
            },
            _ => lemma_type_end_bounds(s, i + 1, groups, angles),
        }
    }
}

/// The end of the type reference that starts at `i`.
pub fn scan_type(ts: &Vec<Token>, i: usize) -> (r: usize)
    requires
        i <= ts.len(),
    ensures
        r == type_end(toks(ts@), i as int, 0, 0),
        i <= r <= ts.len(),
{
    let ghost s = toks(ts@);
    proof {
        lemma_type_end_bounds(s, i as int, 0, 0);
    }
    let mut j = i;
    let mut groups: usize = 0;
    let mut angles: usize = 0;
    while j < ts.len()
        invariant
            s == toks(ts@),
            i <= j <= ts.len(),
            groups <= j,
            angles <= j,
            type_end(s, i as int, 0, 0) == type_end(s, j as int, groups as nat, angles as nat),
        decreases ts.len() - j,
    {
        assert(s[j as int] == ts@[j as int]@);
        match &ts[j] {
            Token::Open(_) => {
                groups = groups + 1;
            },
            Token::Close(_) => {
                if groups == 0 {
                    return j;
                }
                groups = groups - 1;
            },
            Token::Punct(c, _) => {
                if groups > 0 {
                } else if *c == ',' && angles == 0 {
                    return j;
                } else if *c == '<' {
                    angles = angles + 1;
                } else if *c == '>' && angles > 0 {
                    let arrow = j > 0 && match &ts[j - 1] {
                        Token::Punct(p, joint) => *p == '-' && *joint,
                        _ => false,
                    };
                    proof {
                        if j > 0 {
                            assert(s[j - 1] == ts@[j - 1]@);
                        }
                    }
                    if !arrow {
                        angles = angles - 1;
                    }
                }
            },
            _ => {},
        }
        j = j + 1;
    }
    j
}

} // verus!

verus! {

/// The fields of an endpoint block read so far; a repeated field keeps its
/// last value.
pub struct FieldsV {
    pub path: Option<(Seq<char>, Seq<char>)>,
    pub method: Option<HttpMethod>,
    pub fn_name: Option<Seq<char>>,
    pub req: Option<Seq<TokenV>>,
    pub res: Option<Seq<TokenV>>,
    pub headers: Option<Seq<TokenV>>,
    pub query_params: Option<Seq<TokenV>>,
    pub path_params: Option<Seq<TokenV>>,
    pub trait_impl: Option<Seq<TokenV>>,
}

pub open spec fn no_fields() -> FieldsV {
    FieldsV {
        path: None,
        method: None,
        fn_name: None,
        req: None,
        res: None,
        headers: None,
        query_params: None,
        path_params: None,
        trait_impl: None,
    }
}

pub open spec fn syn_err(k: SyntaxErrorV, at: int) -> ErrorV {
    ErrorV::Syn(k, at as nat)
}

/// Whether a name is one of the fields that take a type reference.
pub open spec fn is_type_field(name: Seq<char>) -> bool {
    name == "req"@ || name == "res"@ || name == "headers"@ || name == "query_params"@ || name
        == "path_params"@ || name == "trait_impl"@
}

pub open spec fn set_type_field(f: FieldsV, name: Seq<char>, t: Seq<TokenV>) -> FieldsV {
    if name == "req"@ {
        FieldsV { req: Some(t), ..f }
    } else if name == "res"@ {
        FieldsV { res: Some(t), ..f }
    } else if name == "headers"@ {
        FieldsV { headers: Some(t), ..f }
    } else if name == "query_params"@ {
        FieldsV { query_params: Some(t), ..f }
    } else if name == "path_params"@ {
        FieldsV { path_params: Some(t), ..f }
    } else {
        FieldsV { trait_impl: Some(t), ..f }
    }
}

/// Reads a verb at `j`: an identifier that is one of the four verbs once
/// upper-cased.
pub open spec fn parse_method(s: Seq<TokenV>, j: int) -> Result<HttpMethod, ErrorV> {
    if 0 <= j < s.len() && s[j] is Ident {
        match verb_of_upper(upper_of(s[j]->Ident_0)) {
            Some(m) => Ok(m),
            None => Err(syn_err(SyntaxErrorV::UnsupportedMethod(s[j]->Ident_0), j)),
        }
    } else {
        Err(syn_err(SyntaxErrorV::ExpectedIdent, j))
    }
}

/// Reads the value of field `name` (written at `at`) from `j` on: the fields
/// with it recorded, and the position after it.
pub open spec fn parse_value(s: Seq<TokenV>, name: Seq<char>, at: int, j: int, f: FieldsV) -> Result<
    (FieldsV, int),
    ErrorV,
> {
    if name == "path"@ {
        if 0 <= j < s.len() && s[j] is Str {
            Ok((FieldsV { path: Some((s[j]->Str_0, s[j]->Str_1)), ..f }, j + 1))
        } else {
            Err(syn_err(SyntaxErrorV::ExpectedString, j))
        }
    } else if name == "method"@ {
        match parse_method(s, j) {
            Ok(m) => Ok((FieldsV { method: Some(m), ..f }, j + 1)),
            Err(e) => Err(e),
        }
    } else if name == "fn_name"@ {
        if 0 <= j < s.len() && s[j] is Ident {
            Ok((FieldsV { fn_name: Some(s[j]->Ident_0), ..f }, j + 1))
        } else {
            Err(syn_err(SyntaxErrorV::ExpectedIdent, j))
        }
    } else if is_type_field(name) {
        let e = type_end(s, j, 0, 0);
        if e <= j {
            Err(syn_err(SyntaxErrorV::ExpectedType, j))
        } else {
            Ok((set_type_field(f, name, s.subrange(j, e)), e))
        }
    } else {
        Err(syn_err(SyntaxErrorV::UnexpectedField, at))
    }
}

/// Reads the fields of an endpoint block from `i` up to its closing
/// delimiter: the fields, and the position of that delimiter.
pub open spec fn parse_fields(s: Seq<TokenV>, i: int, f: FieldsV) -> Result<(FieldsV, int), ErrorV>
    decreases s.len() - i,
{
    if i < 0 || i >= s.len() {
        Err(syn_err(SyntaxErrorV::UnexpectedToken, i))
    } else if s[i] is Close {
        Ok((f, i))
    } else if !(s[i] is Ident) {
        Err(syn_err(SyntaxErrorV::ExpectedIdent, i))
    } else if !(i + 1 < s.len() && is_punct(s[i + 1], ':')) {
        Err(syn_err(SyntaxErrorV::ExpectedColon, i + 1))
    } else {
        match parse_value(s, s[i]->Ident_0, i, i + 2, f) {
            Err(e) => Err(e),
            Ok((g, k)) => if k <= i {
                Err(syn_err(SyntaxErrorV::UnexpectedToken, k))
            } else if k < s.len() && is_punct(s[k], ',') {
                parse_fields(s, k + 1, g)
            } else if k < s.len() && s[k] is Close {
                parse_fields(s, k, g)
            } else {
                Err(syn_err(SyntaxErrorV::ExpectedComma, k))
            },
        }
    }
}

/// Reads an endpoint block that starts at `i`: the endpoint, and the position
/// after the block. `method` and `res` must be present.
pub open spec fn parse_endpoint(s: Seq<TokenV>, i: int) -> Result<(EndpointV, int), ErrorV> {
    if !(0 <= i < s.len() && s[i] == TokenV::Open(Delim::Brace)) {
        Err(syn_err(SyntaxErrorV::ExpectedBraces, i))
    } else {
        match parse_fields(s, i + 1, no_fields()) {
            Err(e) => Err(e),
            Ok((f, c)) => if f.method is None {
                Err(syn_err(SyntaxErrorV::MissingMethod, i))
            } else if f.res is None {
                Err(syn_err(SyntaxErrorV::MissingRes, i))
            } else {
                Ok(
                    (
                        EndpointV {
                            path: f.path,
                            method: f.method->0,
                            fn_name: f.fn_name,
                            req: f.req,
                            res: f.res->0,
                            headers: f.headers,
                            query_params: f.query_params,
                            path_params: f.path_params,
                            trait_impl: f.trait_impl,
                            at: i as nat,
                        },
                        c + 1,
                    ),
                )
            },
        }
    }
}

/// Reads endpoint blocks, separated by commas, from `i` up to the closing
/// delimiter of the list: the endpoints, and the position of that delimiter.
pub open spec fn parse_endpoints(s: Seq<TokenV>, i: int, acc: Seq<EndpointV>) -> Result<
    (Seq<EndpointV>, int),
    ErrorV,
>
    decreases s.len() - i,
{
    if i < 0 || i >= s.len() {
        Err(syn_err(SyntaxErrorV::UnexpectedToken, i))
    } else if s[i] is Close {
        Ok((acc, i))
    } else {
        match parse_endpoint(s, i) {
            Err(e) => Err(e),
            Ok((ep, k)) => if k <= i {
                Err(syn_err(SyntaxErrorV::UnexpectedToken, k))
            } else if k < s.len() && is_punct(s[k], ',') {
                parse_endpoints(s, k + 1, acc.push(ep))
            } else if k < s.len() && s[k] is Close {
                parse_endpoints(s, k, acc.push(ep))
            } else {
                Err(syn_err(SyntaxErrorV::ExpectedComma, k))
            },
        }
    }
}

/// Reads a whole provider: `Name, { {..}, {..} }` and nothing after it.
pub open spec fn parse_provider(s: Seq<TokenV>) -> Result<ProviderV, ErrorV> {
    if !(s.len() > 0 && s[0] is Ident) {
        Err(syn_err(SyntaxErrorV::ExpectedIdent, 0))
    } else if !(s.len() > 1 && is_punct(s[1], ',')) {
        Err(syn_err(SyntaxErrorV::ExpectedComma, 1))
    } else if !(s.len() > 2 && s[2] == TokenV::Open(Delim::Brace)) {
        Err(syn_err(SyntaxErrorV::ExpectedBraces, 2))
    } else {
        match parse_endpoints(s, 3, Seq::empty()) {
            Err(e) => Err(e),
            Ok((eps, c)) => if c + 1 != s.len() {
                Err(syn_err(SyntaxErrorV::UnexpectedToken, c + 1))
            } else {
                Ok(ProviderV { struct_name: s[0]->Ident_0, name_at: 0, endpoints: eps })
            },
        }
    }
}

} // verus!

verus! {

/// The fields of an endpoint block read so far.
pub struct Fields {
    pub path: Option<StrLit>,
    pub method: Option<HttpMethod>,
    pub fn_name: Option<String>,
    pub req: Option<Vec<Token>>,
    pub res: Option<Vec<Token>>,
    pub headers: Option<Vec<Token>>,
    pub query_params: Option<Vec<Token>>,
    pub path_params: Option<Vec<Token>>,
    pub trait_impl: Option<Vec<Token>>,
}

impl View for Fields {
    type V = FieldsV;

    open spec fn view(&self) -> FieldsV {
        FieldsV {
            path: match self.path {
                Some(l) => Some((l.raw@, l.value@)),
                None => None,
            },
            method: self.method,
            fn_name: crate::model::opt_text(self.fn_name),
            req: crate::model::opt_toks(self.req),
            res: crate::model::opt_toks(self.res),
            headers: crate::model::opt_toks(self.headers),
            query_params: crate::model::opt_toks(self.query_params),
            path_params: crate::model::opt_toks(self.path_params),
            trait_impl: crate::model::opt_toks(self.trait_impl),
        }
    }
}

fn syntax(kind: SyntaxError, at: usize) -> (r: MacroError)
    ensures
        r@ == syn_err(kind@, at as int),
{
    MacroError::Syn { kind, at }
}

fn is_punct_at(ts: &Vec<Token>, i: usize, c: char) -> (r: bool)
    ensures
        r == (i < ts.len() && is_punct(toks(ts@)[i as int], c)),
{
    if i < ts.len() {
        match &ts[i] {
            Token::Punct(d, _) => *d == c,
            _ => false,
        }
    } else {
        false
    }
}

fn is_close_at(ts: &Vec<Token>, i: usize) -> (r: bool)
    ensures
        r == (i < ts.len() && toks(ts@)[i as int] is Close),
{
    if i < ts.len() {
        match &ts[i] {
            Token::Close(_) => true,
            _ => false,
        }
    } else {
        false
    }
}

fn is_brace_at(ts: &Vec<Token>, i: usize) -> (r: bool)
    ensures
        r == (i < ts.len() && toks(ts@)[i as int] == TokenV::Open(Delim::Brace)),
{
    if i < ts.len() {
        match &ts[i] {
            Token::Open(d) => *d == Delim::Brace,
            _ => false,
        }
    } else {
        false
    }
}

impl HttpMethod {
    /// Reads the verb at position `j`, compared without regard to case.
    pub fn parse(ts: &Vec<Token>, j: usize) -> (r: Result<HttpMethod, MacroError>)
        ensures
            r is Ok ==> parse_method(toks(ts@), j as int) == Ok::<HttpMethod, ErrorV>(r->Ok_0),
            r is Err ==> parse_method(toks(ts@), j as int) == Err::<HttpMethod, ErrorV>(
                r->Err_0@,
            ),
    {
        if j < ts.len() {
            match &ts[j] {
                Token::Ident(m) => {
                    return match HttpMethod::from_ident(m.as_str()) {
                        Some(v) => Ok(v),
                        None => Err(syntax(SyntaxError::UnsupportedMethod(m.clone()), j)),
                    };
                },
                _ => {},
            }
        }
        Err(syntax(SyntaxError::ExpectedIdent, j))
    }
}

fn read_type_value(ts: &Vec<Token>, name: &str, j: usize, f: &mut Fields) -> (r: Result<
    usize,
    MacroError,
>)
    requires
        j <= ts.len(),
    ensures
        r is Ok ==> r->Ok_0 <= ts.len() && j < r->Ok_0 && r->Ok_0 == type_end(toks(ts@), j as int, 0, 0)
            && final(f)@ == set_type_field(old(f)@, name@, toks(ts@).subrange(j as int, r->Ok_0 as int)),
        r is Err ==> type_end(toks(ts@), j as int, 0, 0) <= j && r->Err_0@ == syn_err(
            SyntaxErrorV::ExpectedType,
            j as int,
        ),
{
    let e = scan_type(ts, j);
    if e <= j {
        return Err(syntax(SyntaxError::ExpectedType, j));
    }
    let t = copy_range(ts, j, e);
    if same_text(name, "req") {
        f.req = Some(t);
    } else if same_text(name, "res") {
        f.res = Some(t);
    } else if same_text(name, "headers") {
        f.headers = Some(t);
    } else if same_text(name, "query_params") {
        f.query_params = Some(t);
    } else if same_text(name, "path_params") {
        f.path_params = Some(t);
    } else {
        f.trait_impl = Some(t);
    }
    Ok(e)
}

fn read_value(ts: &Vec<Token>, name: &str, at: usize, j: usize, f: &mut Fields) -> (r: Result<
    usize,
    MacroError,
>)
    requires
        j <= ts.len(),
    ensures
        r is Ok ==> r->Ok_0 <= ts.len() && parse_value(toks(ts@), name@, at as int, j as int, old(f)@)
            == Ok::<(FieldsV, int), ErrorV>((final(f)@, r->Ok_0 as int)),
        r is Err ==> parse_value(toks(ts@), name@, at as int, j as int, old(f)@) == Err::<
            (FieldsV, int),
            ErrorV,
        >(r->Err_0@),
{
    let ghost s = toks(ts@);
    if same_text(name, "path") {
        if j < ts.len() {
            match &ts[j] {
                Token::Str(raw, v) => {
                    f.path = Some(StrLit { raw: raw.clone(), value: v.clone() });
                    return Ok(j + 1);
                },
                _ => {},
            }
        }
        Err(syntax(SyntaxError::ExpectedString, j))
    } else if same_text(name, "method") {
        match HttpMethod::parse(ts, j) {
            Ok(m) => {
                f.method = Some(m);
                Ok(j + 1)
            },
            Err(e) => Err(e),
        }
    } else if same_text(name, "fn_name") {
        if j < ts.len() {
            match &ts[j] {
                Token::Ident(n) => {
                    f.fn_name = Some(n.clone());
                    return Ok(j + 1);
                },
                _ => {},
            }
        }
        Err(syntax(SyntaxError::ExpectedIdent, j))
    } else if same_text(name, "req") || same_text(name, "res") || same_text(name, "headers")
        || same_text(name, "query_params") || same_text(name, "path_params") || same_text(
        name,
        "trait_impl",
    ) {
        read_type_value(ts, name, j, f)
    } else {
        Err(syntax(SyntaxError::UnexpectedField, at))
    }
}

} // verus!

verus! {

impl Fields {
    pub fn new() -> (r: Fields)
        ensures
            r@ == no_fields(),
    {
        Fields {
            path: None,
            method: None,
            fn_name: None,
            req: None,
            res: None,
            headers: None,
            query_params: None,
            path_params: None,
            trait_impl: None,
        }
    }
}

impl EndpointDef {
    /// Reads the endpoint block that starts at position `i`: the endpoint and
    /// the position after the block. A field may repeat; its last value counts.
    pub fn parse(ts: &Vec<Token>, i: usize) -> (r: Result<(EndpointDef, usize), MacroError>)
        ensures
            r is Ok ==> parse_endpoint(toks(ts@), i as int) == Ok::<(EndpointV, int), ErrorV>(
                (r->Ok_0.0@, r->Ok_0.1 as int),
            ),
            r is Err ==> parse_endpoint(toks(ts@), i as int) == Err::<(EndpointV, int), ErrorV>(
                r->Err_0@,
            ),
    {
        let ghost s = toks(ts@);
        if !is_brace_at(ts, i) {
            return Err(syntax(SyntaxError::ExpectedBraces, i));
        }
        let mut f = Fields::new();
        let mut k: usize = i + 1;
        while k <= ts.len()
            invariant
                s == toks(ts@),
                i < k <= ts.len(),
                i < ts.len(),
                s[i as int] == TokenV::Open(Delim::Brace),
                parse_fields(s, i as int + 1, no_fields()) == parse_fields(s, k as int, f@),
            decreases ts.len() + 1 - k,
        {
            if k >= ts.len() {
                return Err(syntax(SyntaxError::UnexpectedToken, k));
            }
            assert(s[k as int] == ts@[k as int]@);
            match &ts[k] {
                Token::Close(_) => {
                    if f.method.is_none() {
                        return Err(syntax(SyntaxError::MissingMethod, i));
                    }
                    if f.res.is_none() {
                        return Err(syntax(SyntaxError::MissingRes, i));
                    }
                    let Fields {
                        path,
                        method,
                        fn_name,
                        req,
                        res,
                        headers,
                        query_params,
                        path_params,
                        trait_impl,
                    } = f;
                    let e = EndpointDef {
                        path,
                        method: method.unwrap(),
                        fn_name,
                        req,
                        res: res.unwrap(),
                        headers,
                        query_params,
                        path_params,
                        trait_impl,
                        at: i,
                    };
                    return Ok((e, k + 1));
                },
                Token::Ident(name) => {
                    if !is_punct_at(ts, k + 1, ':') {
                        return Err(syntax(SyntaxError::ExpectedColon, k + 1));
                    }
                    let next = match read_value(ts, name.as_str(), k, k + 2, &mut f) {
                        Ok(n) => n,
                        Err(e) => {
                            return Err(e);
                        },
                    };
                    if next <= k {
                        return Err(syntax(SyntaxError::UnexpectedToken, next));
                    }
                    if is_punct_at(ts, next, ',') {
                        k = next + 1;
                    } else if is_close_at(ts, next) {
                        k = next;
                    } else {
                        return Err(syntax(SyntaxError::ExpectedComma, next));
                    }
                },
                _ => {
                    return Err(syntax(SyntaxError::ExpectedIdent, k));
                },
            }
        }
        Err(syntax(SyntaxError::UnexpectedToken, k))
    }
}

impl HttpProviderDef {
    /// Reads a whole provider definition, `Name, { {..}, {..} }`, with
    /// nothing after it.
    pub fn parse(ts: &Vec<Token>) -> (r: Result<HttpProviderDef, MacroError>)
        ensures
            r is Ok ==> parse_provider(toks(ts@)) == Ok::<ProviderV, ErrorV>(r->Ok_0@),
            r is Err ==> parse_provider(toks(ts@)) == Err::<ProviderV, ErrorV>(r->Err_0@),
    {
        let ghost s = toks(ts@);
        let name = if ts.len() > 0 {
            match &ts[0] {
                Token::Ident(n) => n.clone(),
                _ => {
                    return Err(syntax(SyntaxError::ExpectedIdent, 0));
                },
            }
        } else {
            return Err(syntax(SyntaxError::ExpectedIdent, 0));
        };
        assert(s[0] == ts@[0]@);
        if !is_punct_at(ts, 1, ',') {
            return Err(syntax(SyntaxError::ExpectedComma, 1));
        }
        if !is_brace_at(ts, 2) {
            return Err(syntax(SyntaxError::ExpectedBraces, 2));
        }
        let mut endpoints: Vec<EndpointDef> = Vec::new();
        let mut k: usize = 3;
        assert(endpoints_view(endpoints@) =~= Seq::<EndpointV>::empty());
        while k <= ts.len()
            invariant
                s == toks(ts@),
                3 <= k <= ts.len(),
                s[0] is Ident && s[0]->Ident_0 == name@,
                is_punct(s[1], ','),
                s[2] == TokenV::Open(Delim::Brace),
                parse_endpoints(s, 3, Seq::empty()) == parse_endpoints(
                    s,
                    k as int,
                    endpoints_view(endpoints@),
                ),
            decreases ts.len() + 1 - k,
        {
            if k >= ts.len() {
                return Err(syntax(SyntaxError::UnexpectedToken, k));
            }
            if is_close_at(ts, k) {
                if k + 1 != ts.len() {
                    return Err(syntax(SyntaxError::UnexpectedToken, k + 1));
                }
                return Ok(HttpProviderDef { struct_name: name, name_at: 0, endpoints });
            }
            let (ep, next) = match EndpointDef::parse(ts, k) {
                Ok(p) => p,
                Err(e) => {
                    return Err(e);
                },
            };
            if next <= k {
                return Err(syntax(SyntaxError::UnexpectedToken, next));
            }
            let ghost before = endpoints_view(endpoints@);
            endpoints.push(ep);
            assert(endpoints_view(endpoints@) =~= before.push(ep@));
            if is_punct_at(ts, next, ',') {
                k = next + 1;
            } else if is_close_at(ts, next) {
                k = next;
            } else {
                return Err(syntax(SyntaxError::ExpectedComma, next));
            }
        }
        Err(syntax(SyntaxError::UnexpectedToken, k))
    }
}

} // verus!
