use vstd::prelude::*;
use heck::ToSnakeCase;
use crate::method::{HttpMethod, lower_name};
use crate::token::{push_char, append_str};

verus! {

/// What `heck`'s snake-case conversion makes of a text.
pub uninterp spec fn snake_of(s: Seq<char>) -> Seq<char>;

/// Relies on `heck::ToSnakeCase::to_snake_case`: lower-cases the text and
/// joins its words with underscores; the result depends on the text alone.
#[verifier::external_body]
fn to_snake(s: &str) -> (r: String)
    ensures
        r@ == snake_of(s@),
{
    s.to_snake_case()
}

/// A path without its leading separators.
pub open spec fn strip_slashes(p: Seq<char>) -> Seq<char>
    decreases p.len(),
{
    if p.len() > 0 && p[0] == '/' {
        strip_slashes(p.drop_first())
    } else {
        p
    }
}

pub open spec fn slash_to_underscore(p: Seq<char>) -> Seq<char> {
    p.map_values(|c: char| if c == '/' { '_' } else { c })
}

/// The path part of a derived name: leading separators stripped, the others
/// turned into underscores; `no_path` where the endpoint has no path.
pub open spec fn path_segment(path: Option<Seq<char>>) -> Seq<char> {
    match path {
        Some(p) => slash_to_underscore(strip_slashes(p)),
        None => "no_path"@,
    }
}

/// The text that is snake-cased into a derived name.
pub open spec fn name_source(m: HttpMethod, path: Option<Seq<char>>) -> Seq<char> {
    lower_name(m) + "_"@ + path_segment(path)
}

/// The name of an endpoint's method: the one given, else the derived one.
pub open spec fn resolved_name(
    m: HttpMethod,
    path: Option<Seq<char>>,
    fn_name: Option<Seq<char>>,
) -> Seq<char> {
    match fn_name {
        Some(n) => n,
        None => snake_of(name_source(m, path)),
    }
}

fn append_segment(out: &mut String, path: &str)
    ensures
        final(out)@ == old(out)@ + path_segment(Some(path@)),
{
    let ghost p = path@;
    let n = path.unicode_len();
    let mut k: usize = 0;
    assert(p.subrange(0, n as int) =~= p);
    while k < n && path.get_char(k) == '/'
        invariant
            p == path@,
            n == p.len(),
            k <= n,
            strip_slashes(p) == strip_slashes(p.subrange(k as int, n as int)),
        decreases n - k,
    {
        proof {
            let s = p.subrange(k as int, n as int);
            assert(s.drop_first() =~= p.subrange(k as int + 1, n as int));
        }
        k = k + 1;
    }
    let ghost rest = p.subrange(k as int, n as int);
    assert(strip_slashes(rest) == rest);
    let ghost start = out@;
    let mut i: usize = k;
    while i < n
        invariant
            p == path@,
            n == p.len(),
            k <= i <= n,
            out@ == start + slash_to_underscore(p.subrange(k as int, i as int)),
        decreases n - i,
    {
        let c = path.get_char(i);
        if c == '/' {
            push_char(out, '_');
        } else {
            push_char(out, c);
        }
        proof {
            assert(slash_to_underscore(p.subrange(k as int, i as int + 1)) =~= slash_to_underscore(
                p.subrange(k as int, i as int),
            ).push(if c == '/' { '_' } else { c }));
        }
        i = i + 1;
    }
}

/// The text that is snake-cased into the derived name of an endpoint.
pub fn derive_name_source(m: HttpMethod, path: Option<&str>) -> (r: String)
    ensures
        r@ == name_source(m, match path { Some(p) => Some(p@), None => None }),
{
    let mut out = String::new();
    append_str(&mut out, m.lower());
    append_str(&mut out, "_");
    match path {
        Some(p) => append_segment(&mut out, p),
        None => append_str(&mut out, "no_path"),
    }
    out
}

/// The method name derived from a verb and an optional path.
pub fn derive_name(m: HttpMethod, path: Option<&str>) -> (r: String)
    ensures
        r@ == snake_of(name_source(m, match path { Some(p) => Some(p@), None => None })),
{
    let src = derive_name_source(m, path);
    to_snake(src.as_str())
}

} // verus!
