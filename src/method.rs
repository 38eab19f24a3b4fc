use vstd::prelude::*;

verus! {

/// The HTTP verbs an endpoint may use.
#[derive(Clone, Copy, Debug, PartialEq, Eq, Structural)]
pub enum HttpMethod {
    GET,
    POST,
    PUT,
    DELETE,
}

/// The verb's name in capitals, as the grammar accepts it after upper-casing.
pub open spec fn upper_name(m: HttpMethod) -> Seq<char> {
    match m {
        HttpMethod::GET => "GET"@,
        HttpMethod::POST => "POST"@,
        HttpMethod::PUT => "PUT"@,
        HttpMethod::DELETE => "DELETE"@,
    }
}

/// The verb's name in lower case, the first word of a derived method name.
pub open spec fn lower_name(m: HttpMethod) -> Seq<char> {
    match m {
        HttpMethod::GET => "get"@,
        HttpMethod::POST => "post"@,
        HttpMethod::PUT => "put"@,
        HttpMethod::DELETE => "delete"@,
    }
}

/// The verb whose capitalised name is `s`, if any.
pub open spec fn verb_of_upper(s: Seq<char>) -> Option<HttpMethod> {
    if s == "GET"@ {
        Some(HttpMethod::GET)
    } else if s == "POST"@ {
        Some(HttpMethod::POST)
    } else if s == "PUT"@ {
        Some(HttpMethod::PUT)
    } else if s == "DELETE"@ {
        Some(HttpMethod::DELETE)
    } else {
        None
    }
}

/// What `str::to_uppercase` makes of a text.
pub uninterp spec fn upper_of(s: Seq<char>) -> Seq<char>;

/// Relies on `str::to_uppercase`: the upper-case mapping of each character,
/// which depends on the text alone.
#[verifier::external_body]
pub(crate) fn to_upper(s: &str) -> (r: String)
    ensures
        r@ == upper_of(s@),
{
    s.to_uppercase()
}

impl HttpMethod {
    /// The verb named by an already upper-cased identifier.
    pub fn from_upper(s: &str) -> (r: Option<HttpMethod>)
        ensures
            r == verb_of_upper(s@),
    {
        if crate::token::same_text(s, "GET") {
            Some(HttpMethod::GET)
        } else if crate::token::same_text(s, "POST") {
            Some(HttpMethod::POST)
        } else if crate::token::same_text(s, "PUT") {
            Some(HttpMethod::PUT)
        } else if crate::token::same_text(s, "DELETE") {
            Some(HttpMethod::DELETE)
        } else {
            None
        }
    }

    /// The verb named by an identifier, compared without regard to case.
    pub fn from_ident(s: &str) -> (r: Option<HttpMethod>)
        ensures
            r == verb_of_upper(upper_of(s@)),
    {
        let up = to_upper(s);
        HttpMethod::from_upper(up.as_str())
    }

    pub fn lower(&self) -> (r: &'static str)
        ensures
            r@ == lower_name(*self),
    {
        match self {
            HttpMethod::GET => "get",
            HttpMethod::POST => "post",
            HttpMethod::PUT => "put",
            HttpMethod::DELETE => "delete",
        }
    }
}

} // verus!
