use vstd::prelude::*;
use crate::method::HttpMethod;
use crate::token::{Token, TokenV, toks};

verus! {

/// A string literal of the input: its source text and its value.
#[derive(Clone, Debug)]
pub struct StrLit {
    pub raw: String,
    pub value: String,
}

/// One endpoint of a provider: its path template, verb, method name and the
/// type references of its optional features.
#[derive(Clone, Debug)]
pub struct EndpointDef {
    pub path: Option<StrLit>,
    pub method: HttpMethod,
    pub fn_name: Option<String>,
    pub req: Option<Vec<Token>>,
    pub res: Vec<Token>,
    pub headers: Option<Vec<Token>>,
    pub query_params: Option<Vec<Token>>,
    pub path_params: Option<Vec<Token>>,
    pub trait_impl: Option<Vec<Token>>,
    /// The position of the endpoint block's opening brace.
    pub at: usize,
}

/// A provider: the client struct's name, where it stands, and its endpoints
/// in declaration order.
#[derive(Clone, Debug)]
pub struct HttpProviderDef {
    pub struct_name: String,
    pub name_at: usize,
    pub endpoints: Vec<EndpointDef>,
}

pub struct EndpointV {
    /// Source text and value of the path literal.
    pub path: Option<(Seq<char>, Seq<char>)>,
    pub method: HttpMethod,
    pub fn_name: Option<Seq<char>>,
    pub req: Option<Seq<TokenV>>,
    pub res: Seq<TokenV>,
    pub headers: Option<Seq<TokenV>>,
    pub query_params: Option<Seq<TokenV>>,
    pub path_params: Option<Seq<TokenV>>,
    pub trait_impl: Option<Seq<TokenV>>,
    pub at: nat,
}

pub struct ProviderV {
    pub struct_name: Seq<char>,
    pub name_at: nat,
    pub endpoints: Seq<EndpointV>,
}

pub open spec fn opt_toks(o: Option<Vec<Token>>) -> Option<Seq<TokenV>> {
    match o {
        Some(v) => Some(toks(v@)),
        None => None,
    }
}

pub open spec fn opt_text(o: Option<String>) -> Option<Seq<char>> {
    match o {
        Some(s) => Some(s@),
        None => None,
    }
}

impl View for EndpointDef {
    type V = EndpointV;

    open spec fn view(&self) -> EndpointV {
        EndpointV {
            path: match self.path {
                Some(l) => Some((l.raw@, l.value@)),
                None => None,
            },
            method: self.method,
            fn_name: opt_text(self.fn_name),
            req: opt_toks(self.req),
            res: toks(self.res@),
            headers: opt_toks(self.headers),
            query_params: opt_toks(self.query_params),
            path_params: opt_toks(self.path_params),
            trait_impl: opt_toks(self.trait_impl),
            at: self.at as nat,
        }
    }
}

pub open spec fn endpoints_view(v: Seq<EndpointDef>) -> Seq<EndpointV> {
    v.map_values(|e: EndpointDef| e@)
}

impl View for HttpProviderDef {
    type V = ProviderV;

    open spec fn view(&self) -> ProviderV {
        ProviderV {
            struct_name: self.struct_name@,
            name_at: self.name_at as nat,
            endpoints: endpoints_view(self.endpoints@),
        }
    }
}

} // verus!
