use vstd::prelude::*;
use crate::error::{ErrorV, MacroError};
use crate::generate::{
    append_method, append_request, append_response_handling, append_signature,
    append_trait_block, append_url_construction, generate_provider, method_text, provider_text,
    request_text, response_text, signature_text, trait_block_text, url_text,
};
use crate::model::{EndpointDef, HttpProviderDef};
use crate::parser::parse_provider;
use crate::token::{Token, toks};

verus! {

/// Expands a provider definition into the client's source.
pub struct HttpProviderMacroExpander;

impl HttpProviderMacroExpander {
    pub fn new() -> (r: Self) {
        HttpProviderMacroExpander
    }

    /// The source of the whole client; fails with one diagnostic at the
    /// struct's name, and no output, exactly when there is no endpoint.
    pub fn expand(&mut self, input: HttpProviderDef) -> (r: Result<String, MacroError>)
        ensures
            r is Err <==> input.endpoints.len() == 0,
            r matches Err(e) ==> e@ == ErrorV::Custom(
                "No endpoints defined"@,
                input.name_at as nat,
            ),
            r matches Ok(s) ==> s@ == provider_text(input@),
    {
        generate_provider(&input)
    }

    /// The block that implements an endpoint's trait for the client struct;
    /// an endpoint without a trait reference is a diagnostic at its block.
    pub fn expand_trait_method(&self, struct_name: &str, endpoint: &EndpointDef) -> (r: Result<
        String,
        MacroError,
    >)
        ensures
            r is Err <==> endpoint.trait_impl is None,
            r matches Err(e) ==> e@ == ErrorV::Custom(
                "Trait impl is not configured"@,
                endpoint.at as nat,
            ),
            r matches Ok(s) ==> s@ == trait_block_text(struct_name@, endpoint@),
    {
        if endpoint.trait_impl.is_none() {
            return Err(
                MacroError::Custom {
                    message: "Trait impl is not configured".to_owned(),
                    at: endpoint.at,
                },
            );
        }
        let mut out = String::new();
        append_trait_block(&mut out, struct_name, endpoint);
        Ok(out)
    }

    /// The whole method of an endpoint.
    pub fn expand_method(&self, endpoint: &EndpointDef) -> (r: String)
        ensures
            r@ == method_text(endpoint@),
    {
        let mut out = String::new();
        append_method(&mut out, endpoint);
        out
    }
}

/// Expands the parts of one endpoint's method.
pub struct MethodExpander<'a> {
    pub def: &'a EndpointDef,
}

impl<'a> MethodExpander<'a> {
    pub fn new(def: &'a EndpointDef) -> (r: Self)
        ensures
            r.def == def,
    {
        MethodExpander { def }
    }

    pub fn expand_fn_signature(&self) -> (r: String)
        ensures
            r@ == signature_text(self.def@),
    {
        let mut out = String::new();
        append_signature(&mut out, self.def);
        out
    }

    pub fn build_url_construction(&self) -> (r: String)
        ensures
            r@ == url_text(self.def@),
    {
        let mut out = String::new();
        append_url_construction(&mut out, self.def);
        out
    }

    pub fn build_request(&self) -> (r: String)
        ensures
            r@ == request_text(self.def@),
    {
        let mut out = String::new();
        append_request(&mut out, self.def);
        out
    }

    pub fn build_response_handling(&self) -> (r: String)
        ensures
            r@ == response_text(self.def@),
    {
        let mut out = String::new();
        append_response_handling(&mut out, self.def);
        out
    }
}

} // verus!

verus! {

/// The client generated from a flattened provider definition: the parse's
/// diagnostic, the empty-provider diagnostic, or the client's source.
pub fn http_provider_source(ts: &Vec<Token>) -> (r: Result<String, MacroError>)
    ensures
        match parse_provider(toks(ts@)) {
            Err(e) => r is Err && r->Err_0@ == e,
            Ok(p) => if p.endpoints.len() == 0 {
                r is Err && r->Err_0@ == ErrorV::Custom("No endpoints defined"@, p.name_at)
            } else {
                r is Ok && r->Ok_0@ == provider_text(p)
            },
        },
{
    match HttpProviderDef::parse(ts) {
        Ok(def) => {
            let mut expander = HttpProviderMacroExpander::new();
            expander.expand(def)
        },
        Err(e) => Err(e),
    }
}

} // verus!
