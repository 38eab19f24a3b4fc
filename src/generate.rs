use vstd::prelude::*;
use crate::method::lower_name;
use crate::model::{EndpointDef, EndpointV, HttpProviderDef, ProviderV, endpoints_view};
use crate::naming::{derive_name, resolved_name};
use crate::template::{substitution_names, substitutions, texts};
use crate::token::{TokenV, Token, append_str, append_tokens, render};
use crate::error::{ErrorV, MacroError};

verus! {

/// A parameter of a generated method, after `&self`.
#[derive(Clone, Copy, Debug, PartialEq, Eq, Structural)]
pub enum ParamKind {
    PathParams,
    Body,
    Headers,
    Query,
}

/// The place of a parameter kind in the fixed parameter order.
pub open spec fn rank(k: ParamKind) -> int {
    match k {
        ParamKind::PathParams => 0,
        ParamKind::Body => 1,
        ParamKind::Headers => 2,
        ParamKind::Query => 3,
    }
}

/// Whether an endpoint has the feature that a parameter kind stands for.
pub open spec fn has_feature(e: EndpointV, k: ParamKind) -> bool {
    match k {
        ParamKind::PathParams => e.path_params is Some,
        ParamKind::Body => e.req is Some,
        ParamKind::Headers => e.headers is Some,
        ParamKind::Query => e.query_params is Some,
    }
}

pub open spec fn one_if(b: bool, k: ParamKind) -> Seq<ParamKind> {
    if b {
        seq![k]
    } else {
        Seq::empty()
    }
}

/// The parameters of an endpoint's method: path parameters, body, headers,
/// query, each where the endpoint has it.
pub open spec fn param_kinds(e: EndpointV) -> Seq<ParamKind> {
    one_if(e.path_params is Some, ParamKind::PathParams) + one_if(e.req is Some, ParamKind::Body)
        + one_if(e.headers is Some, ParamKind::Headers) + one_if(
        e.query_params is Some,
        ParamKind::Query,
    )
}

pub open spec fn count_features(e: EndpointV) -> int {
    (if e.path_params is Some { 1int } else { 0 }) + (if e.req is Some { 1int } else { 0 }) + (
    if e.headers is Some { 1int } else { 0 }) + (if e.query_params is Some { 1int } else { 0 })
}

/// A generated method's parameters track the endpoint's features: one per
/// feature present, none for an absent one, always in the order path
/// parameters, body, headers, query.
pub proof fn lemma_parameter_arity(e: EndpointV)
    ensures
        param_kinds(e).len() == count_features(e),
        forall|k: ParamKind| param_kinds(e).contains(k) <==> has_feature(e, k),
        forall|i: int, j: int|
            0 <= i < j < param_kinds(e).len() ==> rank(#[trigger] param_kinds(e)[i]) < rank(
                #[trigger] param_kinds(e)[j],
            ),
{
    let p = param_kinds(e);
    assert forall|k: ParamKind| p.contains(k) <==> has_feature(e, k) by {
        if has_feature(e, k) {
            match k {
                ParamKind::PathParams => assert(p[0] == k),
                ParamKind::Body => assert(p[count_features(e) - (if e.query_params is Some { 1int } else { 0 }) - (if e.headers is Some { 1int } else { 0 }) - 1] == k),
                ParamKind::Headers => assert(p[count_features(e) - (if e.query_params is Some { 1int } else { 0 }) - 1] == k),
                ParamKind::Query => assert(p[count_features(e) - 1] == k),
            }
        }
    }
}

pub open spec fn opt_render(o: Option<Seq<TokenV>>) -> Seq<char> {
    match o {
        Some(t) => render(t),
        None => Seq::empty(),
    }
}

/// The text of one parameter, with the comma before it.
pub open spec fn param_text(e: EndpointV, k: ParamKind) -> Seq<char> {
    match k {
        ParamKind::PathParams => ", path_params: &"@ + opt_render(e.path_params),
        ParamKind::Body => ", body: &"@ + opt_render(e.req),
        ParamKind::Headers => ", headers: "@ + opt_render(e.headers),
        ParamKind::Query => ", query: &"@ + opt_render(e.query_params),
    }
}

pub open spec fn params_text(e: EndpointV, ks: Seq<ParamKind>) -> Seq<char>
    decreases ks.len(),
{
    if ks.len() == 0 {
        Seq::empty()
    } else {
        params_text(e, ks.drop_last()) + param_text(e, ks.last())
    }
}

pub open spec fn path_value(e: EndpointV) -> Option<Seq<char>> {
    match e.path {
        Some(p) => Some(p.1),
        None => None,
    }
}

/// The name of an endpoint's method.
pub open spec fn method_name(e: EndpointV) -> Seq<char> {
    resolved_name(e.method, path_value(e), e.fn_name)
}

/// The signature of an endpoint's method; one bound to a trait is not marked
/// public.
pub open spec fn signature_text(e: EndpointV) -> Seq<char> {
    (if e.trait_impl is None {
        "pub "@
    } else {
        Seq::empty()
    }) + "async fn "@ + method_name(e) + "(&self"@ + params_text(e, param_kinds(e))
        + ") -> Result<"@ + render(e.res) + ", String>"@
}

/// The statement that substitutes one placeholder.
pub open spec fn substitution_text(name: Seq<char>) -> Seq<char> {
    "path = path.replace(\"{"@ + name + "}\", &path_params."@ + name + ".to_string());\n"@
}

pub open spec fn substitutions_text(names: Seq<Seq<char>>) -> Seq<char>
    decreases names.len(),
{
    if names.len() == 0 {
        Seq::empty()
    } else {
        substitutions_text(names.drop_last()) + substitution_text(names.last())
    }
}

/// The statements that build the request URL: the base URL unchanged without
/// a path; else the path, its placeholders substituted first where the
/// endpoint has path parameters, joined onto the base URL.
pub open spec fn url_text(e: EndpointV) -> Seq<char> {
    match e.path {
        None => "let url = self.url.clone();\n"@,
        Some(p) => if e.path_params is Some {
            "let mut path = "@ + p.0 + ".to_string();\n"@ + substitutions_text(
                substitution_names(p.1),
            )
                + "let url = self.url.join(&path).map_err(|e| String::from(\"Failed to join url with the path \") + &path + \" : \" + &e.to_string())?;\n"@
        } else {
            "let url = self.url.join("@ + p.0
                + ").map_err(|e| String::from(\"Failed to join url with the path \") + "@ + p.0
                + " + \" : \" + &e.to_string())?;\n"@
        },
    }
}

pub open spec fn text_if(b: bool, t: Seq<char>) -> Seq<char> {
    if b {
        t
    } else {
        Seq::empty()
    }
}

/// The statements that build the request: the verb's constructor, then the
/// body, headers and query where the endpoint has them.
pub open spec fn request_text(e: EndpointV) -> Seq<char> {
    "let request = self.client."@ + lower_name(e.method) + "(url.clone());\n"@ + text_if(
        e.req is Some,
        "let request = request.json(body);\n"@,
    ) + text_if(e.headers is Some, "let request = request.headers(headers);\n"@) + text_if(
        e.query_params is Some,
        "let request = request.query(query);\n"@,
    )
}

/// The statements that send the request under the client's timeout, turn a
/// send failure, a status outside 2xx or a body that does not decode into an
/// error, and return the decoded response.
pub open spec fn response_text(e: EndpointV) -> Seq<char> {
    "let response = request.timeout(self.timeout).send().await.map_err(|e| String::from(\"Failed to send request to \") + url.as_str() + \": \" + &e.to_string())?;\nlet status = response.status();\nif !status.is_success() {\nreturn Err(String::from(\"HTTP request failed with status \") + &status.as_u16().to_string() + \": \" + status.canonical_reason().unwrap_or(\"Unknown error\"));\n}\nlet result: "@
        + render(e.res)
        + " = response.json().await.map_err(|e| String::from(\"Failed to deserialize response from \") + url.as_str() + \": \" + &e.to_string())?;\nOk(result)\n"@
}

/// The whole method of an endpoint.
pub open spec fn method_text(e: EndpointV) -> Seq<char> {
    signature_text(e) + " {\n"@ + url_text(e) + request_text(e) + response_text(e) + "}\n"@
}

/// The methods of the endpoints bound to no trait, in declaration order.
pub open spec fn inherent_text(es: Seq<EndpointV>) -> Seq<char>
    decreases es.len(),
{
    if es.len() == 0 {
        Seq::empty()
    } else {
        inherent_text(es.drop_last()) + text_if(es.last().trait_impl is None, method_text(es.last()))
    }
}

/// The block that implements an endpoint's trait for the client struct.
pub open spec fn trait_block_text(name: Seq<char>, e: EndpointV) -> Seq<char> {
    "impl "@ + opt_render(e.trait_impl) + " for "@ + name + " {\n"@ + method_text(e) + "}\n"@
}

/// One trait block per endpoint bound to a trait, in declaration order.
pub open spec fn trait_blocks_text(name: Seq<char>, es: Seq<EndpointV>) -> Seq<char>
    decreases es.len(),
{
    if es.len() == 0 {
        Seq::empty()
    } else {
        trait_blocks_text(name, es.drop_last()) + text_if(
            es.last().trait_impl is Some,
            trait_block_text(name, es.last()),
        )
    }
}

/// The whole client: the struct with its base URL, client handle and timeout,
/// its constructor and inherent methods, then the trait blocks.
pub open spec fn provider_text(p: ProviderV) -> Seq<char> {
    "pub struct "@ + p.struct_name
        + " {\nurl: reqwest::Url,\nclient: reqwest::Client,\ntimeout: std::time::Duration,\n}\nimpl "@
        + p.struct_name
        + " {\npub fn new(url: reqwest::Url, timeout: u64) -> Self {\nlet client = reqwest::Client::new();\nlet timeout = std::time::Duration::from_millis(timeout);\nSelf { url, client, timeout }\n}\n"@
        + inherent_text(p.endpoints) + "}\n"@ + trait_blocks_text(p.struct_name, p.endpoints)
}

/// The parameters of an endpoint's method, in order.
pub fn signature_params(e: &EndpointDef) -> (r: Vec<ParamKind>)
    ensures
        r@ == param_kinds(e@),
{
    let mut r: Vec<ParamKind> = Vec::new();
    if e.path_params.is_some() {
        r.push(ParamKind::PathParams);
    }
    if e.req.is_some() {
        r.push(ParamKind::Body);
    }
    if e.headers.is_some() {
        r.push(ParamKind::Headers);
    }
    if e.query_params.is_some() {
        r.push(ParamKind::Query);
    }
    assert(r@ =~= param_kinds(e@));
    r
}

fn append_opt_tokens(out: &mut String, o: &Option<Vec<Token>>)
    ensures
        final(out)@ == old(out)@ + opt_render(crate::model::opt_toks(*o)),
{
    match o {
        Some(t) => append_tokens(out, t),
        None => {
            assert(old(out)@ =~= old(out)@ + Seq::<char>::empty());
        },
    }
}

fn append_param(out: &mut String, e: &EndpointDef, k: ParamKind)
    ensures
        final(out)@ == old(out)@ + param_text(e@, k),
{
    let ghost start = out@;
    match k {
        ParamKind::PathParams => {
            append_str(out, ", path_params: &");
            append_opt_tokens(out, &e.path_params);
        },
        ParamKind::Body => {
            append_str(out, ", body: &");
            append_opt_tokens(out, &e.req);
        },
        ParamKind::Headers => {
            append_str(out, ", headers: ");
            append_opt_tokens(out, &e.headers);
        },
        ParamKind::Query => {
            append_str(out, ", query: &");
            append_opt_tokens(out, &e.query_params);
        },
    }
    assert(out@ =~= start + param_text(e@, k));
}

/// The name of an endpoint's method: the one given, else the one derived
/// from its verb and path.
pub fn resolve_method_name(e: &EndpointDef) -> (r: String)
    ensures
        r@ == method_name(e@),
{
    match &e.fn_name {
        Some(n) => n.clone(),
        None => match &e.path {
            Some(p) => derive_name(e.method, Some(p.value.as_str())),
            None => derive_name(e.method, None),
        },
    }
}

/// Appends the signature of an endpoint's method.
pub fn append_signature(out: &mut String, e: &EndpointDef)
    ensures
        final(out)@ == old(out)@ + signature_text(e@),
{
    let ghost start = out@;
    if e.trait_impl.is_none() {
        append_str(out, "pub ");
    }
    append_str(out, "async fn ");
    let name = resolve_method_name(e);
    append_str(out, name.as_str());
    append_str(out, "(&self");
    let ghost mid = out@;
    let ks = signature_params(e);
    let mut i: usize = 0;
    while i < ks.len()
        invariant
            i <= ks.len(),
            ks@ == param_kinds(e@),
            out@ == mid + params_text(e@, ks@.take(i as int)),
        decreases ks.len() - i,
    {
        append_param(out, e, ks[i]);
        assert(ks@.take(i as int + 1).drop_last() =~= ks@.take(i as int));
        i = i + 1;
    }
    assert(ks@.take(ks.len() as int) =~= ks@);
    append_str(out, ") -> Result<");
    append_tokens(out, &e.res);
    append_str(out, ", String>");
    assert(out@ =~= start + signature_text(e@));
}

/// Appends the statements that build the request URL.
pub fn append_url_construction(out: &mut String, e: &EndpointDef)
    ensures
        final(out)@ == old(out)@ + url_text(e@),
{
    let ghost start = out@;
    match &e.path {
        None => {
            append_str(out, "let url = self.url.clone();\n");
        },
        Some(p) => {
            if e.path_params.is_some() {
                append_str(out, "let mut path = ");
                append_str(out, p.raw.as_str());
                append_str(out, ".to_string();\n");
                let ghost mid = out@;
                let names = substitutions(p.value.as_str());
                let mut i: usize = 0;
                while i < names.len()
                    invariant
                        i <= names.len(),
                        texts(names@) == substitution_names(p.value@),
                        out@ == mid + substitutions_text(texts(names@).take(i as int)),
                    decreases names.len() - i,
                {
                    append_str(out, "path = path.replace(\"{");
                    append_str(out, names[i].as_str());
                    append_str(out, "}\", &path_params.");
                    append_str(out, names[i].as_str());
                    append_str(out, ".to_string());\n");
                    proof {
                        let t = texts(names@).take(i as int + 1);
                        assert(t.drop_last() =~= texts(names@).take(i as int));
                        assert(t.last() == names@[i as int]@);
                    }
                    i = i + 1;
                }
                assert(texts(names@).take(names.len() as int) =~= texts(names@));
                append_str(
                    out,
                    "let url = self.url.join(&path).map_err(|e| String::from(\"Failed to join url with the path \") + &path + \" : \" + &e.to_string())?;\n",
                );
            } else {
                append_str(out, "let url = self.url.join(");
                append_str(out, p.raw.as_str());
                append_str(
                    out,
                    ").map_err(|e| String::from(\"Failed to join url with the path \") + ",
                );
                append_str(out, p.raw.as_str());
                append_str(out, " + \" : \" + &e.to_string())?;\n");
            }
        },
    }
    assert(out@ =~= start + url_text(e@));
}

/// Appends the statements that build the request.
pub fn append_request(out: &mut String, e: &EndpointDef)
    ensures
        final(out)@ == old(out)@ + request_text(e@),
{
    let ghost start = out@;
    append_str(out, "let request = self.client.");
    append_str(out, e.method.lower());
    append_str(out, "(url.clone());\n");
    if e.req.is_some() {
        append_str(out, "let request = request.json(body);\n");
    }
    if e.headers.is_some() {
        append_str(out, "let request = request.headers(headers);\n");
    }
    if e.query_params.is_some() {
        append_str(out, "let request = request.query(query);\n");
    }
    assert(out@ =~= start + request_text(e@));
}

/// Appends the statements that send the request and handle the response.
pub fn append_response_handling(out: &mut String, e: &EndpointDef)
    ensures
        final(out)@ == old(out)@ + response_text(e@),
{
    let ghost start = out@;
    append_str(
        out,
        "let response = request.timeout(self.timeout).send().await.map_err(|e| String::from(\"Failed to send request to \") + url.as_str() + \": \" + &e.to_string())?;\nlet status = response.status();\nif !status.is_success() {\nreturn Err(String::from(\"HTTP request failed with status \") + &status.as_u16().to_string() + \": \" + status.canonical_reason().unwrap_or(\"Unknown error\"));\n}\nlet result: ",
    );
    append_tokens(out, &e.res);
    append_str(
        out,
        " = response.json().await.map_err(|e| String::from(\"Failed to deserialize response from \") + url.as_str() + \": \" + &e.to_string())?;\nOk(result)\n",
    );
    assert(out@ =~= start + response_text(e@));
}

/// Appends the whole method of an endpoint.
pub fn append_method(out: &mut String, e: &EndpointDef)
    ensures
        final(out)@ == old(out)@ + method_text(e@),
{
    let ghost start = out@;
    append_signature(out, e);
    append_str(out, " {\n");
    append_url_construction(out, e);
    append_request(out, e);
    append_response_handling(out, e);
    append_str(out, "}\n");
    assert(out@ =~= start + method_text(e@));
}

} // verus!

verus! {

/// Appends the methods of the endpoints bound to no trait.
pub fn append_inherent_methods(out: &mut String, es: &Vec<EndpointDef>)
    ensures
        final(out)@ == old(out)@ + inherent_text(endpoints_view(es@)),
{
    let ghost start = out@;
    let mut i: usize = 0;
    while i < es.len()
        invariant
            i <= es.len(),
            out@ == start + inherent_text(endpoints_view(es@).take(i as int)),
        decreases es.len() - i,
    {
        let ghost before = out@;
        if es[i].trait_impl.is_none() {
            append_method(out, &es[i]);
        }
        proof {
            let t = endpoints_view(es@).take(i as int + 1);
            assert(t.drop_last() =~= endpoints_view(es@).take(i as int));
            assert(t.last() == es@[i as int]@);
            assert(out@ =~= before + text_if(t.last().trait_impl is None, method_text(t.last())));
        }
        i = i + 1;
    }
    assert(endpoints_view(es@).take(es.len() as int) =~= endpoints_view(es@));
}

/// Appends the block that implements an endpoint's trait for the client struct.
pub fn append_trait_block(out: &mut String, name: &str, e: &EndpointDef)
    requires
        e.trait_impl is Some,
    ensures
        final(out)@ == old(out)@ + trait_block_text(name@, e@),
{
    let ghost start = out@;
    append_str(out, "impl ");
    match &e.trait_impl {
        Some(t) => append_tokens(out, t),
        None => {},
    }
    append_str(out, " for ");
    append_str(out, name);
    append_str(out, " {\n");
    append_method(out, e);
    append_str(out, "}\n");
    assert(out@ =~= start + trait_block_text(name@, e@));
}

/// Appends one trait block per endpoint bound to a trait.
pub fn append_trait_blocks(out: &mut String, name: &str, es: &Vec<EndpointDef>)
    ensures
        final(out)@ == old(out)@ + trait_blocks_text(name@, endpoints_view(es@)),
{
    let ghost start = out@;
    let mut i: usize = 0;
    while i < es.len()
        invariant
            i <= es.len(),
            out@ == start + trait_blocks_text(name@, endpoints_view(es@).take(i as int)),
        decreases es.len() - i,
    {
        let ghost before = out@;
        if es[i].trait_impl.is_some() {
            append_trait_block(out, name, &es[i]);
        }
        proof {
            let t = endpoints_view(es@).take(i as int + 1);
            assert(t.drop_last() =~= endpoints_view(es@).take(i as int));
            assert(t.last() == es@[i as int]@);
            assert(out@ =~= before + text_if(
                t.last().trait_impl is Some,
                trait_block_text(name@, t.last()),
            ));
        }
        i = i + 1;
    }
    assert(endpoints_view(es@).take(es.len() as int) =~= endpoints_view(es@));
}

/// The source of the whole client. Generation fails, with one diagnostic at
/// the struct's name and no output, exactly when there is no endpoint.
pub fn generate_provider(def: &HttpProviderDef) -> (r: Result<String, MacroError>)
    ensures
        r is Err <==> def.endpoints.len() == 0,
        r matches Err(e) ==> e@ == ErrorV::Custom("No endpoints defined"@, def.name_at as nat),
        r matches Ok(s) ==> s@ == provider_text(def@),
{
    if def.endpoints.len() == 0 {
        return Err(MacroError::Custom { message: "No endpoints defined".to_owned(), at: def.name_at });
    }
    let mut out = String::new();
    append_str(&mut out, "pub struct ");
    append_str(&mut out, def.struct_name.as_str());
    append_str(
        &mut out,
        " {\nurl: reqwest::Url,\nclient: reqwest::Client,\ntimeout: std::time::Duration,\n}\nimpl ",
    );
    append_str(&mut out, def.struct_name.as_str());
    append_str(
        &mut out,
        " {\npub fn new(url: reqwest::Url, timeout: u64) -> Self {\nlet client = reqwest::Client::new();\nlet timeout = std::time::Duration::from_millis(timeout);\nSelf { url, client, timeout }\n}\n",
    );
    append_inherent_methods(&mut out, &def.endpoints);
    append_str(&mut out, "}\n");
    append_trait_blocks(&mut out, def.struct_name.as_str(), &def.endpoints);
    assert(out@ =~= provider_text(def@));
    Ok(out)
}

/// Generation is a function of the provider definition alone: two
/// definitions that are equal give byte-identical output.
pub proof fn lemma_generation_deterministic(a: ProviderV, b: ProviderV)
    requires
        a == b,
    ensures
        provider_text(a) == provider_text(b),
        forall|i: int|
            0 <= i < a.endpoints.len() ==> signature_text(#[trigger] a.endpoints[i])
                == signature_text(b.endpoints[i]),
{
}

} // verus!
