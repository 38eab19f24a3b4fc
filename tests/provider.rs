use http_provider_macro::{
    derive_name, derive_name_source, find_placeholders, generate_provider, http_provider_source,
    signature_params, substitutions, Delim, EndpointDef, HttpMethod, HttpProviderDef,
    HttpProviderMacroExpander, MacroError, MethodExpander, ParamKind, StrLit, SyntaxError, Token,
};
use proc_macro2::{Delimiter, Spacing, TokenStream, TokenTree};

fn flatten_into(input: TokenStream, out: &mut Vec<Token>) {
    for tt in input {
        match tt {
            TokenTree::Ident(i) => out.push(Token::Ident(i.to_string())),
            TokenTree::Punct(p) => out.push(Token::Punct(p.as_char(), p.spacing() == Spacing::Joint)),
            TokenTree::Literal(l) => {
                let raw = l.to_string();
                match syn::parse_str::<syn::LitStr>(&raw) {
                    Ok(s) => out.push(Token::Str(raw, s.value())),
                    Err(_) => out.push(Token::Lit(raw)),
                }
            }
            TokenTree::Group(g) => {
                let d = match g.delimiter() {
                    Delimiter::Parenthesis => Some(Delim::Paren),
                    Delimiter::Brace => Some(Delim::Brace),
                    Delimiter::Bracket => Some(Delim::Bracket),
                    Delimiter::None => None,
                };
                match d {
                    Some(d) => {
                        out.push(Token::Open(d));
                        flatten_into(g.stream(), out);
                        out.push(Token::Close(d));
                    }
                    None => flatten_into(g.stream(), out),
                }
            }
        }
    }
}

fn lex(src: &str) -> Vec<Token> {
    let ts: TokenStream = src.parse().expect("test input lexes");
    let mut out = Vec::new();
    flatten_into(ts, &mut out);
    out
}

fn parse(src: &str) -> Result<HttpProviderDef, MacroError> {
    HttpProviderDef::parse(&lex(src))
}

fn generate(src: &str) -> Result<String, MacroError> {
    http_provider_source(&lex(src))
}

fn syntax_kind(r: Result<HttpProviderDef, MacroError>) -> (SyntaxError, usize) {
    match r {
        Err(MacroError::Syn { kind, at }) => (kind, at),
        Err(MacroError::Custom { message, .. }) => panic!("unexpected diagnostic {}", message),
        Ok(_) => panic!("parse succeeded"),
    }
}

fn ty(src: &str) -> Option<Vec<Token>> {
    Some(lex(src))
}

fn endpoint(req: bool, headers: bool, query: bool, path_params: bool) -> EndpointDef {
    EndpointDef {
        path: Some(StrLit { raw: "\"/items/{id}\"".to_string(), value: "/items/{id}".to_string() }),
        method: HttpMethod::GET,
        fn_name: None,
        req: if req { ty("Body") } else { None },
        res: lex("Item"),
        headers: if headers { ty("HeaderMap") } else { None },
        query_params: if query { ty("Query") } else { None },
        path_params: if path_params { ty("ItemPath") } else { None },
        trait_impl: None,
        at: 0,
    }
}

#[test]
fn derived_name_from_verb_and_path() {
    assert_eq!(derive_name(HttpMethod::GET, Some("/users/{id}")), "get_users_id");
}

#[test]
fn derived_name_source_keeps_braces_for_snake_case() {
    assert_eq!(derive_name_source(HttpMethod::GET, Some("/users/{id}")), "get_users_{id}");
    assert_eq!(derive_name_source(HttpMethod::PUT, Some("//a/b")), "put_a_b");
}

#[test]
fn derived_name_without_path() {
    assert_eq!(derive_name(HttpMethod::POST, None), "post_no_path");
    assert_eq!(derive_name(HttpMethod::DELETE, Some("/")), "delete");
}

#[test]
fn derived_name_is_snake_cased() {
    assert_eq!(derive_name(HttpMethod::GET, Some("/userProfiles/Active")), "get_user_profiles_active");
}

#[test]
fn placeholders_are_found_left_to_right() {
    assert_eq!(find_placeholders("/a/{id}/b/{name}/{id}"), vec!["id", "name", "id"]);
    assert_eq!(substitutions("/a/{id}/b/{name}/{id}"), vec!["id", "name"]);
}

#[test]
fn malformed_placeholders_are_not_tokens() {
    assert!(find_placeholders("/a/{}/{a-b}/{c").is_empty());
    assert_eq!(find_placeholders("{{x}}"), vec!["x"]);
    assert!(find_placeholders("").is_empty());
}

#[test]
fn zero_endpoints_fail_at_struct_name() {
    match generate("Api, { }") {
        Err(MacroError::Custom { message, at }) => {
            assert_eq!(message, "No endpoints defined");
            assert_eq!(at, 0);
        }
        other => panic!("expected the empty-provider diagnostic, got {:?}", other),
    }
    let def = HttpProviderDef { struct_name: "Api".to_string(), name_at: 0, endpoints: vec![] };
    assert!(generate_provider(&def).is_err());
    let mut expander = HttpProviderMacroExpander::new();
    assert!(expander.expand(def).is_err());
}

#[test]
fn parameter_arity_tracks_features() {
    for mask in 0..16u32 {
        let (pp, req, headers, query) = (mask & 1 != 0, mask & 2 != 0, mask & 4 != 0, mask & 8 != 0);
        let e = endpoint(req, headers, query, pp);
        let mut expected = Vec::new();
        if pp {
            expected.push(ParamKind::PathParams);
        }
        if req {
            expected.push(ParamKind::Body);
        }
        if headers {
            expected.push(ParamKind::Headers);
        }
        if query {
            expected.push(ParamKind::Query);
        }
        assert_eq!(signature_params(&e), expected);
        let sig = MethodExpander::new(&e).expand_fn_signature();
        assert_eq!(sig.matches(": &").count() + sig.matches("headers: ").count(), expected.len());
    }
}

#[test]
fn signature_with_all_features_in_fixed_order() {
    let e = endpoint(true, true, true, true);
    assert_eq!(
        MethodExpander::new(&e).expand_fn_signature(),
        "pub async fn get_items_id(&self, path_params: &ItemPath , body: &Body , headers: HeaderMap , query: &Query ) -> Result<Item , String>"
    );
    let bare = endpoint(false, false, false, false);
    assert_eq!(
        MethodExpander::new(&bare).expand_fn_signature(),
        "pub async fn get_items_id(&self) -> Result<Item , String>"
    );
}

#[test]
fn generation_is_deterministic() {
    let src = "Api, { { path: \"/users/{id}\", method: GET, path_params: P, res: U }, { method: post, req: B, res: U } }";
    let a = generate(src).expect("generates");
    let b = generate(src).expect("generates");
    assert_eq!(a, b);
}

#[test]
fn get_item_by_id_end_to_end_source() {
    let out = generate("Items, { { path: \"/items/{id}\", method: GET, path_params: ItemPath, res: Item } }")
        .expect("generates");
    assert!(out.contains("pub struct Items {"));
    assert!(out.contains("pub fn new(url: reqwest::Url, timeout: u64) -> Self {"));
    assert!(out.contains("pub async fn get_items_id(&self, path_params: &ItemPath ) -> Result<Item , String>"));
    assert!(out.contains("let mut path = \"/items/{id}\".to_string();\npath = path.replace(\"{id}\", &path_params.id.to_string());\nlet url = self.url.join(&path)"));
    assert!(out.contains("let request = self.client.get(url.clone());"));
    assert!(out.contains("status.as_u16()"));
    let parsed: Result<TokenStream, _> = out.parse();
    assert!(parsed.is_ok());
}

#[test]
fn repeated_placeholder_is_substituted_once() {
    let out = generate("A, { { path: \"/{id}/x/{id}/{v}\", method: GET, path_params: P, res: R } }")
        .expect("generates");
    assert_eq!(out.matches("path = path.replace(\"{id}\"").count(), 1);
    assert_eq!(out.matches("path = path.replace(\"{v}\"").count(), 1);
    assert!(out.find("{id}\", &path").unwrap() < out.find("{v}\", &path").unwrap());
}

#[test]
fn no_path_uses_base_url() {
    let out = generate("A, { { method: DELETE, res: R } }").expect("generates");
    assert!(out.contains("pub async fn delete_no_path(&self) -> Result<R , String>"));
    assert!(out.contains("let url = self.url.clone();"));
    assert!(out.contains("self.client.delete(url.clone())"));
}

#[test]
fn path_without_params_joins_literal() {
    let out = generate("A, { { path: \"/custom-path\", method: PUT, fn_name: put_c, req: MyRequest, res: R } }")
        .expect("generates");
    assert!(out.contains("pub async fn put_c(&self, body: &MyRequest ) -> Result<R , String>"));
    assert!(out.contains("let url = self.url.join(\"/custom-path\")"));
    assert!(out.contains("let request = request.json(body);"));
    assert!(!out.contains("request.headers("));
}

#[test]
fn attachments_follow_signature_order() {
    let out = generate("A, { { path: \"/p\", method: GET, query_params: Q, headers: H, req: B, res: R } }")
        .expect("generates");
    let body = out.find("request.json(body)").unwrap();
    let headers = out.find("request.headers(headers)").unwrap();
    let query = out.find("request.query(query)").unwrap();
    assert!(body < headers && headers < query);
    assert!(out.contains("(&self, body: &B , headers: H , query: &Q )"));
}

#[test]
fn verb_is_case_insensitive() {
    let def = parse("A, { { method: post, res: R }, { method: Delete, res: R } }").expect("parses");
    assert_eq!(def.endpoints[0].method, HttpMethod::POST);
    assert_eq!(def.endpoints[1].method, HttpMethod::DELETE);
}

#[test]
fn unsupported_verb_is_diagnosed() {
    let (kind, at) = syntax_kind(parse("A, { { method: PATCH, res: R } }"));
    match kind {
        SyntaxError::UnsupportedMethod(m) => assert_eq!(m, "PATCH"),
        other => panic!("unexpected {:?}", other),
    }
    assert_eq!(at, 6);
    let err = parse("A, { { method: PATCH, res: R } }").err().unwrap();
    assert_eq!(err.message(), "Unsupported HTTP method: PATCH (expected one of GET, POST, PUT, DELETE)");
}

#[test]
fn unknown_field_is_diagnosed_at_field() {
    let (kind, at) = syntax_kind(parse("A, { { method: GET, body: X, res: R } }"));
    assert!(matches!(kind, SyntaxError::UnexpectedField));
    assert_eq!(at, 8);
}

#[test]
fn missing_res_and_method_are_diagnosed_at_block() {
    let (kind, at) = syntax_kind(parse("A, { { path: \"/x\", method: GET } }"));
    assert!(matches!(kind, SyntaxError::MissingRes));
    assert_eq!(at, 3);
    let (kind, _) = syntax_kind(parse("A, { { res: R } }"));
    assert!(matches!(kind, SyntaxError::MissingMethod));
}

#[test]
fn malformed_grammar_is_diagnosed() {
    assert!(matches!(syntax_kind(parse("A { }")).0, SyntaxError::ExpectedComma));
    assert!(matches!(syntax_kind(parse(", { }")).0, SyntaxError::ExpectedIdent));
    assert!(matches!(syntax_kind(parse("A, [ ]")).0, SyntaxError::ExpectedBraces));
    assert!(matches!(syntax_kind(parse("A, { } x")).0, SyntaxError::UnexpectedToken));
    assert!(matches!(syntax_kind(parse("A, { { method GET, res: R } }")).0, SyntaxError::ExpectedColon));
    assert!(matches!(syntax_kind(parse("A, { { path: x, method: GET, res: R } }")).0, SyntaxError::ExpectedString));
    assert!(matches!(syntax_kind(parse("A, { { method: GET, res: , } }")).0, SyntaxError::ExpectedType));
    assert!(matches!(syntax_kind(parse("A, { { method: GET res: R } }")).0, SyntaxError::ExpectedComma));
    assert!(matches!(syntax_kind(parse("A, { ( ) }")).0, SyntaxError::ExpectedBraces));
}

#[test]
fn repeated_field_keeps_last_value() {
    let def = parse("A, { { method: GET, res: R, method: PUT, fn_name: a, fn_name: b } }").expect("parses");
    assert_eq!(def.endpoints[0].method, HttpMethod::PUT);
    assert_eq!(def.endpoints[0].fn_name.as_deref(), Some("b"));
}

#[test]
fn type_reference_spans_generics_and_paths() {
    let out = generate("A, { { path: \"/p\", method: GET, res: garden::api::Response<Vec<u8>, String>, headers: reqwest::header::HeaderMap, } }")
        .expect("generates");
    assert!(out.contains("-> Result<garden :: api :: Response < Vec < u8 >, String >, String>"));
    assert!(out.contains("headers: reqwest :: header :: HeaderMap )"));
    let parsed: Result<TokenStream, _> = out.parse();
    assert!(parsed.is_ok());
}

#[test]
fn trait_bound_endpoint_gets_own_block() {
    let out = generate("Api, { { path: \"/a\", method: GET, fn_name: fetch, res: R, trait_impl: Fetcher }, { path: \"/b\", method: GET, res: R } }")
        .expect("generates");
    assert!(out.contains("impl Fetcher  for Api {\nasync fn fetch(&self) -> Result<R , String>"));
    assert!(!out.contains("pub async fn fetch"));
    assert!(out.contains("pub async fn get_b(&self)"));
    assert!(out.find("pub async fn get_b").unwrap() < out.find("impl Fetcher  for Api").unwrap());
}

#[test]
fn trait_method_without_trait_is_diagnosed() {
    let e = endpoint(false, false, false, false);
    let expander = HttpProviderMacroExpander::new();
    match expander.expand_trait_method("Api", &e) {
        Err(MacroError::Custom { message, at }) => {
            assert_eq!(message, "Trait impl is not configured");
            assert_eq!(at, 0);
        }
        other => panic!("unexpected {:?}", other),
    }
}

#[test]
fn response_handling_reports_each_failure() {
    let e = endpoint(false, false, false, false);
    let text = MethodExpander::new(&e).build_response_handling();
    assert!(text.contains(".timeout(self.timeout).send().await.map_err("));
    assert!(text.contains("if !status.is_success() {\nreturn Err("));
    assert!(text.contains("unwrap_or(\"Unknown error\")"));
    assert!(text.contains("Failed to deserialize response from"));
    assert!(text.ends_with("Ok(result)\n"));
}
