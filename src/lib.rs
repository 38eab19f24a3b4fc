use vstd::prelude::*;

pub mod error;
pub mod expand;
pub mod generate;
pub mod method;
pub mod model;
pub mod naming;
pub mod parser;
pub mod template;
pub mod token;

pub use error::{MacroError, SyntaxError};
pub use expand::{HttpProviderMacroExpander, MethodExpander, http_provider_source};
pub use generate::{ParamKind, generate_provider, signature_params};
pub use method::HttpMethod;
pub use model::{EndpointDef, HttpProviderDef, StrLit};
pub use naming::{derive_name, derive_name_source};
pub use template::{find_placeholders, substitutions};
pub use token::{Delim, Token, render_tokens};

verus! {

} // verus!
