use vstd::prelude::*;
use crate::token::append_str;

verus! {

/// What is wrong with a provider definition's syntax.
#[derive(Clone, Debug)]
pub enum SyntaxError {
    ExpectedIdent,
    ExpectedComma,
    ExpectedColon,
    ExpectedBraces,
    ExpectedString,
    ExpectedType,
    UnexpectedField,
    /// A verb outside GET, POST, PUT and DELETE, as written.
    UnsupportedMethod(String),
    MissingMethod,
    MissingRes,
    UnexpectedToken,
}

/// A diagnostic that stops generation, with the position of the token it is
/// about.
#[derive(Clone, Debug)]
pub enum MacroError {
    Syn { kind: SyntaxError, at: usize },
    Custom { message: String, at: usize },
}

pub enum SyntaxErrorV {
    ExpectedIdent,
    ExpectedComma,
    ExpectedColon,
    ExpectedBraces,
    ExpectedString,
    ExpectedType,
    UnexpectedField,
    UnsupportedMethod(Seq<char>),
    MissingMethod,
    MissingRes,
    UnexpectedToken,
}

pub enum ErrorV {
    Syn(SyntaxErrorV, nat),
    Custom(Seq<char>, nat),
}

impl View for SyntaxError {
    type V = SyntaxErrorV;

    open spec fn view(&self) -> SyntaxErrorV {
        match self {
            SyntaxError::ExpectedIdent => SyntaxErrorV::ExpectedIdent,
            SyntaxError::ExpectedComma => SyntaxErrorV::ExpectedComma,
            SyntaxError::ExpectedColon => SyntaxErrorV::ExpectedColon,
            SyntaxError::ExpectedBraces => SyntaxErrorV::ExpectedBraces,
            SyntaxError::ExpectedString => SyntaxErrorV::ExpectedString,
            SyntaxError::ExpectedType => SyntaxErrorV::ExpectedType,
            SyntaxError::UnexpectedField => SyntaxErrorV::UnexpectedField,
            SyntaxError::UnsupportedMethod(s) => SyntaxErrorV::UnsupportedMethod(s@),
            SyntaxError::MissingMethod => SyntaxErrorV::MissingMethod,
            SyntaxError::MissingRes => SyntaxErrorV::MissingRes,
            SyntaxError::UnexpectedToken => SyntaxErrorV::UnexpectedToken,
        }
    }
}

impl View for MacroError {
    type V = ErrorV;

    open spec fn view(&self) -> ErrorV {
        match self {
            MacroError::Syn { kind, at } => ErrorV::Syn(kind@, *at as nat),
            MacroError::Custom { message, at } => ErrorV::Custom(message@, *at as nat),
        }
    }
}

pub open spec fn syntax_message(k: SyntaxErrorV) -> Seq<char> {
    match k {
        SyntaxErrorV::ExpectedIdent => "expected identifier"@,
        SyntaxErrorV::ExpectedComma => "expected `,`"@,
        SyntaxErrorV::ExpectedColon => "expected `:`"@,
        SyntaxErrorV::ExpectedBraces => "expected curly braces"@,
        SyntaxErrorV::ExpectedString => "expected string literal"@,
        SyntaxErrorV::ExpectedType => "expected type"@,
        SyntaxErrorV::UnexpectedField => "unexpected field"@,
        SyntaxErrorV::UnsupportedMethod(m) => "Unsupported HTTP method: "@ + m
            + " (expected one of GET, POST, PUT, DELETE)"@,
        SyntaxErrorV::MissingMethod => "missing `method`"@,
        SyntaxErrorV::MissingRes => "missing `res`"@,
        SyntaxErrorV::UnexpectedToken => "unexpected token"@,
    }
}

/// The text shown for a diagnostic.
pub open spec fn error_message(e: ErrorV) -> Seq<char> {
    match e {
        ErrorV::Syn(k, _) => syntax_message(k),
        ErrorV::Custom(m, _) => m,
    }
}

pub open spec fn error_at(e: ErrorV) -> nat {
    match e {
        ErrorV::Syn(_, at) => at,
        ErrorV::Custom(_, at) => at,
    }
}

impl MacroError {
    /// The text shown for the diagnostic.
    pub fn message(&self) -> (r: String)
        ensures
            r@ == error_message(self@),
    {
        let mut out = String::new();
        match self {
            MacroError::Syn { kind, .. } => match kind {
                SyntaxError::ExpectedIdent => append_str(&mut out, "expected identifier"),
                SyntaxError::ExpectedComma => append_str(&mut out, "expected `,`"),
                SyntaxError::ExpectedColon => append_str(&mut out, "expected `:`"),
                SyntaxError::ExpectedBraces => append_str(&mut out, "expected curly braces"),
                SyntaxError::ExpectedString => append_str(&mut out, "expected string literal"),
                SyntaxError::ExpectedType => append_str(&mut out, "expected type"),
                SyntaxError::UnexpectedField => append_str(&mut out, "unexpected field"),
                SyntaxError::UnsupportedMethod(m) => {
                    append_str(&mut out, "Unsupported HTTP method: ");
                    append_str(&mut out, m.as_str());
                    append_str(&mut out, " (expected one of GET, POST, PUT, DELETE)");
                },
                SyntaxError::MissingMethod => append_str(&mut out, "missing `method`"),
                SyntaxError::MissingRes => append_str(&mut out, "missing `res`"),
                SyntaxError::UnexpectedToken => append_str(&mut out, "unexpected token"),
            },
            MacroError::Custom { message, .. } => append_str(&mut out, message.as_str()),
        }
        assert(out@ =~= error_message(self@));
        out
    }

    /// The position of the token the diagnostic is about.
    pub fn at(&self) -> (r: usize)
        ensures
            r as nat == error_at(self@),
    {
        match self {
            MacroError::Syn { at, .. } => *at,
            MacroError::Custom { at, .. } => *at,
        }
    }
}

} // verus!
