//! Parsing of generated source text into syn's syntax tree.
//!
//! Whether a text parses depends on the lexer that proc-macro2 has selected
//! for the process (the compiler's inside a procedural macro, its own
//! elsewhere), so nothing is promised of success.
use vstd::prelude::*;

verus! {

#[verifier::external_type_specification]
#[verifier::external_body]
pub struct ExSynStmt(syn::Stmt);

#[verifier::external_type_specification]
#[verifier::external_body]
pub struct ExSynError(syn::Error);

/// Relies on syn::parse_str::<syn::Stmt>: the text parsed as one statement,
/// or the parse error.
#[verifier::external_body]
fn parse_stmt(code: &str) -> (r: Result<syn::Stmt, syn::Error>) {
    syn::parse_str::<syn::Stmt>(code)
}

/// Relies on syn::parse_str::<syn::Expr>: the text parsed as one expression,
/// handed back as a statement without trailing semicolon, or the parse error.
#[verifier::external_body]
fn parse_tail_expr(code: &str) -> (r: Result<syn::Stmt, syn::Error>) {
    match syn::parse_str::<syn::Expr>(code) {
        Ok(e) => Ok(syn::Stmt::Expr(e, None)),
        Err(err) => Err(err),
    }
}

/// Parses generated source text into a tail-expression statement of syn's
/// tree; `None` when the text is not accepted as a single expression.
pub fn convert_to_tail(code: &String) -> (r: Option<syn::Stmt>) {
    match parse_tail_expr(code.as_str()) {
        Ok(stmt) => Some(stmt),
        Err(_) => None,
    }
}

/// Parses generated source text into one statement of syn's tree; `None`
/// when the text is not accepted as a single statement.
pub fn convert_to_stmt(code: &String) -> (r: Option<syn::Stmt>) {
    match parse_stmt(code.as_str()) {
        Ok(stmt) => Some(stmt),
        Err(_) => None,
    }
}

} // verus!
