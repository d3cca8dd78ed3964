use vstd::prelude::*;

verus! {

/// A parsed type declaration: its name and its generic parameter list,
/// written out as it is declared (empty where there is none).
pub struct Declaration {
    pub name: String,
    pub parameters: String,
}

/// Why no implementation could be written for an input.
pub enum DeriveError {
    /// The input is not the source of a struct, enum or union.
    NotADeclaration { message: String },
}

#[verifier::external_type_specification]
#[verifier::external_body]
pub struct ExSynError(syn::Error);

/// Relies on `syn::parse_str::<syn::DeriveInput>` to parse the text of a
/// struct, enum or union declaration, and on the `Display` of its `ident` and
/// of its `generics` (rendered with `quote::ToTokens`). Which token backend
/// lexes and prints is picked by proc-macro2 at run time, so nothing is
/// promised of the outcome.
#[verifier::external_body]
fn parse_declaration(source: &str) -> (r: Result<Declaration, syn::Error>) {
    let input = syn::parse_str::<syn::DeriveInput>(source)?;
    let name = input.ident.to_string();
    let parameters = quote::ToTokens::to_token_stream(&input.generics).to_string();
    Ok(Declaration { name, parameters })
}

/// Parses the source of a type declaration into its name and parameters.
/// Whether it succeeds, and what the two strings hold, is up to the parser.
pub fn read_declaration(source: &str) -> (r: Result<Declaration, DeriveError>) {
    match parse_declaration(source) {
        Ok(d) => Ok(d),
        Err(e) => Err(DeriveError::NotADeclaration { message: e.to_string() }),
    }
}

} // verus!
