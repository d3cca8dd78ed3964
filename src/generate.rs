use vstd::prelude::*;
use vstd::string::StringExecFns;
use crate::declaration::{read_declaration, Declaration, DeriveError};

verus! {

/// The source of one `impl` block of `trait_path` for the type `name`, marked
/// as derived, with the parameter list written out verbatim after `impl` and
/// after the name.
pub open spec fn impl_block(
    trait_path: Seq<char>,
    name: Seq<char>,
    parameters: Seq<char>,
    body: Seq<char>,
) -> Seq<char> {
    "#[automatically_derived]\n"@ + "impl"@ + parameters + " "@ + trait_path + " for "@ + name + parameters + " {\n"@ + body
        + "}\n"@
}

pub open spec fn partial_eq_path() -> Seq<char> {
    "::std::cmp::PartialEq"@
}

pub open spec fn eq_path() -> Seq<char> {
    "::std::cmp::Eq"@
}

pub open spec fn hash_path() -> Seq<char> {
    "::std::hash::Hash"@
}

pub open spec fn ord_path() -> Seq<char> {
    "::std::cmp::Ord"@
}

pub open spec fn partial_ord_path() -> Seq<char> {
    "::std::cmp::PartialOrd"@
}

/// `eq` holds exactly when both references point at the same place: the
/// relation `crate::identity::same_address` on the two addresses.
pub open spec fn eq_body() -> Seq<char> {
    "    fn eq(&self, other: &Self) -> bool {\n        ::std::ptr::eq(self, other)\n    }\n"@
}

/// The address alone is fed to the hasher.
pub open spec fn hash_body() -> Seq<char> {
    "    fn hash<H: ::std::hash::Hasher>(&self, state: &mut H) {\n        ::std::ptr::hash(self, state)\n    }\n"@
}

/// The two addresses are compared as numbers: the order
/// `crate::identity::address_order` on them.
pub open spec fn cmp_body() -> Seq<char> {
    "    fn cmp(&self, other: &Self) -> ::std::cmp::Ordering {\n        ::std::ptr::from_ref(self).cmp(&::std::ptr::from_ref(other))\n    }\n"@
}

/// The partial order is the total order, so every pair is comparable.
pub open spec fn partial_cmp_body() -> Seq<char> {
    "    fn partial_cmp(&self, other: &Self) -> ::std::option::Option<::std::cmp::Ordering> {\n        ::std::option::Option::Some(::std::cmp::Ord::cmp(self, other))\n    }\n"@
}

/// `PartialEq` by address, and the `Eq` marker.
pub open spec fn equivalence_text(name: Seq<char>, parameters: Seq<char>) -> Seq<char> {
    impl_block(partial_eq_path(), name, parameters, eq_body()) + impl_block(
        eq_path(),
        name,
        parameters,
        Seq::empty(),
    )
}

/// `Hash` by address.
pub open spec fn hashing_text(name: Seq<char>, parameters: Seq<char>) -> Seq<char> {
    impl_block(hash_path(), name, parameters, hash_body())
}

/// `Ord` by address, and `PartialOrd` that defers to it.
pub open spec fn ordering_text(name: Seq<char>, parameters: Seq<char>) -> Seq<char> {
    impl_block(ord_path(), name, parameters, cmp_body()) + impl_block(
        partial_ord_path(),
        name,
        parameters,
        partial_cmp_body(),
    )
}

/// The parameter list reaches each emitted header unchanged: it stands right
/// after `impl`, and right after the type's name, whatever it holds.
pub proof fn lemma_parameters_verbatim(
    trait_path: Seq<char>,
    name: Seq<char>,
    parameters: Seq<char>,
    body: Seq<char>,
)
    ensures
        ({
            let text = impl_block(trait_path, name, parameters, body);
            let at_name: int = (29 + parameters.len() + 1 + trait_path.len() + 5) as int;
            let after_name: int = at_name + name.len() as int;
            &&& text.subrange(25, 29) == "impl"@
            &&& text.subrange(29, 29 + parameters.len() as int) == parameters
            &&& text.subrange(at_name, after_name) == name
            &&& text.subrange(after_name, after_name + parameters.len() as int) == parameters
        }),
{
    reveal_strlit("#[automatically_derived]\n");
    reveal_strlit("impl");
    reveal_strlit(" ");
    reveal_strlit(" for ");
    let text = impl_block(trait_path, name, parameters, body);
    let at_name: int = (29 + parameters.len() + 1 + trait_path.len() + 5) as int;
    let after_name: int = at_name + name.len() as int;
    assert(text.subrange(25, 29) =~= "impl"@);
    assert(text.subrange(29, 29 + parameters.len() as int) =~= parameters);
    assert(text.subrange(at_name, after_name) =~= name);
    assert(text.subrange(after_name, after_name + parameters.len() as int) =~= parameters);
}

fn impl_block_text(trait_path: &str, d: &Declaration, body: &str) -> (r: String)
    ensures
        r@ == impl_block(trait_path@, d.name@, d.parameters@, body@),
{
    let mut r = String::from_str("#[automatically_derived]\n");
    r.append("impl");
    r.append(d.parameters.as_str());
    r.append(" ");
    r.append(trait_path);
    r.append(" for ");
    r.append(d.name.as_str());
    r.append(d.parameters.as_str());
    r.append(" {\n");
    r.append(body);
    r.append("}\n");
    r
}

/// Writes `PartialEq` and `Eq` for the declaration, by address.
pub fn equivalence_impl(d: &Declaration) -> (r: String)
    ensures
        r@ == equivalence_text(d.name@, d.parameters@),
{
    let first = impl_block_text(
        "::std::cmp::PartialEq",
        d,
        "    fn eq(&self, other: &Self) -> bool {\n        ::std::ptr::eq(self, other)\n    }\n",
    );
    let second = impl_block_text("::std::cmp::Eq", d, "");
    proof {
        reveal_strlit("");
        assert(""@ =~= Seq::<char>::empty());
    }
    first.concat(second.as_str())
}

/// Writes `Hash` for the declaration, by address.
pub fn hashing_impl(d: &Declaration) -> (r: String)
    ensures
        r@ == hashing_text(d.name@, d.parameters@),
{
    impl_block_text(
        "::std::hash::Hash",
        d,
        "    fn hash<H: ::std::hash::Hasher>(&self, state: &mut H) {\n        ::std::ptr::hash(self, state)\n    }\n",
    )
}

/// Writes `Ord` and `PartialOrd` for the declaration, by address.
pub fn ordering_impl(d: &Declaration) -> (r: String)
    ensures
        r@ == ordering_text(d.name@, d.parameters@),
{
    let first = impl_block_text(
        "::std::cmp::Ord",
        d,
        "    fn cmp(&self, other: &Self) -> ::std::cmp::Ordering {\n        ::std::ptr::from_ref(self).cmp(&::std::ptr::from_ref(other))\n    }\n",
    );
    let second = impl_block_text(
        "::std::cmp::PartialOrd",
        d,
        "    fn partial_cmp(&self, other: &Self) -> ::std::option::Option<::std::cmp::Ordering> {\n        ::std::option::Option::Some(::std::cmp::Ord::cmp(self, other))\n    }\n",
    );
    first.concat(second.as_str())
}

/// Reads a declaration and writes its address-based `PartialEq` and `Eq`.
/// Whatever name and parameters the parser hands back, the result is the text
/// that `equivalence_impl` writes for them.
pub fn address_eq(source: &str) -> (r: Result<String, DeriveError>)
    ensures
        r is Ok ==> exists|n: Seq<char>, p: Seq<char>|
            r->Ok_0@ == #[trigger] equivalence_text(n, p),
{
    let d = read_declaration(source)?;
    Ok(equivalence_impl(&d))
}

/// Reads a declaration and writes its address-based `Hash`. Whatever name and
/// parameters the parser hands back, the result is the text that
/// `hashing_impl` writes for them.
pub fn address_hash(source: &str) -> (r: Result<String, DeriveError>)
    ensures
        r is Ok ==> exists|n: Seq<char>, p: Seq<char>| r->Ok_0@ == #[trigger] hashing_text(n, p),
{
    let d = read_declaration(source)?;
    Ok(hashing_impl(&d))
}

/// Reads a declaration and writes its address-based `Ord` and `PartialOrd`.
/// Whatever name and parameters the parser hands back, the result is the text
/// that `ordering_impl` writes for them.
pub fn address_ord(source: &str) -> (r: Result<String, DeriveError>)
    ensures
        r is Ok ==> exists|n: Seq<char>, p: Seq<char>| r->Ok_0@ == #[trigger] ordering_text(n, p),
{
    let d = read_declaration(source)?;
    Ok(ordering_impl(&d))
}

} // verus!
