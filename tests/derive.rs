use address_cmp::declaration::read_declaration;
use address_cmp::{
    address_eq, address_hash, address_ord, equivalence_impl, hashing_impl, ordering_impl,
    Declaration, DeriveError,
};

fn declaration(name: &str, parameters: &str) -> Declaration {
    Declaration { name: name.to_string(), parameters: parameters.to_string() }
}

const EQ_A: &str = "#[automatically_derived]\nimpl ::std::cmp::PartialEq for A {\n    fn eq(&self, other: &Self) -> bool {\n        ::std::ptr::eq(self, other)\n    }\n}\n#[automatically_derived]\nimpl ::std::cmp::Eq for A {\n}\n";

const HASH_A: &str = "#[automatically_derived]\nimpl ::std::hash::Hash for A {\n    fn hash<H: ::std::hash::Hasher>(&self, state: &mut H) {\n        ::std::ptr::hash(self, state)\n    }\n}\n";

const ORD_A: &str = "#[automatically_derived]\nimpl ::std::cmp::Ord for A {\n    fn cmp(&self, other: &Self) -> ::std::cmp::Ordering {\n        ::std::ptr::from_ref(self).cmp(&::std::ptr::from_ref(other))\n    }\n}\n#[automatically_derived]\nimpl ::std::cmp::PartialOrd for A {\n    fn partial_cmp(&self, other: &Self) -> ::std::option::Option<::std::cmp::Ordering> {\n        ::std::option::Option::Some(::std::cmp::Ord::cmp(self, other))\n    }\n}\n";

#[test]
fn equivalence_of_plain_declaration() {
    assert_eq!(equivalence_impl(&declaration("A", "")), EQ_A);
}

#[test]
fn hashing_of_plain_declaration() {
    assert_eq!(hashing_impl(&declaration("A", "")), HASH_A);
}

#[test]
fn ordering_of_plain_declaration() {
    assert_eq!(ordering_impl(&declaration("A", "")), ORD_A);
}

#[test]
fn parameters_are_copied_into_both_places() {
    let text = hashing_impl(&declaration("Holder", "< 'a , T >"));
    assert!(text.starts_with("#[automatically_derived]\nimpl< 'a , T > ::std::hash::Hash for Holder< 'a , T > {\n"));
    let text = equivalence_impl(&declaration("Holder", "< 'a >"));
    assert!(text.starts_with("#[automatically_derived]\nimpl< 'a > ::std::cmp::PartialEq for Holder< 'a > {\n"));
    assert!(text.contains("impl< 'a > ::std::cmp::Eq for Holder< 'a > {\n}\n"));
}

#[test]
fn reads_struct_with_one_field() {
    let d = read_declaration("struct A { pub a: u8 }").ok().unwrap();
    assert_eq!(d.name, "A");
    assert_eq!(d.parameters, "");
}

#[test]
fn reads_struct_with_lifetime() {
    // Outside a macro expansion proc-macro2 lexes and prints on its own,
    // with a space between tokens that are not joined.
    let d = read_declaration("struct Borrowed<'a> { pub a: &'a u8 }").ok().unwrap();
    assert_eq!(d.name, "Borrowed");
    assert_eq!(d.parameters, "< 'a >");
}

#[test]
fn reads_empty_struct_and_enum() {
    let d = read_declaration("struct Empty {}").ok().unwrap();
    assert_eq!(d.name, "Empty");
    assert_eq!(d.parameters, "");
    let d = read_declaration("enum Animal { Bat, Cat }").ok().unwrap();
    assert_eq!(d.name, "Animal");
    let d = read_declaration("enum Single { Only }").ok().unwrap();
    assert_eq!(d.name, "Single");
}

#[test]
fn derives_equivalence_from_source() {
    assert_eq!(address_eq("struct A { pub a: u8 }").ok().unwrap(), EQ_A);
    assert_eq!(address_eq("struct A {}").ok().unwrap(), EQ_A);
}

#[test]
fn derives_hashing_from_source() {
    assert_eq!(address_hash("enum A { Bat, Cat }").ok().unwrap(), HASH_A);
}

#[test]
fn derives_ordering_from_source() {
    assert_eq!(address_ord("pub struct A { a: u8, b: String }").ok().unwrap(), ORD_A);
}

#[test]
fn derives_with_lifetime_from_source() {
    let text = address_ord("struct A<'a> { pub a: &'a u8 }").ok().unwrap();
    assert!(text.starts_with("#[automatically_derived]\nimpl< 'a > ::std::cmp::Ord for A< 'a > {\n"));
    assert!(text.contains("impl< 'a > ::std::cmp::PartialOrd for A< 'a > {\n"));
}

#[test]
fn same_source_gives_same_text() {
    let source = "struct Pair<'a, T> { a: &'a T, b: T }";
    assert_eq!(address_eq(source).ok().unwrap(), address_eq(source).ok().unwrap());
    assert_eq!(address_hash(source).ok().unwrap(), address_hash(source).ok().unwrap());
}

#[test]
fn rejects_what_is_not_a_declaration() {
    for source in ["fn f() {}", "mod m {}", "struct", ""] {
        assert!(matches!(address_eq(source), Err(DeriveError::NotADeclaration { .. })));
        assert!(matches!(address_hash(source), Err(DeriveError::NotADeclaration { .. })));
        assert!(matches!(address_ord(source), Err(DeriveError::NotADeclaration { .. })));
    }
}

#[test]
fn error_carries_a_message() {
    match read_declaration("fn f() {}") {
        Err(DeriveError::NotADeclaration { message }) => assert!(!message.is_empty()),
        Ok(_) => panic!("a function is not a type declaration"),
    }
}

#[test]
fn single_case_enum_gets_all_three() {
    let source = "enum A { Only }";
    assert_eq!(address_eq(source).ok().unwrap(), EQ_A);
    assert_eq!(address_hash(source).ok().unwrap(), HASH_A);
    assert_eq!(address_ord(source).ok().unwrap(), ORD_A);
}
