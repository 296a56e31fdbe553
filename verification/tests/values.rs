use identlex::common::Ident;

#[test]
fn ident_from_str_and_string_agree() {
    let a = Ident::new("abc");
    let b = Ident::new(String::from("abc"));
    assert_eq!(a, b);
    assert_eq!(a.as_ref(), "abc");
    assert_eq!(b.to_string(), "abc");
}

#[test]
fn ident_unchecked_construction_keeps_text_verbatim() {
    let a = Ident::new("has space");
    assert_eq!(a.as_ref(), "has space");
    assert_eq!(a.to_string(), "has space");
}

#[test]
fn ident_inequality() {
    assert_ne!(Ident::new("a"), Ident::new("b"));
    assert_ne!(Ident::new("a"), Ident::new(""));
}

#[test]
fn ident_clone_is_equal() {
    let a = Ident::new("abc");
    let b = a.clone();
    assert_eq!(a, b);
}
