//! The typed values the lexers produce: identifiers and visibility tags.

use vstd::prelude::*;

verus! {

/// A bare identifier: one owned name string, stored verbatim.
///
/// The identifier lexer only ever builds values whose text is a non-empty run
/// of identifier characters, but the constructors here accept any text at
/// all: unchecked construction is a deliberate escape hatch for programmatic
/// use, and is not a parsing result.
#[derive(Debug, Clone, Eq)]
pub struct Ident {
    text: String,
}

impl View for Ident {
    type V = Seq<char>;

    closed spec fn view(&self) -> Seq<char> {
        self.text@
    }
}

/// Conversion into an [`Ident`]: the stored text is the source value's text,
/// copied verbatim, with no validation and no normalization.
pub trait IntoIdent: Sized {
    /// The text that the conversion stores.
    spec fn ident_text(self) -> Seq<char>;

    fn into_ident(self) -> (r: Ident)
        ensures
            r@ == self.ident_text(),
    ;
}

impl IntoIdent for String {
    open spec fn ident_text(self) -> Seq<char> {
        self@
    }

    fn into_ident(self) -> Ident {
        Ident { text: self }
    }
}

impl<'a> IntoIdent for &'a str {
    open spec fn ident_text(self) -> Seq<char> {
        self@
    }

    fn into_ident(self) -> Ident {
        Ident { text: self.to_owned() }
    }
}

impl Ident {
    /// Wraps the given text verbatim: construction never fails and performs
    /// no validation.
    pub fn new<T: IntoIdent>(t: T) -> (r: Ident)
        ensures
            r@ == t.ident_text(),
    {
        t.into_ident()
    }

    /// The stored text, borrowed.
    pub fn as_ref(&self) -> (r: &str)
        ensures
            r@ == self@,
    {
        self.text.as_str()
    }

    /// The display form: exactly the stored text, with no quoting or
    /// escaping.
    pub fn to_string(&self) -> (r: String)
        ensures
            r@ == self@,
    {
        self.text.clone()
    }
}

impl PartialEq for Ident {
    /// Structural equality: two identifiers are equal iff their stored text
    /// is equal.
    fn eq(&self, other: &Ident) -> bool {
        self.text == other.text
    }
}

impl vstd::std_specs::cmp::PartialEqSpecImpl for Ident {
    open spec fn obeys_eq_spec() -> bool {
        true
    }

    open spec fn eq_spec(&self, other: &Ident) -> bool {
        self@ == other@
    }
}

/// Whether a declaration is explicitly marked accessible beyond its
/// enclosing scope (`Public`), or relies on the context's default
/// accessibility (`Inherited`).
#[derive(Debug, Copy, Clone, PartialEq, Eq, Structural)]
pub enum Visibility {
    Public,
    Inherited,
}

} // verus!
