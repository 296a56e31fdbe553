//! Token emission: converting an [`Ident`] back into exactly one token for
//! the downstream quoting stage.

use vstd::prelude::*;
use crate::common::Ident;
use crate::parsing::{word_ok, word_ident, word_rest, lemma_word_round_trip};

verus! {

/// `quote::Tokens`, the token accumulator of the downstream quoting stage,
/// held opaque.
#[verifier::external_type_specification]
#[verifier::external_body]
pub struct ExTokens(quote::Tokens);

/// The text that a `quote::Tokens` accumulator holds.
pub uninterp spec fn tokens_text(tokens: quote::Tokens) -> Seq<char>;

/// What appending one token does to an accumulator's text: a single space
/// separates two non-empty sides.
pub open spec fn appended(text: Seq<char>, token: Seq<char>) -> Seq<char> {
    if text.len() > 0 && token.len() > 0 {
        text + seq![' '] + token
    } else {
        text + token
    }
}

/// Relies on `quote::Tokens::append`: it pushes the token's text onto the
/// accumulator's text, first pushing one space when both the accumulator
/// and the token are non-empty.
#[verifier::external_body]
fn tokens_append(tokens: &mut quote::Tokens, token: &str)
    ensures
        tokens_text(*final(tokens)) == appended(tokens_text(*old(tokens)), token@),
{
    tokens.append(token)
}

impl Ident {
    /// Emits this identifier as exactly one token: the token's text is the
    /// stored text, with no re-validation and no escaping.
    pub fn to_tokens(&self, tokens: &mut quote::Tokens)
        ensures
            tokens_text(*final(tokens)) == appended(tokens_text(*old(tokens)), self@),
    {
        tokens_append(tokens, self.as_ref());
    }
}

/// Round trip: an identifier the identifier lexer produced, emitted into an
/// empty accumulator, puts exactly its stored text there; and lexing that
/// text again succeeds, reproduces an identifier of equal text, and leaves
/// an empty remainder.
pub proof fn lemma_emit_then_lex(t: Seq<char>)
    requires
        word_ok(t),
    ensures
        appended(Seq::<char>::empty(), word_ident(t)) == word_ident(t),
        word_ok(word_ident(t)),
        word_ident(word_ident(t)) == word_ident(t),
        word_rest(word_ident(t)) == Seq::<char>::empty(),
{
    assert(appended(Seq::<char>::empty(), word_ident(t)) =~= word_ident(t));
    lemma_word_round_trip(t);
}

} // verus!
