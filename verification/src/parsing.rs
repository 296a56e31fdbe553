//! The lexers: one identifier, or an optional `pub` visibility qualifier,
//! recognized at the front of a text buffer.
//!
//! Each lexer is a pure function from the remaining input to either a parsed
//! value together with the unconsumed remainder, or (for the identifier
//! lexer only) a failure that lets the caller retry another production.

use vstd::prelude::*;
use vstd::string::StrSliceExecFns;
use crate::common::{Ident, Visibility};

verus! {

/// The whitespace characters a separator run consists of.
pub open spec fn is_space(c: char) -> bool {
    c == ' ' || c == '\t' || c == '\r' || c == '\n'
}

/// Whether a character counts as alphanumeric for the identifier lexer.
pub uninterp spec fn unicode_alphanumeric(c: char) -> bool;

/// The identifier character class: alphanumeric or underscore. Whitespace
/// never falls in it.
pub open spec fn is_ident_char(c: char) -> bool {
    (unicode_alphanumeric(c) && !is_space(c)) || c == '_'
}

/// The length of the longest whitespace run at the front of `s`.
pub open spec fn space_run(s: Seq<char>) -> nat
    decreases s.len(),
{
    if s.len() > 0 && is_space(s[0]) {
        (1 + space_run(s.drop_first())) as nat
    } else {
        0
    }
}

/// The length of the longest identifier-character run at the front of `s`.
pub open spec fn ident_run(s: Seq<char>) -> nat
    decreases s.len(),
{
    if s.len() > 0 && is_ident_char(s[0]) {
        (1 + ident_run(s.drop_first())) as nat
    } else {
        0
    }
}

/// Whether the identifier lexer succeeds on `t`: after the optional
/// whitespace run there is at least one identifier character.
pub open spec fn word_ok(t: Seq<char>) -> bool {
    ident_run(t.skip(space_run(t) as int)) > 0
}

/// The text of the identifier the lexer recognizes at the front of `t`.
pub open spec fn word_ident(t: Seq<char>) -> Seq<char> {
    let ws = space_run(t) as int;
    t.subrange(ws, ws + ident_run(t.skip(ws)))
}

/// What the identifier lexer leaves unconsumed.
pub open spec fn word_rest(t: Seq<char>) -> Seq<char> {
    let ws = space_run(t) as int;
    t.skip(ws + ident_run(t.skip(ws)))
}

/// Whether the visibility lexer recognizes `pub` at the front of `t`: the
/// three keyword characters, followed immediately by mandatory whitespace.
pub open spec fn vis_public(t: Seq<char>) -> bool {
    t.len() >= 4 && t[0] == 'p' && t[1] == 'u' && t[2] == 'b' && is_space(t[3])
}

/// What the visibility lexer leaves unconsumed: past the keyword and the
/// whole whitespace run after it on a match, all of `t` otherwise.
pub open spec fn vis_rest(t: Seq<char>) -> Seq<char> {
    if vis_public(t) {
        t.skip(3 + space_run(t.skip(3)) as int)
    } else {
        t
    }
}

/// Failure of the identifier lexer: no identifier character stood at the
/// position reached after the optional whitespace run. `pos` is that
/// position, counted in characters from the start of the input, so that the
/// caller can try an alternative production there.
#[derive(Debug, Copy, Clone, PartialEq, Eq, Structural)]
pub struct ParseFailure {
    pub pos: usize,
}

/// The whitespace run at the front of `s` is exactly the first `i`
/// characters.
proof fn lemma_space_run_is(s: Seq<char>, i: int)
    requires
        0 <= i <= s.len(),
        forall|j: int| 0 <= j < i ==> is_space(s[j]),
        i < s.len() ==> !is_space(s[i]),
    ensures
        space_run(s) == i,
    decreases s.len(),
{
    if i == 0 {
    } else {
        assert(is_space(s[0]));
        lemma_space_run_is(s.drop_first(), i - 1);
    }
}

/// The identifier-character run at the front of `s` is exactly the first
/// `i` characters.
proof fn lemma_ident_run_is(s: Seq<char>, i: int)
    requires
        0 <= i <= s.len(),
        forall|j: int| 0 <= j < i ==> is_ident_char(s[j]),
        i < s.len() ==> !is_ident_char(s[i]),
    ensures
        ident_run(s) == i,
    decreases s.len(),
{
    if i == 0 {
    } else {
        assert(is_ident_char(s[0]));
        lemma_ident_run_is(s.drop_first(), i - 1);
    }
}

/// Every character of the identifier-character run at the front of `s` is
/// an identifier character, and the run stops only at the end of `s` or at
/// a character outside the class.
proof fn lemma_ident_run_chars(s: Seq<char>)
    ensures
        ident_run(s) <= s.len(),
        forall|j: int| 0 <= j < ident_run(s) ==> is_ident_char(s[j]),
    decreases s.len(),
{
    if s.len() > 0 && is_ident_char(s[0]) {
        lemma_ident_run_chars(s.drop_first());
        assert forall|j: int| 0 <= j < ident_run(s) implies is_ident_char(s[j]) by {
            if j > 0 {
                assert(s.drop_first()[j - 1] == s[j]);
            }
        }
    }
}

/// Whether `ch` is in the identifier character class: alphanumeric or
/// underscore. Digits are not special-cased, so a digit is accepted at any
/// position, the leading one included.
pub fn ident_ch(ch: char) -> (r: bool)
    ensures
        r == is_ident_char(ch),
{
    alphanumeric_ch(ch) || ch == '_'
}

/// Relies on `char::is_alphanumeric`: the result is a function of the
/// character alone, and no character that `is_space` holds of (space, tab,
/// carriage return, line feed) is alphanumeric.
#[verifier::external_body]
fn alphanumeric_ch(c: char) -> (r: bool)
    ensures
        r == (unicode_alphanumeric(c) && !is_space(c)),
{
    c.is_alphanumeric()
}

/// Whether `c` is one of the whitespace characters a separator run
/// consists of.
fn space_ch(c: char) -> (r: bool)
    ensures
        r == is_space(c),
{
    c == ' ' || c == '\t' || c == '\r' || c == '\n'
}

/// The identifier lexer: skips one optional whitespace run, then consumes
/// the longest possible run of one-or-more identifier characters.
///
/// On success it returns the unconsumed remainder together with the
/// recognized identifier; it fails, consuming nothing, exactly when no
/// identifier character stands after the whitespace run.
pub fn word<'a>(input: &'a str) -> (r: Result<(&'a str, Ident), ParseFailure>)
    ensures
        match r {
            Ok(p) => word_ok(input@) && p.0@ == word_rest(input@) && p.1@ == word_ident(input@),
            Err(e) => !word_ok(input@) && e.pos == space_run(input@),
        },
{
    let ghost t = input@;
    let n = input.unicode_len();
    let mut i: usize = 0;
    while i < n && space_ch(input.get_char(i))
        invariant
            t == input@,
            n == t.len(),
            0 <= i <= n,
            forall|j: int| 0 <= j < i ==> is_space(t[j]),
        decreases n - i,
    {
        i = i + 1;
    }
    proof {
        lemma_space_run_is(t, i as int);
    }
    let start = i;
    while i < n && ident_ch(input.get_char(i))
        invariant
            t == input@,
            n == t.len(),
            0 <= start <= i <= n,
            forall|j: int| start <= j < i ==> is_ident_char(t[j]),
        decreases n - i,
    {
        i = i + 1;
    }
    proof {
        lemma_ident_run_is(t.skip(start as int), i - start);
    }
    if i == start {
        Err(ParseFailure { pos: start })
    } else {
        let text = input.substring_char(start, i);
        let rest = input.substring_char(i, n);
        proof {
            assert(word_ident(t) =~= text@);
            assert(word_rest(t) =~= rest@);
        }
        Ok((rest, Ident::new(text)))
    }
}

/// The visibility lexer: recognizes the keyword `pub` followed by a
/// mandatory whitespace run, consuming both and yielding `Public`; on
/// anything else it consumes nothing and yields `Inherited`. It never
/// fails; in particular a bare `pub` with nothing after it is left
/// untouched in the remainder.
pub fn visibility<'a>(input: &'a str) -> (r: (&'a str, Visibility))
    ensures
        r.1 == (if vis_public(input@) {
            Visibility::Public
        } else {
            Visibility::Inherited
        }),
        r.0@ == vis_rest(input@),
{
    let ghost t = input@;
    let n = input.unicode_len();
    if n >= 4 && input.get_char(0) == 'p' && input.get_char(1) == 'u' && input.get_char(2) == 'b'
        && space_ch(input.get_char(3)) {
        let mut i: usize = 4;
        while i < n && space_ch(input.get_char(i))
            invariant
                t == input@,
                n == t.len(),
                4 <= i <= n,
                forall|j: int| 3 <= j < i ==> is_space(t[j]),
            decreases n - i,
        {
            i = i + 1;
        }
        proof {
            lemma_space_run_is(t.skip(3), i - 3);
        }
        let rest = input.substring_char(i, n);
        proof {
            assert(vis_rest(t) =~= rest@);
        }
        (rest, Visibility::Public)
    } else {
        (input, Visibility::Inherited)
    }
}

/// On a non-empty text of identifier characters alone, the identifier
/// lexer succeeds, recognizes exactly that text, and leaves an empty
/// remainder.
pub proof fn lemma_word_all_ident_chars(s: Seq<char>)
    requires
        s.len() > 0,
        forall|i: int| 0 <= i < s.len() ==> is_ident_char(s[i]),
    ensures
        word_ok(s),
        word_ident(s) == s,
        word_rest(s) == Seq::<char>::empty(),
{
    lemma_space_run_is(s, 0);
    assert(s.skip(0) =~= s);
    lemma_ident_run_is(s, s.len() as int);
    assert(word_ident(s) =~= s);
    assert(word_rest(s) =~= Seq::<char>::empty());
}

/// On an empty text, or one of whitespace alone, the identifier lexer
/// fails.
pub proof fn lemma_word_only_space_fails(s: Seq<char>)
    requires
        forall|i: int| 0 <= i < s.len() ==> is_space(s[i]),
    ensures
        !word_ok(s),
{
    lemma_space_run_is(s, s.len() as int);
    assert(s.skip(s.len() as int) =~= Seq::<char>::empty());
}

/// What the identifier lexer recognizes is never empty and consists of
/// identifier characters alone.
pub proof fn lemma_word_ident_chars(t: Seq<char>)
    requires
        word_ok(t),
    ensures
        word_ident(t).len() > 0,
        forall|i: int| 0 <= i < word_ident(t).len() ==> is_ident_char(word_ident(t)[i]),
{
    let ws = space_run(t) as int;
    lemma_space_run_bound(t);
    lemma_ident_run_chars(t.skip(ws));
    assert forall|i: int| 0 <= i < word_ident(t).len() implies is_ident_char(word_ident(t)[i]) by {
        assert(word_ident(t)[i] == t.skip(ws)[i]);
    }
}

/// The whitespace run at the front of `s` never runs past its end.
proof fn lemma_space_run_bound(s: Seq<char>)
    ensures
        space_run(s) <= s.len(),
    decreases s.len(),
{
    if s.len() > 0 && is_space(s[0]) {
        lemma_space_run_bound(s.drop_first());
    }
}

/// Re-lexing the text of an identifier that the lexer produced succeeds,
/// reproduces an identifier of equal text, and leaves nothing behind.
pub proof fn lemma_word_round_trip(t: Seq<char>)
    requires
        word_ok(t),
    ensures
        word_ok(word_ident(t)),
        word_ident(word_ident(t)) == word_ident(t),
        word_rest(word_ident(t)) == Seq::<char>::empty(),
{
    lemma_word_ident_chars(t);
    lemma_word_all_ident_chars(word_ident(t));
}

} // verus!
