//! Where a query comes from, and how its variables are written.

use crate::text::{chars_of, text_of};
use vstd::prelude::*;

verus! {

/// Where to take the text of a query from.
#[derive(Debug, Clone, Copy, PartialEq, Eq, Structural)]
pub enum QuerySource {
    /// The text was given itself.
    Inline,
    /// The text is in a file that was named.
    File,
    /// The text is to be read from standard input.
    Stdin,
}

/// Where to take the text of a query from: the text given inline where
/// there is one, else the file where one is named, else standard input.
pub fn choose_source(has_inline: bool, has_file: bool) -> (source: QuerySource)
    ensures
        source == if has_inline {
            QuerySource::Inline
        } else if has_file {
            QuerySource::File
        } else {
            QuerySource::Stdin
        },
{
    if has_inline {
        QuerySource::Inline
    } else if has_file {
        QuerySource::File
    } else {
        QuerySource::Stdin
    }
}

/// The place of the first `=` in `s`; the length of `s` where it has none.
pub open spec fn first_equals(s: Seq<char>) -> int
    decreases s.len(),
{
    if s.len() == 0 || s[0] == '=' {
        0
    } else {
        1 + first_equals(s.skip(1))
    }
}

/// The name and the value that `name=value` stands for: the text before
/// the first `=` and the text after it. There is neither without a `=`.
pub open spec fn variable_in(entry: Seq<char>) -> Option<(Seq<char>, Seq<char>)> {
    let at = first_equals(entry);
    if at < entry.len() {
        Some((entry.take(at), entry.skip(at + 1)))
    } else {
        None
    }
}

/// The first `=` is at a place of the text or at its end, and nothing
/// before it is a `=`.
pub proof fn lemma_first_equals(s: Seq<char>)
    ensures
        0 <= first_equals(s) <= s.len(),
        first_equals(s) < s.len() ==> s[first_equals(s)] == '=',
        forall|i: int| 0 <= i < first_equals(s) ==> #[trigger] s[i] != '=',
    decreases s.len(),
{
    if s.len() == 0 || s[0] == '=' {
    } else {
        lemma_first_equals(s.skip(1));
        assert forall|i: int| 0 <= i < first_equals(s) implies #[trigger] s[i] != '=' by {
            if i > 0 {
                assert(s[i] == s.skip(1)[i - 1]);
            }
        }
    }
}

proof fn lemma_first_equals_found(s: Seq<char>, at: int)
    requires
        0 <= at <= s.len(),
        forall|i: int| 0 <= i < at ==> #[trigger] s[i] != '=',
        at < s.len() ==> s[at] == '=',
    ensures
        first_equals(s) == at,
    decreases s.len(),
{
    if at > 0 {
        let rest = s.skip(1);
        assert forall|i: int| 0 <= i < at - 1 implies #[trigger] rest[i] != '=' by {
            assert(rest[i] == s[i + 1]);
        }
        lemma_first_equals_found(rest, at - 1);
    }
}

/// Splits `name=value` at its first `=`.
pub fn parse_variable(entry: &str) -> (variable: Option<(String, String)>)
    ensures
        match variable {
            Some((name, value)) => variable_in(entry@) == Some((name@, value@)),
            None => variable_in(entry@) is None,
        },
{
    let chars = chars_of(entry);
    let mut at: usize = 0;
    while at < chars.len() && chars[at] != '='
        invariant
            at <= chars@.len(),
            forall|i: int| 0 <= i < at ==> #[trigger] chars@[i] != '=',
        decreases chars@.len() - at,
    {
        at += 1;
    }
    proof {
        lemma_first_equals_found(chars@, at as int);
    }
    if at < chars.len() {
        let name = text_of(&chars, 0, at);
        let value = text_of(&chars, at + 1, chars.len());
        assert(chars@.subrange(0, at as int) =~= chars@.take(at as int));
        assert(chars@.subrange(at + 1, chars@.len() as int) =~= chars@.skip(at + 1));
        Some((name, value))
    } else {
        None
    }
}

} // verus!
