//! Regular expressions, from the `regex` crate.

use crate::text::{begins, replaced_first};
use regex::Regex;
use vstd::prelude::*;

verus! {

/// Whether `Regex::new` takes `pattern`.
pub uninterp spec fn regex_compiles(pattern: Seq<char>) -> bool;

/// Whether `Regex::is_match` finds `pattern` anywhere in `haystack`.
pub uninterp spec fn regex_matches(pattern: Seq<char>, haystack: Seq<char>) -> bool;

/// What `Regex::replace` makes of `haystack`.
pub uninterp spec fn regex_replaced(
    pattern: Seq<char>,
    haystack: Seq<char>,
    replacement: Seq<char>,
) -> Seq<char>;

/// The characters that can mean something other than themselves in a pattern
/// that holds no class. (`#`, `&`, `-` and `~` are special inside of one, or in
/// the verbose mode, which only a group can switch on.)
pub open spec fn is_meta(c: char) -> bool {
    ||| c == '\\'
    ||| c == '.'
    ||| c == '+'
    ||| c == '*'
    ||| c == '?'
    ||| c == '('
    ||| c == ')'
    ||| c == '|'
    ||| c == '['
    ||| c == ']'
    ||| c == '{'
    ||| c == '}'
    ||| c == '^'
    ||| c == '$'
}

/// A pattern in which every character stands for itself.
pub open spec fn is_literal(pattern: Seq<char>) -> bool {
    forall|i: int| 0 <= i < pattern.len() ==> !is_meta(#[trigger] pattern[i])
}

/// A replacement in which nothing refers to a capture group.
pub open spec fn is_plain(replacement: Seq<char>) -> bool {
    forall|i: int| 0 <= i < replacement.len() ==> #[trigger] replacement[i] != '$'
}

/// Whether `pattern` is a valid regular expression.
///
/// Calls `Regex::new`. Claims that it fails or not by the pattern alone.
#[verifier::external_body]
pub(crate) fn compiles(pattern: &str) -> (res: bool)
    ensures
        res == regex_compiles(pattern@),
{
    Regex::new(pattern).is_ok()
}

/// Whether `pattern` matches somewhere in `haystack`; `None` where `pattern`
/// is no valid regular expression.
///
/// Calls `Regex::is_match`. Claims that its answer is fixed by the pattern and
/// the haystack.
#[verifier::external_body]
pub(crate) fn is_match(pattern: &str, haystack: &str) -> (res: Option<bool>)
    ensures
        res is Some <==> regex_compiles(pattern@),
        res matches Some(found) ==> found == regex_matches(pattern@, haystack@),
{
    match Regex::new(pattern) {
        Ok(re) => Some(re.is_match(haystack)),
        Err(_) => None,
    }
}

/// `haystack` with the leftmost match of `pattern` replaced; `None` where
/// `pattern` is no valid regular expression.
///
/// Calls `Regex::replace`. Claims that its result is fixed by the three texts;
/// that a short pattern without meta characters is valid; that such a pattern
/// is found where its characters first occur, and one with `^` before it only
/// where the haystack begins with them; and that a replacement without `$` is
/// put in as it stands.
#[verifier::external_body]
pub(crate) fn replace_match(pattern: &str, haystack: &str, replacement: &str) -> (res: Option<String>)
    ensures
        res is Some <==> regex_compiles(pattern@),
        is_literal(pattern@) && pattern@.len() <= 64 ==> res is Some,
        res matches Some(out) ==> out@ == regex_replaced(pattern@, haystack@, replacement@),
        res matches Some(out) ==> is_literal(pattern@) && is_plain(replacement@) ==> out@
            == replaced_first(haystack@, pattern@, replacement@),
        res matches Some(out) ==> pattern@.len() > 0 && pattern@[0] == '^' && is_literal(
            pattern@.skip(1),
        ) && is_plain(replacement@) ==> out@ == (if begins(haystack@, pattern@.skip(1)) {
            replacement@ + haystack@.skip(pattern@.len() - 1)
        } else {
            haystack@
        }),
{
    match Regex::new(pattern) {
        Ok(re) => Some(re.replace(haystack, replacement).into_owned()),
        Err(_) => None,
    }
}

/// `name` with its first `INBOX` replaced by `replacement`.
pub(crate) fn replace_inbox(name: &str, replacement: &str) -> (res: String)
    requires
        is_plain(replacement@),
    ensures
        res@ == replaced_first(name@, "INBOX"@, replacement@),
{
    proof {
        reveal_strlit("INBOX");
    }
    match replace_match("INBOX", name, replacement) {
        Some(out) => out,
        None => String::new(),
    }
}

} // verus!
