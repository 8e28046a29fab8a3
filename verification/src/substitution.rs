//! Replacing single characters of a text, done by the `regex` crate.
//!
//! Only two shapes of pattern are used here, and both match one character at
//! a time: an escaped character such as `\~`, and a bracketed list of escaped
//! characters such as `[\#\%]`. For these the result of a replacement can be
//! stated in a few lines, which is what the contract of [`replace_all`] does.

use regex::Regex;
use vstd::prelude::*;

verus! {

/// Whether `\c` is a pattern for the character `c` itself: so it is for every
/// ASCII character but the letters, the digits, `<` and `>`.
pub open spec fn is_escapable(c: char) -> bool {
    let n = c as u32;
    &&& n < 0x80
    &&& !(0x30 <= n <= 0x39)
    &&& !(0x41 <= n <= 0x5a)
    &&& !(0x61 <= n <= 0x7a)
    &&& c != '<'
    &&& c != '>'
}

/// The characters named by `items`, a run of escaped characters `\c`; `None`
/// where `items` is anything else.
pub open spec fn listed_chars(items: Seq<char>) -> Option<Set<char>>
    decreases items.len(),
{
    if items.len() == 0 {
        Some(Set::empty())
    } else if items.len() >= 2 && items[0] == '\\' && is_escapable(items[1]) {
        match listed_chars(items.skip(2)) {
            Some(rest) => Some(rest.insert(items[1])),
            None => None,
        }
    } else {
        None
    }
}

/// The characters that `pattern` matches, where `pattern` is one escaped
/// character or a bracketed list of at least one; `None` for any other
/// pattern.
pub open spec fn pattern_chars(pattern: Seq<char>) -> Option<Set<char>> {
    if pattern.len() == 2 {
        listed_chars(pattern)
    } else if pattern.len() >= 4 && pattern.first() == '[' && pattern.last() == ']' {
        listed_chars(pattern.subrange(1, pattern.len() - 1))
    } else {
        None
    }
}

/// Whether every `$` of `template` begins `${0}`, the reference to the whole
/// match.
pub open spec fn template_ok(template: Seq<char>) -> bool {
    forall|i: int|
        0 <= i < template.len() && #[trigger] template[i] == '$' ==> {
            &&& i + 3 < template.len()
            &&& template[i + 1] == '{'
            &&& template[i + 2] == '0'
            &&& template[i + 3] == '}'
        }
}

/// `template` with each `${0}` replaced by `matched`.
pub open spec fn expand(template: Seq<char>, matched: Seq<char>) -> Seq<char>
    decreases template.len(),
{
    if template.len() == 0 {
        template
    } else if template[0] != '$' {
        seq![template[0]] + expand(template.skip(1), matched)
    } else if template.len() >= 4 {
        matched + expand(template.skip(4), matched)
    } else {
        matched
    }
}

/// `text` with each character that is in `chars` replaced by the expansion
/// of `template` for it, and every other character kept.
pub open spec fn substitute(text: Seq<char>, chars: Set<char>, template: Seq<char>) -> Seq<char>
    decreases text.len(),
{
    if text.len() == 0 {
        text
    } else if chars.contains(text[0]) {
        expand(template, seq![text[0]]) + substitute(text.skip(1), chars, template)
    } else {
        seq![text[0]] + substitute(text.skip(1), chars, template)
    }
}

/// Compiles `pattern` with `regex::Regex::new` and calls `Regex::replace_all`
/// on `text` with `template` as the replacement string.
///
/// Not proved, but taken from the documentation of `regex`: a backslash before
/// an ASCII character that is no letter, digit, `<` or `>` matches that
/// character; a bracketed list matches any one of its members; the matches
/// are replaced from left to right without overlap; and in the replacement
/// string `${0}` stands for the text of the match, anything without a `$` for
/// itself. `requires` admits no other pattern and no other use of `$`, so the
/// pattern always compiles.
#[verifier::external_body]
pub(crate) fn replace_all(pattern: &str, text: &str, template: &str) -> (out: String)
    requires
        pattern_chars(pattern@) is Some,
        template_ok(template@),
    ensures
        out@ == substitute(text@, pattern_chars(pattern@)->0, template@),
{
    Regex::new(pattern).unwrap().replace_all(text, template).into_owned()
}

/// Replacement distributes over concatenation.
pub proof fn lemma_substitute_concat(
    a: Seq<char>,
    b: Seq<char>,
    chars: Set<char>,
    template: Seq<char>,
)
    ensures
        substitute(a + b, chars, template) == substitute(a, chars, template) + substitute(
            b,
            chars,
            template,
        ),
    decreases a.len(),
{
    if a.len() > 0 {
        assert((a + b).skip(1) =~= a.skip(1) + b);
        lemma_substitute_concat(a.skip(1), b, chars, template);
    }
}

/// A text that holds none of the characters is left as it is.
pub proof fn lemma_substitute_untouched(text: Seq<char>, chars: Set<char>, template: Seq<char>)
    requires
        forall|i: int| 0 <= i < text.len() ==> !chars.contains(#[trigger] text[i]),
    ensures
        substitute(text, chars, template) == text,
    decreases text.len(),
{
    if text.len() > 0 {
        lemma_substitute_untouched(text.skip(1), chars, template);
    }
}

/// A template without `$` expands to itself.
pub proof fn lemma_expand_plain(template: Seq<char>, matched: Seq<char>)
    requires
        forall|i: int| 0 <= i < template.len() ==> #[trigger] template[i] != '$',
    ensures
        expand(template, matched) == template,
    decreases template.len(),
{
    if template.len() > 0 {
        lemma_expand_plain(template.skip(1), matched);
    }
}

} // verus!
