//! What escaping a text for LaTeX means, and what holds of escaped text.
//!
//! LaTeX gives ten characters a meaning of their own: `\ ~ ^ # % & _ { } $`.
//! Escaping writes a glyph for each of them, so that the text is printed as
//! it was typed, and cannot change the structure of the document that it is
//! put into.

use crate::substitution::{
    expand, lemma_expand_plain, lemma_substitute_concat, lemma_substitute_untouched, substitute,
};
use crate::text::{is_whitespace, lemma_trimmed_bounds, lemma_trimmed_margins, trimmed};
use vstd::prelude::*;

verus! {

/// The characters that LaTeX reads as such once a backslash stands before
/// them: `# % & _ { } $`.
pub open spec fn is_mark(c: char) -> bool {
    c == '#' || c == '%' || c == '&' || c == '_' || c == '{' || c == '}' || c == '$'
}

/// What is written for the character `c`: a command for `\ ~ ^`, a backslash
/// and the character for a mark, and the character itself otherwise.
pub open spec fn glyph(c: char) -> Seq<char> {
    if c == '\\' {
        "\\textbackslash "@
    } else if c == '~' {
        "\\textasciitilde"@
    } else if c == '^' {
        "\\textasciicircum"@
    } else if is_mark(c) {
        seq!['\\', c]
    } else {
        seq![c]
    }
}

/// The glyphs of the characters of `s`, one after the other.
pub open spec fn escaped(s: Seq<char>) -> Seq<char>
    decreases s.len(),
{
    if s.len() == 0 {
        s
    } else {
        glyph(s[0]) + escaped(s.skip(1))
    }
}

/// The escaped form of `s`, without whitespace at either end.
pub open spec fn escape_text(s: Seq<char>) -> Seq<char> {
    trimmed(escaped(s))
}

/// Whether `word` stands in `out` from index `i` on.
pub open spec fn has_at(out: Seq<char>, i: int, word: Seq<char>) -> bool {
    0 <= i && i + word.len() <= out.len() && out.subrange(i, i + word.len()) == word
}

/// Whether the character at index `i` of `out` is harmless where it stands:
/// it is no `~` and no `^`; if it is a mark, a backslash stands directly
/// before it; and if it is a backslash, a mark or the name of one of the
/// three commands follows.
pub open spec fn escaped_at(out: Seq<char>, i: int) -> bool {
    let c = out[i];
    &&& c != '~'
    &&& c != '^'
    &&& is_mark(c) ==> i > 0 && out[i - 1] == '\\'
    &&& c == '\\' ==> {
        ||| i + 1 < out.len() && is_mark(out[i + 1])
        ||| has_at(out, i + 1, "textbackslash"@)
        ||| has_at(out, i + 1, "textasciitilde"@)
        ||| has_at(out, i + 1, "textasciicircum"@)
    }
}

/// Whether no control character of `out` is left for LaTeX to interpret:
/// every character of `out` is harmless where it stands.
pub open spec fn is_escaped(out: Seq<char>) -> bool {
    forall|i: int| 0 <= i < out.len() ==> escaped_at(out, i)
}

/// The five replacements in the order in which `sanitize` makes them.
pub open spec fn in_steps(s: Seq<char>) -> Seq<char> {
    let s1 = substitute(s, set!['\\'], "\\textbackslash "@);
    let s2 = substitute(s1, set!['~'], "\\textasciitilde"@);
    let s3 = substitute(s2, set!['^'], "\\textasciicircum"@);
    let s4 = substitute(s3, set!['#', '%', '&', '_', '^', '{', '}', '~'], "\\${0}"@);
    substitute(s4, set!['$'], "\\${0}"@)
}

/// The replacements, made one after the other, give each character its glyph.
proof fn lemma_steps_on_char(c: char)
    ensures
        in_steps(seq![c]) == glyph(c),
{
    reveal_strlit("\\textbackslash ");
    reveal_strlit("\\textasciitilde");
    reveal_strlit("\\textasciicircum");
    reveal_strlit("\\${0}");
    reveal_with_fuel(substitute, 2);
    let one = seq![c];
    let bs = "\\textbackslash "@;
    let ti = "\\textasciitilde"@;
    let ci = "\\textasciicircum"@;
    let pre = "\\${0}"@;
    let marks = set!['#', '%', '&', '_', '^', '{', '}', '~'];
    assert(expand(pre, one) =~= seq!['\\', c]) by {
        reveal_with_fuel(expand, 3);
    }
    if c == '\\' {
        lemma_expand_plain(bs, one);
        lemma_substitute_untouched(bs, set!['~'], ti);
        lemma_substitute_untouched(bs, set!['^'], ci);
        lemma_substitute_untouched(bs, marks, pre);
        lemma_substitute_untouched(bs, set!['$'], pre);
    } else if c == '~' {
        lemma_expand_plain(ti, one);
        lemma_substitute_untouched(ti, set!['^'], ci);
        lemma_substitute_untouched(ti, marks, pre);
        lemma_substitute_untouched(ti, set!['$'], pre);
    } else if c == '^' {
        lemma_expand_plain(ci, one);
        lemma_substitute_untouched(ci, marks, pre);
        lemma_substitute_untouched(ci, set!['$'], pre);
    } else if is_mark(c) && c != '$' {
        lemma_substitute_untouched(seq!['\\', c], set!['$'], pre);
    }
}

/// The replacements, made one after the other, distribute over concatenation.
proof fn lemma_steps_concat(a: Seq<char>, b: Seq<char>)
    ensures
        in_steps(a + b) == in_steps(a) + in_steps(b),
{
    let bs = "\\textbackslash "@;
    let ti = "\\textasciitilde"@;
    let ci = "\\textasciicircum"@;
    let pre = "\\${0}"@;
    let marks = set!['#', '%', '&', '_', '^', '{', '}', '~'];
    lemma_substitute_concat(a, b, set!['\\'], bs);
    let a1 = substitute(a, set!['\\'], bs);
    let b1 = substitute(b, set!['\\'], bs);
    lemma_substitute_concat(a1, b1, set!['~'], ti);
    let a2 = substitute(a1, set!['~'], ti);
    let b2 = substitute(b1, set!['~'], ti);
    lemma_substitute_concat(a2, b2, set!['^'], ci);
    let a3 = substitute(a2, set!['^'], ci);
    let b3 = substitute(b2, set!['^'], ci);
    lemma_substitute_concat(a3, b3, marks, pre);
    let a4 = substitute(a3, marks, pre);
    let b4 = substitute(b3, marks, pre);
    lemma_substitute_concat(a4, b4, set!['$'], pre);
}

/// Made in this order, the five replacements never touch what an earlier one
/// wrote: together they replace each character of the input by its glyph.
pub proof fn lemma_steps_escape(s: Seq<char>)
    ensures
        in_steps(s) == escaped(s),
    decreases s.len(),
{
    if s.len() > 0 {
        assert(seq![s[0]] + s.skip(1) =~= s);
        lemma_steps_concat(seq![s[0]], s.skip(1));
        lemma_steps_on_char(s[0]);
        lemma_steps_escape(s.skip(1));
    }
}

/// A glyph put before escaped text leaves it escaped.
proof fn lemma_glyph_prepend(c: char, rest: Seq<char>)
    requires
        is_escaped(rest),
    ensures
        is_escaped(glyph(c) + rest),
{
    reveal_strlit("\\textbackslash ");
    reveal_strlit("\\textasciitilde");
    reveal_strlit("\\textasciicircum");
    reveal_strlit("textbackslash");
    reveal_strlit("textasciitilde");
    reveal_strlit("textasciicircum");
    let g = glyph(c);
    let out = g + rest;
    assert forall|i: int| 0 <= i < out.len() implies escaped_at(out, i) by {
        if i < g.len() {
            if c == '\\' {
                assert(out.subrange(1, 14) =~= "textbackslash"@);
            } else if c == '~' {
                assert(out.subrange(1, 15) =~= "textasciitilde"@);
            } else if c == '^' {
                assert(out.subrange(1, 16) =~= "textasciicircum"@);
            }
        } else {
            let j = i - g.len();
            assert(escaped_at(rest, j));
            if has_at(rest, j + 1, "textbackslash"@) {
                lemma_has_at_shift(rest, g, j + 1, "textbackslash"@);
            }
            if has_at(rest, j + 1, "textasciitilde"@) {
                lemma_has_at_shift(rest, g, j + 1, "textasciitilde"@);
            }
            if has_at(rest, j + 1, "textasciicircum"@) {
                lemma_has_at_shift(rest, g, j + 1, "textasciicircum"@);
            }
        }
    }
}

/// A word found in `rest` is found as far to the right in `front + rest` as
/// `front` is long.
proof fn lemma_has_at_shift(rest: Seq<char>, front: Seq<char>, j: int, word: Seq<char>)
    requires
        has_at(rest, j, word),
    ensures
        has_at(front + rest, front.len() + j, word),
{
    assert((front + rest).subrange(front.len() + j, front.len() + j + word.len())
        =~= rest.subrange(j, j + word.len()));
}

/// Whatever the text, its glyphs leave no control character for LaTeX to
/// interpret.
pub proof fn lemma_escaped_is_escaped(s: Seq<char>)
    ensures
        is_escaped(escaped(s)),
    decreases s.len(),
{
    if s.len() > 0 {
        lemma_escaped_is_escaped(s.skip(1));
        lemma_glyph_prepend(s[0], escaped(s.skip(1)));
    }
}

/// Trimming escaped text leaves it escaped: what it removes is whitespace,
/// and no escape but the last can end in whitespace.
pub proof fn lemma_trimmed_keeps_escaped(out: Seq<char>)
    requires
        is_escaped(out),
    ensures
        is_escaped(trimmed(out)),
{
    reveal_strlit("textbackslash");
    reveal_strlit("textasciitilde");
    reveal_strlit("textasciicircum");
    let (a, b) = lemma_trimmed_bounds(out);
    let t = out.subrange(a, b);
    assert forall|k: int| 0 <= k < t.len() implies escaped_at(t, k) by {
        let i = a + k;
        assert(escaped_at(out, i));
        if has_at(out, i + 1, "textbackslash"@) {
            lemma_has_at_inside(out, a, b, i + 1, "textbackslash"@);
        }
        if has_at(out, i + 1, "textasciitilde"@) {
            lemma_has_at_inside(out, a, b, i + 1, "textasciitilde"@);
        }
        if has_at(out, i + 1, "textasciicircum"@) {
            lemma_has_at_inside(out, a, b, i + 1, "textasciicircum"@);
        }
    }
}

/// A word that ends in no whitespace, and begins within a stretch that has
/// only whitespace behind it, lies within that stretch.
proof fn lemma_has_at_inside(out: Seq<char>, a: int, b: int, i: int, word: Seq<char>)
    requires
        0 <= a <= i <= b <= out.len(),
        has_at(out, i, word),
        word.len() > 0,
        !is_whitespace(word.last()),
        forall|j: int| b <= j < out.len() ==> is_whitespace(#[trigger] out[j]),
    ensures
        has_at(out.subrange(a, b), i - a, word),
{
    assert(out.subrange(a, b).subrange(i - a, i - a + word.len()) =~= out.subrange(
        i,
        i + word.len(),
    ));
}

/// Whatever the text, its escaped form leaves no control character for LaTeX
/// to interpret.
pub proof fn lemma_escape_text_is_escaped(s: Seq<char>)
    ensures
        is_escaped(escape_text(s)),
{
    lemma_escaped_is_escaped(s);
    lemma_trimmed_keeps_escaped(escaped(s));
}

/// The glyphs of a text in two parts are those of the one part and then
/// those of the other.
pub proof fn lemma_escaped_concat(a: Seq<char>, b: Seq<char>)
    ensures
        escaped(a + b) == escaped(a) + escaped(b),
    decreases a.len(),
{
    if a.len() > 0 {
        assert((a + b).skip(1) =~= a.skip(1) + b);
        lemma_escaped_concat(a.skip(1), b);
    }
}

/// Whitespace is its own glyph.
proof fn lemma_escaped_whitespace(w: Seq<char>)
    requires
        forall|i: int| 0 <= i < w.len() ==> is_whitespace(#[trigger] w[i]),
    ensures
        escaped(w) == w,
    decreases w.len(),
{
    if w.len() > 0 {
        lemma_escaped_whitespace(w.skip(1));
    }
}

/// Whitespace around a text does not show in its escaped form: a text need
/// not be trimmed before it is escaped.
pub proof fn lemma_escape_ignores_margins(s: Seq<char>)
    ensures
        escape_text(trimmed(s)) == escape_text(s),
{
    let (a, b) = lemma_trimmed_bounds(s);
    let before = s.subrange(0, a);
    let core = s.subrange(a, b);
    let after = s.subrange(b, s.len() as int);
    assert(before + core + after =~= s);
    lemma_escaped_concat(before + core, after);
    lemma_escaped_concat(before, core);
    lemma_escaped_whitespace(before);
    lemma_escaped_whitespace(after);
    lemma_trimmed_margins(before, escaped(core), after);
}

} // verus!
