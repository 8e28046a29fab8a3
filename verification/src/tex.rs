//! Escaping text for LaTeX and assembling escaped text into blocks of markup.

use crate::escape::{escape_text, is_escaped, lemma_escape_text_is_escaped, lemma_steps_escape};
use crate::substitution::{is_escapable, listed_chars, pattern_chars, replace_all, template_ok};
use crate::text::trim;
use vstd::prelude::*;
use vstd::string::StringExecFns;

verus! {

/// The lines of a list: each item behind `\item `, one item to a line.
pub open spec fn item_lines(items: Seq<Seq<char>>) -> Seq<char>
    decreases items.len(),
{
    if items.len() == 0 {
        Seq::empty()
    } else if items.len() == 1 {
        "\\item "@ + items[0]
    } else {
        item_lines(items.drop_last()) + "\n"@ + "\\item "@ + items.last()
    }
}

/// An `itemize` environment around `items`, with the three directives in its
/// options as they were given.
pub open spec fn itemize_text(
    items: Seq<Seq<char>>,
    leftmargin: Seq<char>,
    itemsep: Seq<char>,
    label: Seq<char>,
) -> Seq<char> {
    "\\begin{itemize}[leftmargin="@ + leftmargin + ", topsep=-2em, itemsep="@ + itemsep
        + ", label="@ + label + "]\n"@ + item_lines(items) + "\n\\end{itemize}"@
}

/// A role: the line of its three fields, the first in bold and the third
/// flushed right, above the bulleted list of `items`.
pub open spec fn role_text(
    t1: Seq<char>,
    t2: Seq<char>,
    t3: Seq<char>,
    items: Seq<Seq<char>>,
) -> Seq<char> {
    "\\textbf{"@ + t1 + "}, "@ + t2 + " \\hfill "@ + t3 + "\n"@ + itemize_text(
        items,
        "*"@,
        "-0.7em"@,
        "\\textbullet"@,
    )
}

/// A section: an empty line, the heading with the escaped `name`, and the
/// unlabelled list of `items`.
pub open spec fn section_text(name: Seq<char>, items: Seq<Seq<char>>) -> Seq<char> {
    "\n\\section{"@ + escape_text(name) + "}\n"@ + itemize_text(
        items,
        "0cm"@,
        "-0.0em"@,
        "{}"@,
    )
}

/// What the five patterns match, and that the four templates are well formed.
proof fn lemma_patterns()
    ensures
        pattern_chars("\\\\"@) == Some(set!['\\']),
        pattern_chars("\\~"@) == Some(set!['~']),
        pattern_chars("\\^"@) == Some(set!['^']),
        pattern_chars("[\\#\\%\\&\\_\\^\\{\\}\\~]"@) == Some(
            set!['#', '%', '&', '_', '^', '{', '}', '~'],
        ),
        pattern_chars("\\$"@) == Some(set!['$']),
        template_ok("\\textbackslash "@),
        template_ok("\\textasciitilde"@),
        template_ok("\\textasciicircum"@),
        template_ok("\\${0}"@),
{
    reveal_strlit("\\\\");
    reveal_strlit("\\~");
    reveal_strlit("\\^");
    reveal_strlit("[\\#\\%\\&\\_\\^\\{\\}\\~]");
    reveal_strlit("\\$");
    reveal_strlit("\\textbackslash ");
    reveal_strlit("\\textasciitilde");
    reveal_strlit("\\textasciicircum");
    reveal_strlit("\\${0}");
    assert(pattern_chars("\\\\"@) == Some(set!['\\'])) by {
        lemma_one_escape("\\\\"@);
    }
    assert(pattern_chars("\\~"@) == Some(set!['~'])) by {
        lemma_one_escape("\\~"@);
    }
    assert(pattern_chars("\\^"@) == Some(set!['^'])) by {
        lemma_one_escape("\\^"@);
    }
    assert(pattern_chars("\\$"@) == Some(set!['$'])) by {
        lemma_one_escape("\\$"@);
    }
    let class = "[\\#\\%\\&\\_\\^\\{\\}\\~]"@;
    let items = class.subrange(1, class.len() - 1);
    let i1 = items.skip(2);
    let i2 = i1.skip(2);
    let i3 = i2.skip(2);
    let i4 = i3.skip(2);
    let i5 = i4.skip(2);
    let i6 = i5.skip(2);
    let i7 = i6.skip(2);
    lemma_one_escape(i7);
    assert(listed_chars(i6) == Some(set!['~'].insert('}')));
    assert(listed_chars(i5) == Some(set!['~'].insert('}').insert('{')));
    assert(listed_chars(i4) == Some(set!['~'].insert('}').insert('{').insert('^')));
    assert(listed_chars(i3) == Some(set!['~'].insert('}').insert('{').insert('^').insert('_')));
    assert(listed_chars(i2) == Some(
        set!['~'].insert('}').insert('{').insert('^').insert('_').insert('&'),
    ));
    assert(listed_chars(i1) == Some(
        set!['~'].insert('}').insert('{').insert('^').insert('_').insert('&').insert('%'),
    ));
    assert(listed_chars(items) == Some(
        set!['~'].insert('}').insert('{').insert('^').insert('_').insert('&').insert('%').insert(
            '#',
        ),
    ));
    assert(set!['~'].insert('}').insert('{').insert('^').insert('_').insert('&').insert('%').insert(
        '#',
    ) =~= set!['#', '%', '&', '_', '^', '{', '}', '~']);
}

/// A single escaped character lists that character.
proof fn lemma_one_escape(p: Seq<char>)
    requires
        p.len() == 2,
        p[0] == '\\',
        is_escapable(p[1]),
    ensures
        listed_chars(p) == Some(set![p[1]]),
{
    reveal_with_fuel(listed_chars, 2);
}

/// Escapes `input` for LaTeX: writes each of `\ ~ ^ # % & _ { } $` as its
/// glyph, keeps every other character, and removes the whitespace at both
/// ends of the result.
///
/// A backslash that is already in `input` is text like any other, so text
/// that was escaped before is escaped again. The commands written for `~`
/// and `^` end with their names: a letter that follows one of them in the
/// text runs on from the name.
pub fn sanitize(input: &str) -> (out: String)
    ensures
        out@ == escape_text(input@),
        is_escaped(out@),
{
    proof {
        lemma_patterns();
        lemma_escape_text_is_escaped(input@);
    }
    let result = replace_all("\\\\", input, "\\textbackslash ");
    let result = replace_all("\\~", result.as_str(), "\\textasciitilde");
    let result = replace_all("\\^", result.as_str(), "\\textasciicircum");
    let result = replace_all(
        "[\\#\\%\\&\\_\\^\\{\\}\\~]",
        result.as_str(),
        "\\${0}",
    );
    let result = replace_all("\\$", result.as_str(), "\\${0}");
    proof {
        lemma_steps_escape(input@);
    }
    trim(result.as_str()).to_owned()
}

/// Escapes each text of `input`, in order.
pub fn sanitize_vec(input: &[String]) -> (out: Vec<String>)
    ensures
        out.deep_view() == input.deep_view().map_values(|s: Seq<char>| escape_text(s)),
        forall|i: int| 0 <= i < out.len() ==> is_escaped(#[trigger] out[i]@),
{
    let mut out: Vec<String> = Vec::new();
    let mut i: usize = 0;
    while i < input.len()
        invariant
            i <= input.len(),
            out.len() == i,
            forall|k: int| 0 <= k < i ==> (#[trigger] out[k])@ == escape_text(input[k]@),
            forall|k: int| 0 <= k < i ==> is_escaped(#[trigger] out[k]@),
        decreases input.len() - i,
    {
        out.push(sanitize(input[i].as_str()));
        i += 1;
    }
    out
}

/// Writes the `itemize` environment around `items`.
fn itemize_slice(items: &[String], leftmargin: &str, itemsep: &str, label: &str) -> (out: String)
    ensures
        out@ == itemize_text(items.deep_view(), leftmargin@, itemsep@, label@),
{
    let mut out = String::from_str("\\begin{itemize}[leftmargin=");
    out.append(leftmargin);
    out.append(", topsep=-2em, itemsep=");
    out.append(itemsep);
    out.append(", label=");
    out.append(label);
    out.append("]\n");
    let ghost head = out@;
    let ghost all = items.deep_view();
    let mut i: usize = 0;
    while i < items.len()
        invariant
            i <= items.len(),
            all == items.deep_view(),
            out@ == head + item_lines(all.take(i as int)),
        decreases items.len() - i,
    {
        if i > 0 {
            out.append("\n");
        }
        out.append("\\item ");
        out.append(items[i].as_str());
        proof {
            assert(all.take(i + 1).drop_last() =~= all.take(i as int));
        }
        i += 1;
    }
    assert(all.take(i as int) =~= all);
    out.append("\n\\end{itemize}");
    out
}

/// Renders `items`, lines of text that are already escaped, as an `itemize`
/// environment with one `\item` for each, in their order. `leftmargin`,
/// `itemsep` and `label` are written into the options of the environment as
/// they are: they are directives, and are not escaped.
pub fn itemize(items: Vec<String>, leftmargin: &str, itemsep: &str, label: &str) -> (out: String)
    ensures
        out@ == itemize_text(items.deep_view(), leftmargin@, itemsep@, label@),
{
    let slice = items.as_slice();
    itemize_slice(slice, leftmargin, itemsep, label)
}

/// Renders a role: `t1` in bold, then `t2`, then `t3` flushed right, and below
/// them `items` as a bulleted list. All four are taken as escaped already.
pub fn role(t1: &str, t2: &str, t3: &str, items: &[String]) -> (out: String)
    ensures
        out@ == role_text(t1@, t2@, t3@, items.deep_view()),
{
    let list = itemize_slice(items, "*", "-0.7em", "\\textbullet");
    let mut out = String::from_str("\\textbf{");
    out.append(t1);
    out.append("}, ");
    out.append(t2);
    out.append(" \\hfill ");
    out.append(t3);
    out.append("\n");
    out.append(list.as_str());
    out
}

/// Renders a section: an empty line, the heading `name`, which is escaped
/// here, and `items`, rendered blocks, as a list without labels.
pub fn section(name: &str, items: Vec<String>) -> (out: String)
    ensures
        out@ == section_text(name@, items.deep_view()),
{
    let name = sanitize(name);
    let list = itemize(items, "0cm", "-0.0em", "{}");
    let mut out = String::from_str("\n\\section{");
    out.append(name.as_str());
    out.append("}\n");
    out.append(list.as_str());
    out
}

} // verus!
