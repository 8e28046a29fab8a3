//! Format strings whose holes are written `$(name)`.
//!
//! LaTeX is full of braces, and in a format string of Rust each of them has
//! to be doubled. Written with `$(` and `)` around the names instead, a
//! template can keep the braces of LaTeX single.

use vstd::prelude::*;
use vstd::string::StringExecFns;

verus! {

/// `s` with each `$(` replaced by `{`, from left to right.
pub open spec fn opened_holes(s: Seq<char>) -> Seq<char>
    decreases s.len(),
{
    if s.len() == 0 {
        s
    } else if s.len() >= 2 && s[0] == '$' && s[1] == '(' {
        seq!['{'] + opened_holes(s.skip(2))
    } else {
        seq![s[0]] + opened_holes(s.skip(1))
    }
}

/// `s` with each `)` replaced by `}`.
pub open spec fn closed_holes(s: Seq<char>) -> Seq<char> {
    s.map_values(|c: char| if c == ')' { '}' } else { c })
}

/// The format string that `template` stands for: every `$(` becomes `{`,
/// and then every `)` becomes `}`, whether or not it closes a hole.
pub open spec fn format_text(template: Seq<char>) -> Seq<char> {
    closed_holes(opened_holes(template))
}

/// Rewrites `template`, whose holes are written `$(name)`, into the format
/// string with the holes written `{name}`.
pub fn texformat(template: &str) -> (out: String)
    ensures
        out@ == format_text(template@),
{
    let n: usize = template.unicode_len();
    let mut out = String::new();
    let mut i: usize = 0;
    assert(template@.skip(0) =~= template@);
    while i < n
        invariant
            i <= n,
            n == template@.len(),
            out@ + format_text(template@.skip(i as int)) == format_text(template@),
        decreases n - i,
    {
        let ghost rest = template@.skip(i as int);
        let c = template.get_char(i);
        if c == '$' && i + 1 < n && template.get_char(i + 1) == '(' {
            out.append("{");
            proof {
                reveal_strlit("{");
                assert(rest.skip(2) =~= template@.skip(i + 2));
            }
            i += 2;
        } else {
            if c == ')' {
                out.append("}");
            } else {
                out.append(template.substring_char(i, i + 1));
            }
            proof {
                reveal_strlit("}");
                assert(rest.skip(1) =~= template@.skip(i + 1));
                assert(format_text(rest) =~= seq![if c == ')' {
                    '}'
                } else {
                    c
                }] + format_text(rest.skip(1)));
            }
            i += 1;
        }
    }
    out
}

} // verus!
