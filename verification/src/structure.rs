//! The structure of the document does not depend on what the fields hold.
//!
//! Whatever text a résumé carries, its document has the four sections once
//! each, in their order, and no heading besides theirs; and the characters
//! that the markup does not use itself appear in it escaped, or not at all.

use crate::escape::{
    escape_text, escaped, escaped_at, glyph, has_at, is_escaped, lemma_escape_text_is_escaped,
};
use crate::resume::{
    escaped_lines, Contact, Education, Experience, Project, Resume, Skill, POSTAMBLE, PREAMBLE,
};
use crate::tex::{item_lines, itemize_text, role_text, section_text};
use vstd::prelude::*;

verus! {

/// Whether the backslash at index `i` of `text`, if there is one, begins
/// something else than the heading of a section: within `text`, what follows
/// it departs from `\section{`.
pub open spec fn heading_free_at(text: Seq<char>, i: int) -> bool {
    text[i] == '\\' ==> {
        ||| i + 1 < text.len() && text[i + 1] != 's'
        ||| i + 8 < text.len() && text[i + 8] != '{'
    }
}

/// Whether no backslash of `text` begins the heading of a section, or what
/// could become one when more text follows.
pub open spec fn heading_free(text: Seq<char>) -> bool {
    forall|i: int| 0 <= i < text.len() ==> heading_free_at(text, i)
}

/// The marks that the markup of a document never uses itself: `# % & _ $`.
pub open spec fn is_text_mark(c: char) -> bool {
    c == '#' || c == '%' || c == '&' || c == '_' || c == '$'
}

/// Whether the character at index `i` of `text` is no `~` and no `^`, and,
/// if it is one of `# % & _ $`, stands behind a backslash.
pub open spec fn guarded_at(text: Seq<char>, i: int) -> bool {
    &&& text[i] != '~'
    &&& text[i] != '^'
    &&& is_text_mark(text[i]) ==> i > 0 && text[i - 1] == '\\'
}

/// Whether `text` holds no `~` and no `^`, and each `# % & _ $` of it behind
/// a backslash.
pub open spec fn guarded(text: Seq<char>) -> bool {
    forall|i: int| 0 <= i < text.len() ==> guarded_at(text, i)
}

/// Whether `text` is free of headings and guarded: what the fixed markup
/// between the headings is, and what every escaped text is.
pub open spec fn inert(text: Seq<char>) -> bool {
    heading_free(text) && guarded(text)
}

/// Guarded texts put together are guarded.
pub proof fn lemma_guarded_concat(a: Seq<char>, b: Seq<char>)
    requires
        guarded(a),
        guarded(b),
    ensures
        guarded(a + b),
{
    assert forall|i: int| 0 <= i < (a + b).len() implies guarded_at(a + b, i) by {
        if i < a.len() {
            assert(guarded_at(a, i));
        } else {
            assert(guarded_at(b, i - a.len()));
        }
    }
}

/// Inert texts put together are inert.
pub proof fn lemma_inert_concat(a: Seq<char>, b: Seq<char>)
    requires
        inert(a),
        inert(b),
    ensures
        inert(a + b),
{
    lemma_guarded_concat(a, b);
    assert forall|i: int| 0 <= i < (a + b).len() implies heading_free_at(a + b, i) by {
        if i < a.len() {
            assert(heading_free_at(a, i));
        } else {
            assert(heading_free_at(b, i - a.len()));
        }
    }
}

/// Escaped text is inert: a backslash in it is followed by a mark or by the
/// `t` of one of the three commands, and each mark stands behind a
/// backslash.
pub proof fn lemma_escaped_inert(text: Seq<char>)
    requires
        is_escaped(text),
    ensures
        inert(text),
{
    reveal_strlit("textbackslash");
    reveal_strlit("textasciitilde");
    reveal_strlit("textasciicircum");
    assert forall|i: int| 0 <= i < text.len() implies heading_free_at(text, i) by {
        assert(escaped_at(text, i));
        if has_at(text, i + 1, "textbackslash"@) {
            assert(text.subrange(i + 1, i + 14)[0] == 't');
        }
        if has_at(text, i + 1, "textasciitilde"@) {
            assert(text.subrange(i + 1, i + 15)[0] == 't');
        }
        if has_at(text, i + 1, "textasciicircum"@) {
            assert(text.subrange(i + 1, i + 16)[0] == 't');
        }
    }
    assert forall|i: int| 0 <= i < text.len() implies guarded_at(text, i) by {
        assert(escaped_at(text, i));
    }
}

/// With `x` free of headings, `\section{` is found in `x + \section{ + y`
/// where `x` ends and wherever it is found in `y`, and nowhere else.
pub proof fn lemma_heading_found(x: Seq<char>, y: Seq<char>, i: int)
    requires
        heading_free(x),
    ensures
        has_at(x + "\\section{"@ + y, i, "\\section{"@) <==> (i == x.len() || (i >= x.len() + 9
            && has_at(y, i - x.len() - 9, "\\section{"@))),
{
    reveal_strlit("\\section{");
    let h = "\\section{"@;
    let all = x + h + y;
    if has_at(all, i, h) {
        assert(all.subrange(i, i + 9)[0] == '\\');
        assert(all.subrange(i, i + 9)[1] == 's');
        assert(all.subrange(i, i + 9)[8] == '{');
        if i < x.len() {
            assert(heading_free_at(x, i));
        } else if i >= x.len() + 9 {
            assert(y.subrange(i - x.len() - 9, i - x.len()) =~= all.subrange(i, i + 9));
        }
    }
    if i == x.len() {
        assert(all.subrange(i, i + 9) =~= h);
    }
    if i >= x.len() + 9 && has_at(y, i - x.len() - 9, h) {
        assert(y.subrange(i - x.len() - 9, i - x.len()) =~= all.subrange(i, i + 9));
    }
}

/// Text that is free of headings holds no `\section{`.
pub proof fn lemma_no_heading_found(text: Seq<char>, i: int)
    requires
        heading_free(text),
    ensures
        !has_at(text, i, "\\section{"@),
{
    reveal_strlit("\\section{");
    if has_at(text, i, "\\section{"@) {
        assert(text.subrange(i, i + 9)[0] == '\\');
        assert(text.subrange(i, i + 9)[1] == 's');
        assert(text.subrange(i, i + 9)[8] == '{');
        assert(heading_free_at(text, i));
    }
}

/// The lines of a list are inert where its items are.
proof fn lemma_item_lines_inert(items: Seq<Seq<char>>)
    requires
        forall|k: int| 0 <= k < items.len() ==> inert(#[trigger] items[k]),
    ensures
        inert(item_lines(items)),
    decreases items.len(),
{
    reveal_strlit("\\item ");
    reveal_strlit("\n");
    if items.len() == 1 {
        lemma_inert_concat("\\item "@, items[0]);
    } else if items.len() > 1 {
        let front = item_lines(items.drop_last());
        lemma_item_lines_inert(items.drop_last());
        lemma_inert_concat(front, "\n"@);
        lemma_inert_concat(front + "\n"@, "\\item "@);
        lemma_inert_concat(front + "\n"@ + "\\item "@, items.last());
    }
}

/// A list is inert where its items and its directives are.
proof fn lemma_itemize_inert(
    items: Seq<Seq<char>>,
    leftmargin: Seq<char>,
    itemsep: Seq<char>,
    label: Seq<char>,
)
    requires
        forall|k: int| 0 <= k < items.len() ==> inert(#[trigger] items[k]),
        inert(leftmargin),
        inert(itemsep),
        inert(label),
    ensures
        inert(itemize_text(items, leftmargin, itemsep, label)),
{
    reveal_strlit("\\begin{itemize}[leftmargin=");
    reveal_strlit(", topsep=-2em, itemsep=");
    reveal_strlit(", label=");
    reveal_strlit("]\n");
    reveal_strlit("\n\\end{itemize}");
    lemma_item_lines_inert(items);
    let t1 = "\\begin{itemize}[leftmargin="@ + leftmargin;
    lemma_inert_concat("\\begin{itemize}[leftmargin="@, leftmargin);
    let t2 = t1 + ", topsep=-2em, itemsep="@;
    lemma_inert_concat(t1, ", topsep=-2em, itemsep="@);
    let t3 = t2 + itemsep;
    lemma_inert_concat(t2, itemsep);
    let t4 = t3 + ", label="@;
    lemma_inert_concat(t3, ", label="@);
    let t5 = t4 + label;
    lemma_inert_concat(t4, label);
    let t6 = t5 + "]\n"@;
    lemma_inert_concat(t5, "]\n"@);
    let t7 = t6 + item_lines(items);
    lemma_inert_concat(t6, item_lines(items));
    lemma_inert_concat(t7, "\n\\end{itemize}"@);
}

/// A role is inert where its fields and its items are.
proof fn lemma_role_inert(t1: Seq<char>, t2: Seq<char>, t3: Seq<char>, items: Seq<Seq<char>>)
    requires
        inert(t1),
        inert(t2),
        inert(t3),
        forall|k: int| 0 <= k < items.len() ==> inert(#[trigger] items[k]),
    ensures
        inert(role_text(t1, t2, t3, items)),
{
    reveal_strlit("\\textbf{");
    reveal_strlit("}, ");
    reveal_strlit(" \\hfill ");
    reveal_strlit("\n");
    reveal_strlit("*");
    reveal_strlit("-0.7em");
    reveal_strlit("\\textbullet");
    lemma_itemize_inert(items, "*"@, "-0.7em"@, "\\textbullet"@);
    let r1 = "\\textbf{"@ + t1;
    lemma_inert_concat("\\textbf{"@, t1);
    let r2 = r1 + "}, "@;
    lemma_inert_concat(r1, "}, "@);
    let r3 = r2 + t2;
    lemma_inert_concat(r2, t2);
    let r4 = r3 + " \\hfill "@;
    lemma_inert_concat(r3, " \\hfill "@);
    let r5 = r4 + t3;
    lemma_inert_concat(r4, t3);
    let r6 = r5 + "\n"@;
    lemma_inert_concat(r5, "\n"@);
    lemma_inert_concat(r6, itemize_text(items, "*"@, "-0.7em"@, "\\textbullet"@));
}

/// Whatever the text, its escaped form is inert.
pub proof fn lemma_escape_text_inert(s: Seq<char>)
    ensures
        inert(escape_text(s)),
{
    lemma_escape_text_is_escaped(s);
    lemma_escaped_inert(escape_text(s));
}

/// What follows `\section{` in a section: the escaped name, the closing
/// brace, and the list of the items.
pub open spec fn section_tail(name: Seq<char>, items: Seq<Seq<char>>) -> Seq<char> {
    escape_text(name) + "}\n"@ + itemize_text(items, "0cm"@, "-0.0em"@, "{}"@)
}

/// A section is a line break, `\section{`, and its tail; the tail is inert
/// where the items are.
proof fn lemma_section_split(name: Seq<char>, items: Seq<Seq<char>>)
    requires
        forall|k: int| 0 <= k < items.len() ==> inert(#[trigger] items[k]),
    ensures
        section_text(name, items) == "\n"@ + "\\section{"@ + section_tail(name, items),
        inert(section_tail(name, items)),
{
    reveal_strlit("\n\\section{");
    reveal_strlit("\\section{");
    reveal_strlit("\n");
    reveal_strlit("}\n");
    reveal_strlit("0cm");
    reveal_strlit("-0.0em");
    reveal_strlit("{}");
    lemma_escape_text_inert(name);
    lemma_itemize_inert(items, "0cm"@, "-0.0em"@, "{}"@);
    lemma_inert_concat(escape_text(name), "}\n"@);
    lemma_inert_concat(
        escape_text(name) + "}\n"@,
        itemize_text(items, "0cm"@, "-0.0em"@, "{}"@),
    );
}

/// The escaped lines of a description are inert.
proof fn lemma_lines_inert(lines: Seq<String>)
    ensures
        forall|k: int| 0 <= k < lines.len() ==> inert(#[trigger] escaped_lines(lines)[k]),
{
    assert forall|k: int| 0 <= k < lines.len() implies inert(#[trigger] escaped_lines(lines)[k]) by {
        lemma_escape_text_inert(lines[k]@);
    }
}

/// The block of a course of study is inert.
proof fn lemma_education_inert(e: Education)
    ensures
        inert(e.tex()),
{
    lemma_escape_text_inert(e.program@);
    lemma_escape_text_inert(e.institution@);
    lemma_escape_text_inert(e.graduation@);
    lemma_lines_inert(e.description@);
    lemma_role_inert(
        escape_text(e.program@),
        escape_text(e.institution@),
        escape_text(e.graduation@),
        escaped_lines(e.description@),
    );
}

/// The block of a position is inert.
proof fn lemma_experience_inert(e: Experience)
    ensures
        inert(e.tex()),
{
    reveal_strlit(" -- ");
    lemma_escape_text_inert(e.position@);
    lemma_escape_text_inert(e.company@);
    lemma_escape_text_inert(e.begin@);
    lemma_escape_text_inert(e.end@);
    lemma_inert_concat(escape_text(e.begin@), " -- "@);
    lemma_inert_concat(escape_text(e.begin@) + " -- "@, escape_text(e.end@));
    lemma_lines_inert(e.description@);
    lemma_role_inert(
        escape_text(e.position@),
        escape_text(e.company@),
        e.time(),
        escaped_lines(e.description@),
    );
}

/// The block of a project is inert.
proof fn lemma_project_inert(p: Project)
    ensures
        inert(p.tex()),
{
    lemma_escape_text_inert(p.title@);
    lemma_escape_text_inert(p.category@);
    lemma_escape_text_inert(p.github@);
    lemma_lines_inert(p.description@);
    lemma_role_inert(
        escape_text(p.title@),
        escape_text(p.category@),
        escape_text(p.github@),
        escaped_lines(p.description@),
    );
}

/// The line of a skill is inert.
proof fn lemma_skill_inert(s: Skill)
    ensures
        inert(s.tex()),
{
    reveal_strlit("\\textbf{");
    reveal_strlit("}:\\ {");
    reveal_strlit("}");
    lemma_escape_text_inert(s.area@);
    lemma_escape_text_inert(s.description@);
    let t1 = "\\textbf{"@ + escape_text(s.area@);
    lemma_inert_concat("\\textbf{"@, escape_text(s.area@));
    let t2 = t1 + "}:\\ {"@;
    lemma_inert_concat(t1, "}:\\ {"@);
    let t3 = t2 + escape_text(s.description@);
    lemma_inert_concat(t2, escape_text(s.description@));
    lemma_inert_concat(t3, "}"@);
}

/// The contact block is inert.
proof fn lemma_contact_inert(c: Contact)
    ensures
        inert(c.tex()),
{
    reveal_strlit("\\begin{center}\n{\\Huge\\textbf{");
    reveal_strlit("}} \\\\[.8em]\n");
    reveal_strlit(" \\hspace{2em} github.com/");
    reveal_strlit("\n\\end{center}");
    lemma_escape_text_inert(c.name@);
    lemma_escape_text_inert(c.email@);
    lemma_escape_text_inert(c.github@);
    let t1 = "\\begin{center}\n{\\Huge\\textbf{"@ + escape_text(c.name@);
    lemma_inert_concat("\\begin{center}\n{\\Huge\\textbf{"@, escape_text(c.name@));
    let t2 = t1 + "}} \\\\[.8em]\n"@;
    lemma_inert_concat(t1, "}} \\\\[.8em]\n"@);
    let t3 = t2 + escape_text(c.email@);
    lemma_inert_concat(t2, escape_text(c.email@));
    let t4 = t3 + " \\hspace{2em} github.com/"@;
    lemma_inert_concat(t3, " \\hspace{2em} github.com/"@);
    let t5 = t4 + escape_text(c.github@);
    lemma_inert_concat(t4, escape_text(c.github@));
    lemma_inert_concat(t5, "\n\\end{center}"@);
}

/// The glyphs of a text without control characters are the text itself.
proof fn lemma_escaped_plain(s: Seq<char>)
    requires
        forall|i: int| 0 <= i < s.len() ==> glyph(#[trigger] s[i]) == seq![s[i]],
    ensures
        escaped(s) == s,
    decreases s.len(),
{
    if s.len() > 0 {
        lemma_escaped_plain(s.skip(1));
    }
}

/// The names of the four sections are their own escaped forms.
proof fn lemma_names_plain()
    ensures
        escape_text("Education"@) == "Education"@,
        escape_text("Experience"@) == "Experience"@,
        escape_text("Projects"@) == "Projects"@,
        escape_text("Skills"@) == "Skills"@,
{
    reveal_strlit("Education");
    reveal_strlit("Experience");
    reveal_strlit("Projects");
    reveal_strlit("Skills");
    reveal_strlit("\\textbackslash ");
    reveal_strlit("\\textasciitilde");
    reveal_strlit("\\textasciicircum");
    lemma_escaped_plain("Education"@);
    lemma_escaped_plain("Experience"@);
    lemma_escaped_plain("Projects"@);
    lemma_escaped_plain("Skills"@);
}

/// The document up to the empty line before its first section.
pub open spec fn head(r: Resume) -> Seq<char> {
    PREAMBLE@ + "\n"@ + r.contact.tex() + "\n"@
}

/// What follows `\section{` in each of the four sections.
pub open spec fn tails(r: Resume) -> (Seq<char>, Seq<char>, Seq<char>, Seq<char>) {
    (
        section_tail("Education"@, r.education.0@.map_values(|e: Education| e.tex())),
        section_tail("Experience"@, r.experience.0@.map_values(|e: Experience| e.tex())),
        section_tail("Projects"@, r.projects.0@.map_values(|e: Project| e.tex())),
        section_tail("Skills"@, r.skills.0@.map_values(|e: Skill| e.tex())),
    )
}

/// Where the contact block begins in the document.
pub open spec fn contact_place() -> int {
    PREAMBLE@.len() as int + 1
}

/// Where the headings of the four sections begin in the document.
pub open spec fn heading_places(r: Resume) -> (int, int, int, int) {
    let p1 = head(r).len() as int + 1;
    let p2 = p1 + r.education.tex().len() + 1;
    let p3 = p2 + r.experience.tex().len() + 1;
    let p4 = p3 + r.projects.tex().len() + 1;
    (p1, p2, p3, p4)
}

/// Each section is a line break, `\section{`, and its tail, and the tails
/// are inert.
proof fn lemma_sections_split(r: Resume)
    ensures
        r.education.tex() == "\n"@ + "\\section{"@ + tails(r).0,
        r.experience.tex() == "\n"@ + "\\section{"@ + tails(r).1,
        r.projects.tex() == "\n"@ + "\\section{"@ + tails(r).2,
        r.skills.tex() == "\n"@ + "\\section{"@ + tails(r).3,
        inert(tails(r).0),
        inert(tails(r).1),
        inert(tails(r).2),
        inert(tails(r).3),
{
    let e1 = r.education.0@.map_values(|e: Education| e.tex());
    let e2 = r.experience.0@.map_values(|e: Experience| e.tex());
    let e3 = r.projects.0@.map_values(|e: Project| e.tex());
    let e4 = r.skills.0@.map_values(|e: Skill| e.tex());
    assert forall|k: int| 0 <= k < e1.len() implies inert(#[trigger] e1[k]) by {
        lemma_education_inert(r.education.0@[k]);
    }
    assert forall|k: int| 0 <= k < e2.len() implies inert(#[trigger] e2[k]) by {
        lemma_experience_inert(r.experience.0@[k]);
    }
    assert forall|k: int| 0 <= k < e3.len() implies inert(#[trigger] e3[k]) by {
        lemma_project_inert(r.projects.0@[k]);
    }
    assert forall|k: int| 0 <= k < e4.len() implies inert(#[trigger] e4[k]) by {
        lemma_skill_inert(r.skills.0@[k]);
    }
    lemma_section_split("Education"@, e1);
    lemma_section_split("Experience"@, e2);
    lemma_section_split("Projects"@, e3);
    lemma_section_split("Skills"@, e4);
}

/// The head of the document is inert.
proof fn lemma_head_inert(r: Resume)
    ensures
        inert(head(r)),
{
    reveal_strlit("\n");
    lemma_preamble_inert();
    lemma_contact_inert(r.contact);
    lemma_inert_concat(PREAMBLE@, "\n"@);
    lemma_inert_concat(PREAMBLE@ + "\n"@, r.contact.tex());
    lemma_inert_concat(PREAMBLE@ + "\n"@ + r.contact.tex(), "\n"@);
}

/// A document of four sections, each split at `h`, is four times `h` with a
/// stretch of text before, between and behind.
proof fn lemma_regroup(
    head: Seq<char>,
    nl: Seq<char>,
    h: Seq<char>,
    t1: Seq<char>,
    t2: Seq<char>,
    t3: Seq<char>,
    t4: Seq<char>,
    post: Seq<char>,
)
    ensures
        head + (nl + h + t1) + nl + (nl + h + t2) + nl + (nl + h + t3) + nl + (nl + h + t4) + nl
            + post + nl == (head + nl) + h + (t1 + nl + nl) + h + (t2 + nl + nl) + h + (t3 + nl
            + nl) + h + (t4 + nl + post + nl),
{
}

/// Where `\section{` stands between five stretches that are free of
/// headings, it is found where it was put and nowhere else.
proof fn lemma_four_headings(
    x0: Seq<char>,
    x1: Seq<char>,
    x2: Seq<char>,
    x3: Seq<char>,
    y: Seq<char>,
    i: int,
)
    requires
        heading_free(x0),
        heading_free(x1),
        heading_free(x2),
        heading_free(x3),
        heading_free(y),
        has_at(
            x0 + "\\section{"@ + x1 + "\\section{"@ + x2 + "\\section{"@ + x3 + "\\section{"@ + y,
            i,
            "\\section{"@,
        ),
    ensures
        i == x0.len() || i == x0.len() + 9 + x1.len() || i == x0.len() + 9 + x1.len() + 9
            + x2.len() || i == x0.len() + 9 + x1.len() + 9 + x2.len() + 9 + x3.len(),
{
    let h = "\\section{"@;
    let y2 = x3 + h + y;
    let y1 = x2 + h + y2;
    let y0 = x1 + h + y1;
    assert(x0 + h + x1 + h + x2 + h + x3 + h + y =~= x0 + h + y0);
    lemma_heading_found(x0, y0, i);
    lemma_heading_found(x1, y1, i - x0.len() - 9);
    lemma_heading_found(x2, y2, i - x0.len() - 9 - x1.len() - 9);
    lemma_heading_found(x3, y, i - x0.len() - 9 - x1.len() - 9 - x2.len() - 9);
    lemma_no_heading_found(y, i - x0.len() - 9 - x1.len() - 9 - x2.len() - 9 - x3.len() - 9);
}

/// The stretches of the document before, between and behind the headings
/// are inert.
proof fn lemma_stretches_inert(r: Resume)
    ensures
        inert(head(r) + "\n"@),
        inert(tails(r).0 + "\n"@ + "\n"@),
        inert(tails(r).1 + "\n"@ + "\n"@),
        inert(tails(r).2 + "\n"@ + "\n"@),
        inert(tails(r).3 + "\n"@ + POSTAMBLE@ + "\n"@),
{
    reveal_strlit("\n");
    let nl = "\n"@;
    let (t1, t2, t3, t4) = tails(r);
    lemma_sections_split(r);
    lemma_head_inert(r);
    lemma_preamble_inert();
    lemma_inert_concat(head(r), nl);
    lemma_inert_concat(t1, nl);
    lemma_inert_concat(t1 + nl, nl);
    lemma_inert_concat(t2, nl);
    lemma_inert_concat(t2 + nl, nl);
    lemma_inert_concat(t3, nl);
    lemma_inert_concat(t3 + nl, nl);
    lemma_inert_concat(t4, nl);
    lemma_inert_concat(t4 + nl, POSTAMBLE@);
    lemma_inert_concat(t4 + nl + POSTAMBLE@, nl);
}

/// The places of the headings, counted along the stretches between them.
proof fn lemma_places(r: Resume)
    ensures
        ({
            let (p1, p2, p3, p4) = heading_places(r);
            let (t1, t2, t3, t4) = tails(r);
            &&& p1 == (head(r) + "\n"@).len()
            &&& p2 == p1 + 9 + (t1 + "\n"@ + "\n"@).len()
            &&& p3 == p2 + 9 + (t2 + "\n"@ + "\n"@).len()
            &&& p4 == p3 + 9 + (t3 + "\n"@ + "\n"@).len()
            &&& contact_place() + r.contact.tex().len() < p1
        }),
{
    reveal_strlit("\n");
    reveal_strlit("\\section{");
    lemma_sections_split(r);
}

/// A word found in `part` is found as far to the right in
/// `front + part + more` as `front` is long.
proof fn lemma_has_at_within(
    front: Seq<char>,
    part: Seq<char>,
    more: Seq<char>,
    j: int,
    word: Seq<char>,
)
    requires
        has_at(part, j, word),
    ensures
        has_at(front + part + more, front.len() + j, word),
{
    assert((front + part + more).subrange(front.len() + j, front.len() + j + word.len())
        =~= part.subrange(j, j + word.len()));
}

/// A section whose name is its own escaped form has its heading, name and
/// braces, behind the line break that it begins with.
proof fn lemma_section_heading(name: Seq<char>, items: Seq<Seq<char>>, heading: Seq<char>)
    requires
        escape_text(name) == name,
        heading == "\\section{"@ + name + "}"@,
    ensures
        has_at(section_text(name, items), 1, heading),
{
    reveal_strlit("\n\\section{");
    reveal_strlit("\\section{");
    reveal_strlit("}\n");
    reveal_strlit("}");
    assert(section_text(name, items).subrange(1, 1 + heading.len() as int) =~= heading);
}

/// The four headings, as they are written.
proof fn lemma_headings_spelled()
    ensures
        "\\section{Education}"@ == "\\section{"@ + "Education"@ + "}"@,
        "\\section{Experience}"@ == "\\section{"@ + "Experience"@ + "}"@,
        "\\section{Projects}"@ == "\\section{"@ + "Projects"@ + "}"@,
        "\\section{Skills}"@ == "\\section{"@ + "Skills"@ + "}"@,
{
    reveal_strlit("\\section{Education}");
    reveal_strlit("\\section{Experience}");
    reveal_strlit("\\section{Projects}");
    reveal_strlit("\\section{Skills}");
    reveal_strlit("\\section{");
    reveal_strlit("Education");
    reveal_strlit("Experience");
    reveal_strlit("Projects");
    reveal_strlit("Skills");
    reveal_strlit("}");
}

/// In a document put together from its parts, what is found in a part is
/// found in the document, as far to the right as the parts before it are
/// long.
proof fn lemma_parts_found(
    pre: Seq<char>,
    nl: Seq<char>,
    c: Seq<char>,
    s1: Seq<char>,
    s2: Seq<char>,
    s3: Seq<char>,
    s4: Seq<char>,
    post: Seq<char>,
    w1: Seq<char>,
    w2: Seq<char>,
    w3: Seq<char>,
    w4: Seq<char>,
)
    requires
        has_at(s1, 1, w1),
        has_at(s2, 1, w2),
        has_at(s3, 1, w3),
        has_at(s4, 1, w4),
    ensures
        ({
            let doc = pre + nl + c + nl + s1 + nl + s2 + nl + s3 + nl + s4 + nl + post + nl;
            let d1 = pre + nl + c + nl;
            let d2 = d1 + s1 + nl;
            let d3 = d2 + s2 + nl;
            let d4 = d3 + s3 + nl;
            &&& has_at(doc, (pre + nl).len() as int, c)
            &&& has_at(doc, d1.len() as int + 1, w1)
            &&& has_at(doc, d2.len() as int + 1, w2)
            &&& has_at(doc, d3.len() as int + 1, w3)
            &&& has_at(doc, d4.len() as int + 1, w4)
        }),
{
    let doc = pre + nl + c + nl + s1 + nl + s2 + nl + s3 + nl + s4 + nl + post + nl;
    let d1 = pre + nl + c + nl;
    let d2 = d1 + s1 + nl;
    let d3 = d2 + s2 + nl;
    let d4 = d3 + s3 + nl;
    let end = nl + post + nl;
    assert(has_at(doc, (pre + nl).len() as int, c)) by {
        assert(c.subrange(0, c.len() as int) =~= c);
        let more = nl + s1 + nl + s2 + nl + s3 + nl + s4 + end;
        lemma_has_at_within(pre + nl, c, more, 0, c);
        assert(doc =~= pre + nl + c + more);
    }
    assert(has_at(doc, d1.len() as int + 1, w1)) by {
        let more = nl + s2 + nl + s3 + nl + s4 + end;
        lemma_has_at_within(d1, s1, more, 1, w1);
        assert(doc =~= d1 + s1 + more);
    }
    assert(has_at(doc, d2.len() as int + 1, w2)) by {
        let more = nl + s3 + nl + s4 + end;
        lemma_has_at_within(d2, s2, more, 1, w2);
        assert(doc =~= d2 + s2 + more);
    }
    assert(has_at(doc, d3.len() as int + 1, w3)) by {
        let more = nl + s4 + end;
        lemma_has_at_within(d3, s3, more, 1, w3);
        assert(doc =~= d3 + s3 + more);
    }
    assert(has_at(doc, d4.len() as int + 1, w4)) by {
        lemma_has_at_within(d4, s4, end, 1, w4);
        assert(doc =~= d4 + s4 + end);
    }
}

/// Each section has its heading behind the line break that it begins with.
proof fn lemma_headings_in_sections(r: Resume)
    ensures
        has_at(r.education.tex(), 1, "\\section{Education}"@),
        has_at(r.experience.tex(), 1, "\\section{Experience}"@),
        has_at(r.projects.tex(), 1, "\\section{Projects}"@),
        has_at(r.skills.tex(), 1, "\\section{Skills}"@),
{
    lemma_names_plain();
    lemma_headings_spelled();
    lemma_section_heading(
        "Education"@,
        r.education.0@.map_values(|e: Education| e.tex()),
        "\\section{Education}"@,
    );
    lemma_section_heading(
        "Experience"@,
        r.experience.0@.map_values(|e: Experience| e.tex()),
        "\\section{Experience}"@,
    );
    lemma_section_heading(
        "Projects"@,
        r.projects.0@.map_values(|e: Project| e.tex()),
        "\\section{Projects}"@,
    );
    lemma_section_heading(
        "Skills"@,
        r.skills.0@.map_values(|e: Skill| e.tex()),
        "\\section{Skills}"@,
    );
}

/// The contact block and the four headings stand at their places.
proof fn lemma_names_found(r: Resume)
    ensures
        ({
            let doc = r.tex();
            let (p1, p2, p3, p4) = heading_places(r);
            &&& has_at(doc, contact_place(), r.contact.tex())
            &&& has_at(doc, p1, "\\section{Education}"@)
            &&& has_at(doc, p2, "\\section{Experience}"@)
            &&& has_at(doc, p3, "\\section{Projects}"@)
            &&& has_at(doc, p4, "\\section{Skills}"@)
        }),
{
    reveal_strlit("\n");
    lemma_headings_in_sections(r);
    lemma_parts_found(
        PREAMBLE@,
        "\n"@,
        r.contact.tex(),
        r.education.tex(),
        r.experience.tex(),
        r.projects.tex(),
        r.skills.tex(),
        POSTAMBLE@,
        "\\section{Education}"@,
        "\\section{Experience}"@,
        "\\section{Projects}"@,
        "\\section{Skills}"@,
    );
}

/// Whatever its fields hold, the document of a résumé has the contact block
/// behind the preamble, then the headings of Education, Experience, Projects
/// and Skills in this order, and `\section{` nowhere but in these four.
pub proof fn lemma_sections_once(r: Resume)
    ensures
        ({
            let doc = r.tex();
            let (p1, p2, p3, p4) = heading_places(r);
            &&& has_at(doc, contact_place(), r.contact.tex())
            &&& contact_place() + r.contact.tex().len() < p1 < p2 < p3 < p4
            &&& has_at(doc, p1, "\\section{Education}"@)
            &&& has_at(doc, p2, "\\section{Experience}"@)
            &&& has_at(doc, p3, "\\section{Projects}"@)
            &&& has_at(doc, p4, "\\section{Skills}"@)
            &&& forall|i: int|
                has_at(doc, i, "\\section{"@) ==> i == p1 || i == p2 || i == p3 || i == p4
        }),
{
    let doc = r.tex();
    let (p1, p2, p3, p4) = heading_places(r);
    let (t1, t2, t3, t4) = tails(r);
    let nl = "\n"@;
    let h = "\\section{"@;
    lemma_sections_split(r);
    lemma_places(r);
    let x0 = head(r) + nl;
    let x1 = t1 + nl + nl;
    let x2 = t2 + nl + nl;
    let x3 = t3 + nl + nl;
    let y = t4 + nl + POSTAMBLE@ + nl;
    lemma_regroup(head(r), nl, h, t1, t2, t3, t4, POSTAMBLE@);
    lemma_stretches_inert(r);
    assert forall|i: int| has_at(doc, i, h) implies i == p1 || i == p2 || i == p3 || i == p4 by {
        lemma_four_headings(x0, x1, x2, x3, y, i);
    }
    lemma_names_found(r);
}

/// Guarded stretches with a guarded word between them make a guarded text.
proof fn lemma_guarded_stretches(
    x0: Seq<char>,
    x1: Seq<char>,
    x2: Seq<char>,
    x3: Seq<char>,
    y: Seq<char>,
    h: Seq<char>,
)
    requires
        guarded(x0),
        guarded(x1),
        guarded(x2),
        guarded(x3),
        guarded(y),
        guarded(h),
    ensures
        guarded(x0 + h + x1 + h + x2 + h + x3 + h + y),
{
    lemma_guarded_concat(x0, h);
    lemma_guarded_concat(x0 + h, x1);
    lemma_guarded_concat(x0 + h + x1, h);
    lemma_guarded_concat(x0 + h + x1 + h, x2);
    lemma_guarded_concat(x0 + h + x1 + h + x2, h);
    lemma_guarded_concat(x0 + h + x1 + h + x2 + h, x3);
    lemma_guarded_concat(x0 + h + x1 + h + x2 + h + x3, h);
    lemma_guarded_concat(x0 + h + x1 + h + x2 + h + x3 + h, y);
}

/// The word `\section{` is guarded.
proof fn lemma_heading_guarded()
    ensures
        guarded("\\section{"@),
{
    reveal_strlit("\\section{");
}

/// Whatever its fields hold, the document of a résumé has no `~` and no `^`,
/// and each `# % & _ $` in it stands behind a backslash.
pub proof fn lemma_marks_guarded(r: Resume)
    ensures
        guarded(r.tex()),
{
    let (t1, t2, t3, t4) = tails(r);
    let nl = "\n"@;
    let h = "\\section{"@;
    lemma_sections_split(r);
    lemma_stretches_inert(r);
    lemma_heading_guarded();
    lemma_regroup(head(r), nl, h, t1, t2, t3, t4, POSTAMBLE@);
    lemma_guarded_stretches(
        head(r) + nl,
        t1 + nl + nl,
        t2 + nl + nl,
        t3 + nl + nl,
        t4 + nl + POSTAMBLE@ + nl,
        h,
    );
}

/// The preamble and the postamble are inert.
proof fn lemma_preamble_inert()
    ensures
        inert(PREAMBLE@),
        inert(POSTAMBLE@),
{
    reveal_strlit(
        "\\documentclass[12pt,a4paper]{article}\n\\pagestyle{empty}\n\\usepackage[utf8]{inputenc}\n\\usepackage[parfill]{parskip}\n\\usepackage[margin=1cm]{geometry}\n\\usepackage{hyperref, graphicx, enumitem, titlesec, fontspec}\n\\usepackage[sfdefault]{inter}\n\\begin{document}\n\\titleformat{\\section}{\\large\\bf}{}{0cm}{}[\\titlerule\\vspace{-0.5em}]\n",
    );
    reveal_strlit("\\end{document}\n");
}

} // verus!
