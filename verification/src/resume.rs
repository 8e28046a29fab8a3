//! The résumé as data, and its rendering as a LaTeX document.
//!
//! Every field is free text. It is escaped on its way into the markup, once,
//! and nothing else of it reaches the document.

use crate::escape::escape_text;
use crate::tex::{role, role_text, sanitize, sanitize_vec, section, section_text};
use vstd::prelude::*;
use vstd::string::StringExecFns;

verus! {

/// A résumé: who it is about, and the entries of its four sections.
#[derive(Debug, PartialEq, Eq)]
pub struct Resume {
    pub contact: Contact,
    pub education: Educations,
    pub experience: Experiences,
    pub projects: Projects,
    pub skills: Skills,
}

/// How to reach the person.
#[derive(Debug, PartialEq, Eq)]
pub struct Contact {
    pub name: String,
    pub email: String,
    pub github: String,
}

/// The entries of the section on education, in order.
#[derive(Debug, PartialEq, Eq)]
pub struct Educations(pub Vec<Education>);

/// A course of study.
#[derive(Debug, PartialEq, Eq)]
pub struct Education {
    pub program: String,
    pub institution: String,
    pub graduation: String,
    pub description: Vec<String>,
}

/// The entries of the section on experience, in order.
#[derive(Debug, PartialEq, Eq)]
pub struct Experiences(pub Vec<Experience>);

/// A position held.
#[derive(Debug, PartialEq, Eq)]
pub struct Experience {
    pub position: String,
    pub company: String,
    pub begin: String,
    pub end: String,
    pub description: Vec<String>,
}

/// The entries of the section on projects, in order.
#[derive(Debug, PartialEq, Eq)]
pub struct Projects(pub Vec<Project>);

/// A project.
#[derive(Debug, PartialEq, Eq)]
pub struct Project {
    pub title: String,
    pub category: String,
    pub github: String,
    pub description: Vec<String>,
}

/// The entries of the section on skills, in order.
#[derive(Debug, PartialEq, Eq)]
pub struct Skills(pub Vec<Skill>);

/// A skill: an area and one line about it.
#[derive(Debug, PartialEq, Eq)]
pub struct Skill {
    pub area: String,
    pub description: String,
}

/// The escaped form of each line of a description.
pub open spec fn escaped_lines(lines: Seq<String>) -> Seq<Seq<char>> {
    lines.map_values(|s: String| escape_text(s@))
}

/// What every document begins with: class, packages, font, and the style of
/// the section headings.
pub const PREAMBLE: &'static str =
    "\\documentclass[12pt,a4paper]{article}\n\\pagestyle{empty}\n\\usepackage[utf8]{inputenc}\n\\usepackage[parfill]{parskip}\n\\usepackage[margin=1cm]{geometry}\n\\usepackage{hyperref, graphicx, enumitem, titlesec, fontspec}\n\\usepackage[sfdefault]{inter}\n\\begin{document}\n\\titleformat{\\section}{\\large\\bf}{}{0cm}{}[\\titlerule\\vspace{-0.5em}]\n";

/// What every document ends with.
pub const POSTAMBLE: &'static str = "\\end{document}\n";

impl Contact {
    /// The centred block at the head of the document: the name, large and
    /// bold, above the e-mail address and the GitHub page.
    pub open spec fn tex(&self) -> Seq<char> {
        "\\begin{center}\n{\\Huge\\textbf{"@ + escape_text(self.name@) + "}} \\\\[.8em]\n"@
            + escape_text(self.email@) + " \\hspace{2em} github.com/"@ + escape_text(
            self.github@,
        ) + "\n\\end{center}"@
    }

    /// Renders the contact block.
    pub fn to_tex(&self) -> (out: String)
        ensures
            out@ == self.tex(),
    {
        let name = sanitize(self.name.as_str());
        let email = sanitize(self.email.as_str());
        let github = sanitize(self.github.as_str());
        let mut out = String::from_str("\\begin{center}\n{\\Huge\\textbf{");
        out.append(name.as_str());
        out.append("}} \\\\[.8em]\n");
        out.append(email.as_str());
        out.append(" \\hspace{2em} github.com/");
        out.append(github.as_str());
        out.append("\n\\end{center}");
        out
    }
}

impl Education {
    /// The role of program, institution and year of graduation, above the
    /// description.
    pub open spec fn tex(&self) -> Seq<char> {
        role_text(
            escape_text(self.program@),
            escape_text(self.institution@),
            escape_text(self.graduation@),
            escaped_lines(self.description@),
        )
    }

    /// Renders the entry as a role.
    pub fn to_tex(&self) -> (out: String)
        ensures
            out@ == self.tex(),
    {
        let program = sanitize(self.program.as_str());
        let institution = sanitize(self.institution.as_str());
        let graduation = sanitize(self.graduation.as_str());
        let description = sanitize_vec(self.description.as_slice());
        assert(description.deep_view() =~= escaped_lines(self.description@));
        role(program.as_str(), institution.as_str(), graduation.as_str(), description.as_slice())
    }
}

impl Experience {
    /// The time of the position: its escaped beginning and end around a dash.
    pub open spec fn time(&self) -> Seq<char> {
        escape_text(self.begin@) + " -- "@ + escape_text(self.end@)
    }

    /// The role of position, company and time, above the description.
    pub open spec fn tex(&self) -> Seq<char> {
        role_text(
            escape_text(self.position@),
            escape_text(self.company@),
            self.time(),
            escaped_lines(self.description@),
        )
    }

    /// Renders the entry as a role.
    pub fn to_tex(&self) -> (out: String)
        ensures
            out@ == self.tex(),
    {
        let begin = sanitize(self.begin.as_str());
        let end = sanitize(self.end.as_str());
        let mut time = begin;
        time.append(" -- ");
        time.append(end.as_str());
        let position = sanitize(self.position.as_str());
        let company = sanitize(self.company.as_str());
        let description = sanitize_vec(self.description.as_slice());
        assert(description.deep_view() =~= escaped_lines(self.description@));
        role(position.as_str(), company.as_str(), time.as_str(), description.as_slice())
    }
}

impl Project {
    /// The role of title, category and GitHub page, above the description.
    pub open spec fn tex(&self) -> Seq<char> {
        role_text(
            escape_text(self.title@),
            escape_text(self.category@),
            escape_text(self.github@),
            escaped_lines(self.description@),
        )
    }

    /// Renders the entry as a role.
    pub fn to_tex(&self) -> (out: String)
        ensures
            out@ == self.tex(),
    {
        let title = sanitize(self.title.as_str());
        let category = sanitize(self.category.as_str());
        let github = sanitize(self.github.as_str());
        let description = sanitize_vec(self.description.as_slice());
        assert(description.deep_view() =~= escaped_lines(self.description@));
        role(title.as_str(), category.as_str(), github.as_str(), description.as_slice())
    }
}

impl Skill {
    /// The area in bold, a colon, and the description in a group of its own.
    pub open spec fn tex(&self) -> Seq<char> {
        "\\textbf{"@ + escape_text(self.area@) + "}:\\ {"@ + escape_text(self.description@) + "}"@
    }

    /// Renders the skill on one line.
    pub fn to_tex(&self) -> (out: String)
        ensures
            out@ == self.tex(),
    {
        let area = sanitize(self.area.as_str());
        let description = sanitize(self.description.as_str());
        let mut out = String::from_str("\\textbf{");
        out.append(area.as_str());
        out.append("}:\\ {");
        out.append(description.as_str());
        out.append("}");
        out
    }
}

impl Educations {
    /// The section `Education` with one role for each entry, in order.
    pub open spec fn tex(&self) -> Seq<char> {
        section_text("Education"@, self.0@.map_values(|e: Education| e.tex()))
    }

    /// Renders the section.
    pub fn to_tex(&self) -> (out: String)
        ensures
            out@ == self.tex(),
    {
        let mut items: Vec<String> = Vec::new();
        let mut i: usize = 0;
        while i < self.0.len()
            invariant
                i <= self.0.len(),
                items.len() == i,
                forall|k: int| 0 <= k < i ==> (#[trigger] items[k])@ == self.0[k].tex(),
            decreases self.0.len() - i,
        {
            items.push(self.0[i].to_tex());
            i += 1;
        }
        assert(items.deep_view() =~= self.0@.map_values(|e: Education| e.tex()));
        section("Education", items)
    }
}

impl Experiences {
    /// The section `Experience` with one role for each entry, in order.
    pub open spec fn tex(&self) -> Seq<char> {
        section_text("Experience"@, self.0@.map_values(|e: Experience| e.tex()))
    }

    /// Renders the section.
    pub fn to_tex(&self) -> (out: String)
        ensures
            out@ == self.tex(),
    {
        let mut items: Vec<String> = Vec::new();
        let mut i: usize = 0;
        while i < self.0.len()
            invariant
                i <= self.0.len(),
                items.len() == i,
                forall|k: int| 0 <= k < i ==> (#[trigger] items[k])@ == self.0[k].tex(),
            decreases self.0.len() - i,
        {
            items.push(self.0[i].to_tex());
            i += 1;
        }
        assert(items.deep_view() =~= self.0@.map_values(|e: Experience| e.tex()));
        section("Experience", items)
    }
}

impl Projects {
    /// The section `Projects` with one role for each entry, in order.
    pub open spec fn tex(&self) -> Seq<char> {
        section_text("Projects"@, self.0@.map_values(|e: Project| e.tex()))
    }

    /// Renders the section.
    pub fn to_tex(&self) -> (out: String)
        ensures
            out@ == self.tex(),
    {
        let mut items: Vec<String> = Vec::new();
        let mut i: usize = 0;
        while i < self.0.len()
            invariant
                i <= self.0.len(),
                items.len() == i,
                forall|k: int| 0 <= k < i ==> (#[trigger] items[k])@ == self.0[k].tex(),
            decreases self.0.len() - i,
        {
            items.push(self.0[i].to_tex());
            i += 1;
        }
        assert(items.deep_view() =~= self.0@.map_values(|e: Project| e.tex()));
        section("Projects", items)
    }
}

impl Skills {
    /// The section `Skills` with one line for each skill, in order.
    pub open spec fn tex(&self) -> Seq<char> {
        section_text("Skills"@, self.0@.map_values(|e: Skill| e.tex()))
    }

    /// Renders the section.
    pub fn to_tex(&self) -> (out: String)
        ensures
            out@ == self.tex(),
    {
        let mut items: Vec<String> = Vec::new();
        let mut i: usize = 0;
        while i < self.0.len()
            invariant
                i <= self.0.len(),
                items.len() == i,
                forall|k: int| 0 <= k < i ==> (#[trigger] items[k])@ == self.0[k].tex(),
            decreases self.0.len() - i,
        {
            items.push(self.0[i].to_tex());
            i += 1;
        }
        assert(items.deep_view() =~= self.0@.map_values(|e: Skill| e.tex()));
        section("Skills", items)
    }
}

impl Resume {
    /// The whole document: the preamble, the contact block, the sections
    /// Education, Experience, Projects and Skills in this order, and the
    /// postamble, each followed by a line break.
    pub open spec fn tex(&self) -> Seq<char> {
        PREAMBLE@ + "\n"@ + self.contact.tex() + "\n"@ + self.education.tex() + "\n"@
            + self.experience.tex() + "\n"@ + self.projects.tex() + "\n"@ + self.skills.tex()
            + "\n"@ + POSTAMBLE@ + "\n"@
    }

    /// Renders the résumé as one LaTeX document.
    pub fn to_tex(&self) -> (out: String)
        ensures
            out@ == self.tex(),
    {
        let contact = self.contact.to_tex();
        let education = self.education.to_tex();
        let experience = self.experience.to_tex();
        let projects = self.projects.to_tex();
        let skills = self.skills.to_tex();
        let mut out = String::from_str(PREAMBLE);
        out.append("\n");
        out.append(contact.as_str());
        out.append("\n");
        out.append(education.as_str());
        out.append("\n");
        out.append(experience.as_str());
        out.append("\n");
        out.append(projects.as_str());
        out.append("\n");
        out.append(skills.as_str());
        out.append("\n");
        out.append(POSTAMBLE);
        out.append("\n");
        out
    }
}

} // verus!
