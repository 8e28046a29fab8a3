use resume::resume::{
    Contact, Education, Educations, Experience, Experiences, Project, Projects, Resume, Skill,
    Skills,
};

fn text(s: &str) -> String {
    s.to_string()
}

fn contact() -> Contact {
    Contact { name: text("Ada Lovelace"), email: text("ada@example.org"), github: text("ada") }
}

fn minimal() -> Resume {
    Resume {
        contact: contact(),
        education: Educations(vec![Education {
            program: text("Mathematics"),
            institution: text("Home"),
            graduation: text("1835"),
            description: vec![text("Studied with De Morgan")],
        }]),
        experience: Experiences(vec![Experience {
            position: text("Analyst"),
            company: text("Babbage & Co"),
            begin: text("1842"),
            end: text("1843"),
            description: vec![text("Wrote notes"), text("Computed Bernoulli numbers")],
        }]),
        projects: Projects(vec![Project {
            title: text("Notes"),
            category: text("Writing"),
            github: text("ada/notes"),
            description: vec![text("Note G")],
        }]),
        skills: Skills(vec![Skill { area: text("Languages"), description: text("English, French") }]),
    }
}

fn empty(contact: Contact) -> Resume {
    Resume {
        contact,
        education: Educations(vec![]),
        experience: Experiences(vec![]),
        projects: Projects(vec![]),
        skills: Skills(vec![]),
    }
}

const PREAMBLE: &str = "\\documentclass[12pt,a4paper]{article}\n\
\\pagestyle{empty}\n\
\\usepackage[utf8]{inputenc}\n\
\\usepackage[parfill]{parskip}\n\
\\usepackage[margin=1cm]{geometry}\n\
\\usepackage{hyperref, graphicx, enumitem, titlesec, fontspec}\n\
\\usepackage[sfdefault]{inter}\n\
\\begin{document}\n\
\\titleformat{\\section}{\\large\\bf}{}{0cm}{}[\\titlerule\\vspace{-0.5em}]\n";

const EMPTY_LIST: &str =
    "\\begin{itemize}[leftmargin=0cm, topsep=-2em, itemsep=-0.0em, label={}]\n\n\\end{itemize}";

#[test]
fn contact_block_is_centred() {
    assert_eq!(
        contact().to_tex(),
        "\\begin{center}\n\
         {\\Huge\\textbf{Ada Lovelace}} \\\\[.8em]\n\
         ada@example.org \\hspace{2em} github.com/ada\n\
         \\end{center}"
    );
}

#[test]
fn contact_fields_are_escaped() {
    let c = Contact { name: text(" A&B "), email: text("a_b@c.d"), github: text("x~y") };
    assert_eq!(
        c.to_tex(),
        "\\begin{center}\n{\\Huge\\textbf{A\\&B}} \\\\[.8em]\na\\_b@c.d \\hspace{2em} github.com/x\\textasciitildey\n\\end{center}"
    );
}

#[test]
fn education_is_a_role() {
    let e = Education {
        program: text("BSc"),
        institution: text("MIT"),
        graduation: text("2020"),
        description: vec![text("GPA 100%"), text(" Thesis ")],
    };
    assert_eq!(
        e.to_tex(),
        "\\textbf{BSc}, MIT \\hfill 2020\n\
         \\begin{itemize}[leftmargin=*, topsep=-2em, itemsep=-0.7em, label=\\textbullet]\n\
         \\item GPA 100\\%\n\
         \\item Thesis\n\
         \\end{itemize}"
    );
}

#[test]
fn experience_joins_begin_and_end() {
    let e = Experience {
        position: text("Engineer"),
        company: text("Acme"),
        begin: text(" 2020 "),
        end: text("2022"),
        description: vec![text("Did X"), text("Did Y")],
    };
    assert_eq!(
        e.to_tex(),
        "\\textbf{Engineer}, Acme \\hfill 2020 -- 2022\n\
         \\begin{itemize}[leftmargin=*, topsep=-2em, itemsep=-0.7em, label=\\textbullet]\n\
         \\item Did X\n\
         \\item Did Y\n\
         \\end{itemize}"
    );
}

#[test]
fn project_is_a_role() {
    let p = Project {
        title: text("tool"),
        category: text("CLI"),
        github: text("me/tool_x"),
        description: vec![],
    };
    assert_eq!(
        p.to_tex(),
        "\\textbf{tool}, CLI \\hfill me/tool\\_x\n\\begin{itemize}[leftmargin=*, topsep=-2em, itemsep=-0.7em, label=\\textbullet]\n\n\\end{itemize}"
    );
}

#[test]
fn skill_is_one_line() {
    let s = Skill { area: text("C#"), description: text("5 years & counting") };
    assert_eq!(s.to_tex(), "\\textbf{C\\#}:\\ {5 years \\& counting}");
}

#[test]
fn sections_hold_their_entries_in_order() {
    let skills = Skills(vec![
        Skill { area: text("A"), description: text("a") },
        Skill { area: text("B"), description: text("b") },
    ]);
    assert_eq!(
        skills.to_tex(),
        "\n\\section{Skills}\n\
         \\begin{itemize}[leftmargin=0cm, topsep=-2em, itemsep=-0.0em, label={}]\n\
         \\item \\textbf{A}:\\ {a}\n\
         \\item \\textbf{B}:\\ {b}\n\
         \\end{itemize}"
    );
    assert_eq!(Educations(vec![]).to_tex(), format!("\n\\section{{Education}}\n{}", EMPTY_LIST));
    assert_eq!(Experiences(vec![]).to_tex(), format!("\n\\section{{Experience}}\n{}", EMPTY_LIST));
    assert_eq!(Projects(vec![]).to_tex(), format!("\n\\section{{Projects}}\n{}", EMPTY_LIST));
}

#[test]
fn document_of_an_empty_resume() {
    let out = empty(contact()).to_tex();
    let expected = format!(
        "{}\n{}\n\n\\section{{Education}}\n{}\n\n\\section{{Experience}}\n{}\n\n\\section{{Projects}}\n{}\n\n\\section{{Skills}}\n{}\n\\end{{document}}\n\n",
        PREAMBLE,
        contact().to_tex(),
        EMPTY_LIST,
        EMPTY_LIST,
        EMPTY_LIST,
        EMPTY_LIST
    );
    assert_eq!(out, expected);
}

#[test]
fn document_is_the_parts_in_order() {
    let r = minimal();
    let out = r.to_tex();
    let expected = format!(
        "{}\n{}\n{}\n{}\n{}\n{}\n\\end{{document}}\n\n",
        PREAMBLE,
        r.contact.to_tex(),
        r.education.to_tex(),
        r.experience.to_tex(),
        r.projects.to_tex(),
        r.skills.to_tex()
    );
    assert_eq!(out, expected);
}

#[test]
fn each_part_appears_once_and_in_order() {
    let out = minimal().to_tex();
    let marks = [
        "\\begin{center}",
        "\\section{Education}",
        "\\textbf{Mathematics}",
        "\\section{Experience}",
        "\\textbf{Analyst}, Babbage \\& Co \\hfill 1842 -- 1843",
        "\\section{Projects}",
        "\\textbf{Notes}",
        "\\section{Skills}",
        "\\textbf{Languages}",
        "\\end{document}",
    ];
    let mut last = 0;
    for mark in marks {
        assert_eq!(out.matches(mark).count(), 1, "{}", mark);
        let at = out.find(mark).unwrap();
        assert!(at >= last, "{}", mark);
        last = at;
    }
    assert!(out.starts_with("\\documentclass[12pt,a4paper]{article}\n"));
    assert_eq!(out.matches("\\section{").count(), 4);
}

#[test]
fn ampersand_in_a_name_is_escaped() {
    let r = empty(Contact { name: text("A&B"), email: text("a@b.com"), github: text("ab") });
    let out = r.to_tex();
    assert!(out.contains("A\\&B"));
    assert!(out.contains("a@b.com \\hspace{2em} github.com/ab"));
    let chars: Vec<char> = out.chars().collect();
    for (i, &c) in chars.iter().enumerate() {
        if c == '&' {
            assert_eq!(chars[i - 1], '\\');
        }
    }
    assert_eq!(out.matches('&').count(), 1);
}

#[test]
fn markup_in_a_field_does_not_reach_the_document() {
    let r = empty(Contact {
        name: text("\\end{document}"),
        email: text("\\section{Education}"),
        github: text("$x$"),
    });
    let out = r.to_tex();
    assert_eq!(out.matches("\\end{document}").count(), 1);
    assert_eq!(out.matches("\\section{Education}").count(), 1);
    assert!(out.contains("\\textbackslash end\\{document\\}"));
    assert!(out.contains("github.com/\\$x\\$"));
}

#[test]
fn source_in_yaml_renders_with_the_name_escaped() {
    let yaml = "contact:\n  name: \"A&B\"\n  email: a@b.com\n  github: ab\neducation: []\nexperience: []\nprojects: []\nskills: []\n";
    let value: serde_yaml::Value = serde_yaml::from_str(yaml).unwrap();
    let field = |key: &str| value["contact"][key].as_str().unwrap().to_string();
    for list in ["education", "experience", "projects", "skills"] {
        assert!(value[list].as_sequence().unwrap().is_empty());
    }
    let r = empty(Contact { name: field("name"), email: field("email"), github: field("github") });
    let out = r.to_tex();
    assert!(out.contains("{\\Huge\\textbf{A\\&B}}"));
    assert!(!out.contains("A&B"));
    assert_eq!(out.matches('&').count(), 1);
}

fn hostile() -> Resume {
    let bad = "\\section{Education} ~^ #%&_$ {} \\end{document}";
    Resume {
        contact: Contact { name: text(bad), email: text(bad), github: text(bad) },
        education: Educations(vec![Education {
            program: text(bad),
            institution: text(bad),
            graduation: text(bad),
            description: vec![text(bad), text("\\section{Skills}")],
        }]),
        experience: Experiences(vec![Experience {
            position: text(bad),
            company: text(bad),
            begin: text(bad),
            end: text(bad),
            description: vec![text(bad)],
        }]),
        projects: Projects(vec![Project {
            title: text(bad),
            category: text(bad),
            github: text(bad),
            description: vec![text(bad)],
        }]),
        skills: Skills(vec![Skill { area: text(bad), description: text(bad) }]),
    }
}

#[test]
fn headings_stand_at_their_places_whatever_the_fields_hold() {
    for r in [minimal(), hostile(), empty(contact())] {
        let out = r.to_tex();
        let head = format!("{}\n{}\n", PREAMBLE, r.contact.to_tex());
        let p1 = head.len() + 1;
        let p2 = p1 + r.education.to_tex().len() + 1;
        let p3 = p2 + r.experience.to_tex().len() + 1;
        let p4 = p3 + r.projects.to_tex().len() + 1;
        assert!(out[PREAMBLE.len() + 1..].starts_with(&r.contact.to_tex()));
        assert!(out[p1..].starts_with("\\section{Education}"));
        assert!(out[p2..].starts_with("\\section{Experience}"));
        assert!(out[p3..].starts_with("\\section{Projects}"));
        assert!(out[p4..].starts_with("\\section{Skills}"));
        let found: Vec<usize> = out.match_indices("\\section{").map(|(i, _)| i).collect();
        assert_eq!(found, vec![p1, p2, p3, p4]);
    }
}

#[test]
fn marks_of_the_fields_are_guarded_in_the_document() {
    for r in [minimal(), hostile()] {
        let out: Vec<char> = r.to_tex().chars().collect();
        for (i, &c) in out.iter().enumerate() {
            assert!(c != '~' && c != '^');
            if matches!(c, '#' | '%' | '&' | '_' | '$') {
                assert_eq!(out[i - 1], '\\');
            }
        }
    }
    assert!(hostile().to_tex().contains("\\textbackslash section\\{Education\\}"));
}
