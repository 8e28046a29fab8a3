use resume::tex::{itemize, role, section};

#[test]
fn itemize_writes_one_item_per_line() {
    let items = vec!["one".to_string(), "two".to_string(), "three".to_string()];
    assert_eq!(
        itemize(items, "1em", "0pt", "--"),
        "\\begin{itemize}[leftmargin=1em, topsep=-2em, itemsep=0pt, label=--]\n\
         \\item one\n\
         \\item two\n\
         \\item three\n\
         \\end{itemize}"
    );
}

#[test]
fn itemize_of_nothing_has_an_empty_line() {
    assert_eq!(
        itemize(Vec::new(), "*", "-0.7em", "\\textbullet"),
        "\\begin{itemize}[leftmargin=*, topsep=-2em, itemsep=-0.7em, label=\\textbullet]\n\n\\end{itemize}"
    );
}

#[test]
fn itemize_of_one_item() {
    assert_eq!(
        itemize(vec!["only".to_string()], "0cm", "-0.0em", "{}"),
        "\\begin{itemize}[leftmargin=0cm, topsep=-2em, itemsep=-0.0em, label={}]\n\\item only\n\\end{itemize}"
    );
}

#[test]
fn itemize_escapes_neither_directives_nor_items() {
    let out = itemize(vec!["50\\% & more".to_string()], "{a}", "$b$", "\\textbullet~");
    assert_eq!(
        out,
        "\\begin{itemize}[leftmargin={a}, topsep=-2em, itemsep=$b$, label=\\textbullet~]\n\\item 50\\% & more\n\\end{itemize}"
    );
}

#[test]
fn role_has_a_header_and_its_items_in_order() {
    let items = vec!["Did X".to_string(), "Did Y".to_string()];
    let out = role("Engineer", "Acme", "2020--2022", &items);
    assert_eq!(
        out,
        "\\textbf{Engineer}, Acme \\hfill 2020--2022\n\
         \\begin{itemize}[leftmargin=*, topsep=-2em, itemsep=-0.7em, label=\\textbullet]\n\
         \\item Did X\n\
         \\item Did Y\n\
         \\end{itemize}"
    );
    let header = out.lines().next().unwrap();
    assert!(header.contains("\\textbf{Engineer}"));
    assert!(header.contains(", Acme "));
    assert!(header.ends_with("\\hfill 2020--2022"));
    assert_eq!(out.matches("\\item ").count(), 2);
    assert!(out.find("\\item Did X").unwrap() < out.find("\\item Did Y").unwrap());
}

#[test]
fn role_takes_its_fields_as_they_are() {
    let out = role("A\\&B", "{x}", "", &[]);
    assert_eq!(
        out,
        "\\textbf{A\\&B}, {x} \\hfill \n\\begin{itemize}[leftmargin=*, topsep=-2em, itemsep=-0.7em, label=\\textbullet]\n\n\\end{itemize}"
    );
}

#[test]
fn section_has_a_heading_above_its_blocks() {
    let out = section("Skills", vec!["first".to_string(), "second".to_string()]);
    assert_eq!(
        out,
        "\n\\section{Skills}\n\
         \\begin{itemize}[leftmargin=0cm, topsep=-2em, itemsep=-0.0em, label={}]\n\
         \\item first\n\
         \\item second\n\
         \\end{itemize}"
    );
}

#[test]
fn section_escapes_its_name_only() {
    let out = section(" R&D ", vec!["a & b".to_string()]);
    assert_eq!(
        out,
        "\n\\section{R\\&D}\n\\begin{itemize}[leftmargin=0cm, topsep=-2em, itemsep=-0.0em, label={}]\n\\item a & b\n\\end{itemize}"
    );
}
