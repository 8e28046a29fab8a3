use resume::texformat::texformat;

#[test]
fn holes_become_braces() {
    assert_eq!(texformat("Hello, $(name)!"), "Hello, {name}!");
}

#[test]
fn braces_of_latex_stay_single() {
    assert_eq!(texformat("\\textbf{$(t1)}, $(t2) \\hfill $(t3)"), "\\textbf{{t1}}, {t2} \\hfill {t3}");
}

#[test]
fn every_closing_parenthesis_is_replaced() {
    assert_eq!(texformat("f(x) = $(y)"), "f(x} = {y}");
    assert_eq!(texformat(")("), "}(");
}

#[test]
fn dollar_alone_is_kept() {
    assert_eq!(texformat("$"), "$");
    assert_eq!(texformat("$$("), "${");
    assert_eq!(texformat("$ ("), "$ (");
    assert_eq!(texformat(""), "");
    assert_eq!(texformat("é$(ü)"), "é{ü}");
}

#[test]
fn rewriting_agrees_with_two_replacements() {
    for s in ["$($()", "a$(b)c)d$(", "$$$(((", "))$(", "plain"] {
        assert_eq!(texformat(s), s.replace("$(", "{").replace(")", "}"));
    }
}
