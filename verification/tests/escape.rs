use resume::tex::{sanitize, sanitize_vec};
use resume::text::{ends_with, trim, whitespace};

/// Whether `out` holds a control character that LaTeX would interpret.
fn has_raw_control(out: &str) -> bool {
    let chars: Vec<char> = out.chars().collect();
    let names = ["textbackslash", "textasciitilde", "textasciicircum"];
    for (i, &c) in chars.iter().enumerate() {
        match c {
            '~' | '^' => return true,
            '#' | '%' | '&' | '_' | '{' | '}' | '$' => {
                if i == 0 || chars[i - 1] != '\\' {
                    return true;
                }
            }
            '\\' => {
                let rest: String = chars[i + 1..].iter().collect();
                let mark = matches!(
                    chars.get(i + 1),
                    Some('#' | '%' | '&' | '_' | '{' | '}' | '$')
                );
                if !mark && !names.iter().any(|n| rest.starts_with(n)) {
                    return true;
                }
            }
            _ => {}
        }
    }
    false
}

#[test]
fn empty_text_escapes_to_empty() {
    assert_eq!(sanitize(""), "");
}

#[test]
fn blank_text_escapes_to_empty() {
    assert_eq!(sanitize("   "), "");
    assert_eq!(sanitize(" \t\r\n"), "");
    assert_eq!(sanitize("\u{a0}\u{2003}\u{3000}"), "");
}

#[test]
fn percent_is_prefixed() {
    assert_eq!(sanitize("100%"), "100\\%");
}

#[test]
fn underscore_is_prefixed() {
    assert_eq!(sanitize("a_b"), "a\\_b");
}

#[test]
fn plus_is_left_alone() {
    assert_eq!(sanitize("C++"), "C++");
}

#[test]
fn every_mark_is_prefixed() {
    assert_eq!(sanitize("#"), "\\#");
    assert_eq!(sanitize("%"), "\\%");
    assert_eq!(sanitize("&"), "\\&");
    assert_eq!(sanitize("_"), "\\_");
    assert_eq!(sanitize("{"), "\\{");
    assert_eq!(sanitize("}"), "\\}");
    assert_eq!(sanitize("$"), "\\$");
    assert_eq!(sanitize("#%&_{}$"), "\\#\\%\\&\\_\\{\\}\\$");
}

#[test]
fn backslash_tilde_and_caret_become_commands() {
    assert_eq!(sanitize("a\\b"), "a\\textbackslash b");
    assert_eq!(sanitize("a~b"), "a\\textasciitildeb");
    assert_eq!(sanitize("a^b"), "a\\textasciicircumb");
    assert_eq!(sanitize("~"), "\\textasciitilde");
    assert_eq!(sanitize("^"), "\\textasciicircum");
}

#[test]
fn space_of_a_final_backslash_is_trimmed() {
    assert_eq!(sanitize("\\"), "\\textbackslash");
    assert_eq!(sanitize("a\\"), "a\\textbackslash");
    assert_eq!(sanitize("\\\\"), "\\textbackslash \\textbackslash");
}

#[test]
fn later_replacements_leave_earlier_ones_alone() {
    assert_eq!(sanitize("\\{"), "\\textbackslash \\{");
    assert_eq!(sanitize("\\$~^"), "\\textbackslash \\$\\textasciitilde\\textasciicircum");
    assert_eq!(sanitize("${0}"), "\\$\\{0\\}");
    assert_eq!(sanitize("$$"), "\\$\\$");
    assert_eq!(sanitize("$1 and $name"), "\\$1 and \\$name");
}

#[test]
fn escaped_text_is_escaped_again() {
    assert_eq!(sanitize("\\#"), "\\textbackslash \\#");
    assert_eq!(sanitize(&sanitize("#")), "\\textbackslash \\#");
    assert_eq!(sanitize(&sanitize("a b")), "a b");
}

#[test]
fn margins_are_trimmed_and_inner_whitespace_kept() {
    assert_eq!(sanitize("  a  b \n"), "a  b");
    assert_eq!(sanitize("\t50% \u{2028}"), "50\\%");
    assert_eq!(sanitize(" a\tb\nc "), "a\tb\nc");
}

#[test]
fn trimming_first_changes_nothing() {
    for s in ["  a & b  ", "\\ ", " \\", "\n~\n", " ", "", " x\\ \t"] {
        assert_eq!(sanitize(s.trim()), sanitize(s));
    }
}

#[test]
fn text_beyond_ascii_is_kept() {
    assert_eq!(sanitize("résumé — 100 % ✓"), "résumé — 100 \\% ✓");
    assert_eq!(sanitize("日本語_テキスト"), "日本語\\_テキスト");
}

#[test]
fn no_control_character_is_left_raw() {
    let alphabet = ['\\', '~', '^', '#', '%', '&', '_', '{', '}', '$', 'a', 't', ' ', '0'];
    for &a in alphabet.iter() {
        for &b in alphabet.iter() {
            for &c in alphabet.iter() {
                let s: String = [a, b, c].iter().collect();
                let out = sanitize(&s);
                assert!(!has_raw_control(&out), "{:?} gave {:?}", s, out);
            }
        }
    }
    assert!(has_raw_control("a#"));
    assert!(has_raw_control("\\\\#"));
    assert!(has_raw_control("~"));
    assert!(!has_raw_control("\\textbackslash"));
}

#[test]
fn every_text_of_a_list_is_escaped_in_order() {
    let input = vec![" Did X & Y ".to_string(), "".to_string(), "50%".to_string()];
    assert_eq!(sanitize_vec(&input), vec!["Did X \\& Y", "", "50\\%"]);
    assert_eq!(sanitize_vec(&[]), Vec::<String>::new());
}

#[test]
fn whitespace_is_what_unicode_says() {
    for n in 0..=0x10ffffu32 {
        if let Some(c) = char::from_u32(n) {
            assert_eq!(whitespace(c), c.is_whitespace(), "U+{:04X}", n);
        }
    }
}

#[test]
fn trim_removes_whitespace_at_both_ends_only() {
    for s in ["", " ", "a", " a", "a ", " a b ", "\u{85}x\u{1680}", "\n\ta  b\r\n", "é ", " \u{200b} "] {
        assert_eq!(trim(s), s.trim());
    }
    assert_eq!(trim("  a  b  "), "a  b");
}

#[test]
fn ends_with_compares_the_last_characters() {
    assert!(ends_with("resume.yaml", ".yaml"));
    assert!(ends_with("resume.yaml", ""));
    assert!(ends_with("", ""));
    assert!(ends_with(".yaml", ".yaml"));
    assert!(!ends_with("yaml", ".yaml"));
    assert!(!ends_with("resume.yml", ".yaml"));
    assert!(!ends_with("resume.yaml ", ".yaml"));
    assert!(!ends_with("resume.YAML", ".yaml"));
    assert!(ends_with("caf\u{e9}", "f\u{e9}"));
    for (s, suffix) in [("abc", "bc"), ("abc", "ab"), ("a", "aa"), ("\u{fc}b", "b")] {
        assert_eq!(ends_with(s, suffix), s.ends_with(suffix));
    }
}
