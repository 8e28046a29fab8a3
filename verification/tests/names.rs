use resume::filename::stem;
use resume::pdf::swap_stem;
use std::path::Path;

#[test]
fn markup_file_is_named_by_the_stem() {
    assert_eq!(swap_stem("resume.yaml", ".yaml", ".tex"), "resume.tex");
    assert_eq!(swap_stem("resume.yaml", ".yaml", ".pdf"), "resume.pdf");
}

#[test]
fn directories_are_left_out_of_the_name() {
    assert_eq!(swap_stem("docs/cv/jane.yaml", ".yaml", ".tex"), "jane.tex");
    assert_eq!(swap_stem("/abs/jane.doe.yaml", ".yaml", ".pdf"), "jane.doe.pdf");
    assert_eq!(swap_stem("./a.yaml", "a.yaml", ".tex"), "a.tex");
}

#[test]
fn only_the_last_ending_is_swapped() {
    assert_eq!(swap_stem("a.tar.gz", ".gz", ".x"), "a.tar.x");
    assert_eq!(swap_stem("a.tar.gz", "", ".x"), "a.tar.x");
}

#[test]
fn name_that_is_all_ending_is_its_own_stem() {
    assert_eq!(swap_stem(".yaml", ".yaml", ".tex"), ".yaml.tex");
    assert_eq!(swap_stem("dir/.yaml", ".yaml", ".tex"), ".yaml.tex");
    assert_eq!(swap_stem("..yaml", ".yaml", ".tex"), "..tex");
}

#[test]
fn path_without_a_file_name_has_an_empty_stem() {
    assert_eq!(swap_stem("", "", ".tex"), ".tex");
    assert_eq!(swap_stem("/", "/", ".tex"), ".tex");
    assert_eq!(swap_stem("a/..", "..", ".tex"), ".tex");
    assert_eq!(swap_stem(".", ".", ".tex"), ".tex");
}

#[test]
fn stem_of_some_paths() {
    assert_eq!(stem("resume.yaml"), "resume");
    assert_eq!(stem("a/b/c.d.e"), "c.d");
    assert_eq!(stem("noext"), "noext");
    assert_eq!(stem(".hidden"), ".hidden");
    assert_eq!(stem("dir/"), "dir");
    assert_eq!(stem("dir/."), "dir");
    assert_eq!(stem("x.y/."), "x");
    assert_eq!(stem("a."), "a");
    assert_eq!(stem("..."), "..");
    assert_eq!(stem(".."), "");
    assert_eq!(stem("./"), "");
    assert_eq!(stem("é/ü.ö"), "ü");
}

#[test]
fn stem_agrees_with_the_standard_library() {
    let pieces = ["", "/", ".", "..", "a", ".a", "a.", "a.b", "..a", "a..b", "/.", "./", "//", "a/"];
    for x in pieces {
        for y in pieces {
            for z in pieces {
                let p = format!("{}{}{}", x, y, z);
                let expected = Path::new(&p).file_stem().and_then(|s| s.to_str()).unwrap_or_default();
                assert_eq!(stem(&p), expected, "{:?}", p);
            }
        }
    }
}
