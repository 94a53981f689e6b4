use damascus_ui::menu::{build_matcher, build_matchers, search, search_lowered};
use damascus_ui::text::{ends_with, pascal_label, remove_whitespace, str_eq};

fn strings(v: &[&str]) -> Vec<String> {
    v.iter().map(|s| s.to_string()).collect()
}

#[test]
fn build_matcher_keeps_ascii_alphanumerics_in_lower_case() {
    assert_eq!(build_matcher("Procedural Texture"), "proceduraltexture");
    assert_eq!(build_matcher("Ray-Marcher 2!"), "raymarcher2");
    assert_eq!(build_matcher("Éclair"), "clair");
    assert_eq!(build_matcher(""), "");
}

#[test]
fn build_matchers_builds_one_per_option() {
    let options = strings(&["Axis", "Light Source", "UV-Map"]);
    assert_eq!(build_matchers(&options), strings(&["axis", "lightsource", "uvmap"]));
}

#[test]
fn search_keeps_options_holding_every_part() {
    let options = vec![0usize, 1, 2, 3];
    let matchers = build_matchers(&strings(&["axis", "camera", "procedural texture", "texture"]));
    assert_eq!(search(&options, &matchers, "tex"), vec![2, 3]);
    assert_eq!(search(&options, &matchers, "proc tex"), vec![2]);
    assert_eq!(search(&options, &matchers, "zzz"), Vec::<usize>::new());
}

#[test]
fn search_lower_cases_the_query() {
    let options = vec![10u32, 20];
    let matchers = build_matchers(&strings(&["Camera", "Scene"]));
    assert_eq!(search(&options, &matchers, "CAM"), vec![10]);
    assert_eq!(search(&options, &matchers, "ScEnE"), vec![20]);
}

#[test]
fn search_empty_query_keeps_all_paired_options() {
    let options = vec![1u8, 2, 3];
    let matchers = strings(&["a", "b"]);
    assert_eq!(search(&options, &matchers, ""), vec![1, 2]);
    assert_eq!(search_lowered(&options, &matchers, ""), vec![1, 2]);
}

#[test]
fn search_finds_an_option_by_its_own_matcher() {
    let texts = strings(&["Ray Marcher", "Procedural Texture", "Primitive"]);
    let matchers = build_matchers(&texts);
    let options = vec![0usize, 1, 2];
    for (i, text) in texts.iter().enumerate() {
        let found = search_lowered(&options, &matchers, &build_matcher(text));
        assert!(found.contains(&i));
    }
}

#[test]
fn search_separators_split_the_query() {
    let options = vec!['a', 'b'];
    let matchers = strings(&["abc", "xyz"]);
    // "a-c" is cut into "a" and "c", both in "abc".
    assert_eq!(search_lowered(&options, &matchers, "a-c"), vec!['a']);
    // A trailing separator adds an empty part, which every matcher holds.
    assert_eq!(search_lowered(&options, &matchers, "x "), vec!['b']);
}

#[test]
fn pascal_label_spaces_before_capitals() {
    assert_eq!(pascal_label("SaveAs"), "Save As");
    assert_eq!(pascal_label("NodeGraph"), "Node Graph");
    assert_eq!(pascal_label("Load"), "Load");
    assert_eq!(pascal_label(""), "");
}

#[test]
fn remove_whitespace_drops_unicode_white_space() {
    assert_eq!(remove_whitespace(" Save\tAs\n"), "SaveAs");
    assert_eq!(remove_whitespace("a\u{00a0}b\u{3000}c"), "abc");
    assert_eq!(remove_whitespace(pascal_label("SaveAs").as_str()), "SaveAs");
}

#[test]
fn text_comparisons() {
    assert!(str_eq("abc", "abc"));
    assert!(!str_eq("abc", "abd"));
    assert!(!str_eq("abc", "ab"));
    assert!(ends_with("diffuse_colour_texture", "_texture"));
    assert!(!ends_with("texture", "_texture"));
    assert!(ends_with("x", ""));
}

#[test]
fn matcher_is_lower_case_alphanumeric_and_its_own_matcher() {
    for text in ["Procedural Texture", "Ray-Marcher 2!", "ÀB c9", ""] {
        let matcher = build_matcher(text);
        assert!(matcher.chars().all(|c| c.is_ascii_lowercase() || c.is_ascii_digit()));
        assert_eq!(build_matcher(&matcher), matcher);
    }
}

#[test]
fn an_extra_word_only_filters_further() {
    let options = vec![0usize, 1, 2, 3];
    let matchers = build_matchers(&strings(&[
        "procedural texture",
        "texture",
        "procedural noise",
        "axis",
    ]));
    let short = search_lowered(&options, &matchers, "proc");
    let long = search_lowered(&options, &matchers, "proc tex");
    assert_eq!(short, vec![0, 2]);
    assert_eq!(long, vec![0]);
    assert!(long.iter().all(|o| short.contains(o)));
}
