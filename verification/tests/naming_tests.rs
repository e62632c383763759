use laidlaw::naming::{flatten, path_to_record};
use laidlaw::text::{decimal_text, extension_of, find_extension_dot, join, with_extension};

fn path(parts: &[&str]) -> Vec<String> {
    parts.iter().map(|p| p.to_string()).collect()
}

#[test]
fn nested_path_is_joined_by_dots() {
    assert_eq!(flatten(&path(&["card", "fragment", "edge.hjson"]), 0), "card.fragment.edge.json");
}

#[test]
fn file_under_the_root_keeps_its_name() {
    assert_eq!(flatten(&path(&["potion.json"]), 0), "potion.json");
}

#[test]
fn the_prefix_of_the_content_root_is_left_out() {
    let walked = path(&[".", "src", "content", "card", "fragment", "edge.hjson"]);
    assert_eq!(flatten(&walked, 3), "card.fragment.edge.json");
    assert_eq!(flatten(&walked, 5), "edge.json");
    assert_eq!(flatten(&walked, 6), "");
    assert_eq!(flatten(&walked, 9), "");
}

#[test]
fn flattening_gives_the_same_name_each_time() {
    let walked = path(&["a", "b", "c.hjson"]);
    assert_eq!(flatten(&walked, 0), flatten(&walked, 0));
    assert_eq!(flatten(&walked, 0), "a.b.c.json");
    assert_ne!(flatten(&path(&["b", "a", "c.hjson"]), 0), flatten(&walked, 0));
}

#[test]
fn two_paths_may_share_a_name() {
    assert_eq!(flatten(&path(&["a", "b.json"]), 0), flatten(&path(&["a.b.hjson"]), 0));
}

#[test]
fn only_the_last_extension_is_replaced() {
    assert_eq!(flatten(&path(&["dir.d", "a.b.hjson"]), 0), "dir.d.a.b.json");
    assert_eq!(flatten(&path(&["README"]), 0), "README.json");
    assert_eq!(flatten(&path(&[".hidden"]), 0), ".hidden.json");
}

#[test]
fn artifact_is_placed_in_the_output_directory() {
    let walked = path(&[".", "src", "content", "card", "fragment", "edge.hjson"]);
    assert_eq!(path_to_record(&walked, 3, "./content"), "./content/card.fragment.edge.json");
    assert_eq!(path_to_record(&path(&["potion.json"]), 0, "out"), "out/potion.json");
}

#[test]
fn extension_is_what_follows_the_last_dot() {
    assert_eq!(extension_of("edge.hjson"), "hjson");
    assert_eq!(extension_of("a.b.json"), "json");
    assert_eq!(extension_of("README"), "");
    assert_eq!(extension_of(".hidden"), "");
    assert_eq!(extension_of("trailing."), "");
    assert_eq!(extension_of(""), "");
    assert_eq!(find_extension_dot("edge.hjson"), 4);
    assert_eq!(find_extension_dot("a.b.json"), 3);
    assert_eq!(find_extension_dot(".hidden"), 0);
    assert_eq!(find_extension_dot("é.json"), 1);
}

#[test]
fn extension_is_replaced_or_added() {
    assert_eq!(with_extension("edge.hjson", "json"), "edge.json");
    assert_eq!(with_extension("edge", "json"), "edge.json");
    assert_eq!(with_extension("a.b.c", "json"), "a.b.json");
    assert_eq!(with_extension("trailing.", "json"), "trailing.json");
    assert_eq!(with_extension("émile.hjson", "json"), "émile.json");
}

#[test]
fn parts_are_joined_in_order() {
    assert_eq!(join(&path(&[]), "."), "");
    assert_eq!(join(&path(&["a"]), "."), "a");
    assert_eq!(join(&path(&["a", "b", "c"]), "/"), "a/b/c");
    assert_eq!(join(&path(&["a", "", "c"]), ", "), "a, , c");
}

#[test]
fn numbers_are_written_in_decimal() {
    assert_eq!(decimal_text(0), "0");
    assert_eq!(decimal_text(7), "7");
    assert_eq!(decimal_text(10), "10");
    assert_eq!(decimal_text(109), "109");
    assert_eq!(decimal_text(1234567890), "1234567890");
    assert_eq!(decimal_text(usize::MAX), usize::MAX.to_string());
}
