use tree_filter::candidate::check_candidate_path;
use tree_filter::metadata::is_git_metadata;

#[test]
fn marker_is_found_anywhere() {
    assert!(is_git_metadata(".git"));
    assert!(is_git_metadata("/project/.git/config"));
    assert!(is_git_metadata("/project/sub/.git"));
    assert!(is_git_metadata("/project/.gitignore"));
    assert!(is_git_metadata("/project/my.github.io/index.html"));
    assert!(is_git_metadata("x.git"));
}

#[test]
fn marker_after_a_false_start() {
    assert!(is_git_metadata("..git"));
    assert!(is_git_metadata(".g.git"));
    assert!(is_git_metadata(".gi.git"));
    assert!(is_git_metadata(".gi.gi.git"));
    assert!(is_git_metadata("a.gi/.g/.git"));
}

#[test]
fn text_without_marker() {
    assert!(!is_git_metadata(""));
    assert!(!is_git_metadata("."));
    assert!(!is_git_metadata(".gi"));
    assert!(!is_git_metadata(".gi."));
    assert!(!is_git_metadata("git"));
    assert!(!is_git_metadata("/project/src/main.rs"));
    assert!(!is_git_metadata(".g/it"));
    assert!(!is_git_metadata(".Git"));
    assert!(!is_git_metadata(".gti"));
}

#[test]
fn marker_beside_wide_characters() {
    assert!(is_git_metadata("/projet/\u{e9}t\u{e9}/.git/HEAD"));
    assert!(!is_git_metadata("/projet/\u{e9}t\u{e9}/.g\u{ef}t"));
    assert!(is_git_metadata("\u{1f600}.git"));
}

#[test]
fn candidate_paths() {
    assert!(check_candidate_path(""));
    assert!(check_candidate_path("a"));
    assert!(check_candidate_path("a/b/c.txt"));
    assert!(check_candidate_path("a/"));
    assert!(check_candidate_path("./a"));
    assert!(check_candidate_path("\u{e9}/b"));
}

#[test]
fn paths_that_are_no_candidates() {
    assert!(!check_candidate_path("/"));
    assert!(!check_candidate_path("/a/b"));
    assert!(!check_candidate_path("a//b"));
    assert!(!check_candidate_path("a/b//"));
    assert!(!check_candidate_path(".//a"));
    assert!(!check_candidate_path("//"));
}
