use wallmint::paths::{expand_tilde, expand_tilde_with, path_join};

fn home(s: &str) -> Option<String> {
    Some(s.to_string())
}

#[test]
fn join_adds_separator() {
    assert_eq!(path_join("/home/a", "walls"), "/home/a/walls");
}

#[test]
fn join_keeps_trailing_separator() {
    assert_eq!(path_join("/home/a/", "walls"), "/home/a/walls");
}

#[test]
fn join_onto_empty_base() {
    assert_eq!(path_join("", "walls"), "walls");
}

#[test]
fn join_absolute_replaces() {
    assert_eq!(path_join("/home/a", "/etc/x"), "/etc/x");
}

#[test]
fn join_matches_std() {
    for (a, b) in [("x", "y"), ("/", "y"), ("x/", "y/z"), ("", ""), ("a", ""), ("a", "/")] {
        let expected = std::path::Path::new(a).join(b).to_string_lossy().into_owned();
        assert_eq!(path_join(a, b), expected, "{a:?} join {b:?}");
    }
}

#[test]
fn tilde_alone_is_home() {
    assert_eq!(expand_tilde_with("~", &home("/home/a")), "/home/a");
}

#[test]
fn tilde_alone_without_home_is_dot() {
    assert_eq!(expand_tilde_with("~", &None), ".");
}

#[test]
fn tilde_slash_joins_home() {
    assert_eq!(expand_tilde_with("~/Pictures/walls", &home("/home/a")), "/home/a/Pictures/walls");
}

#[test]
fn tilde_slash_without_home_is_kept() {
    assert_eq!(expand_tilde_with("~/Pictures", &None), "~/Pictures");
}

#[test]
fn tilde_user_form_is_kept() {
    assert_eq!(expand_tilde_with("~bob/x", &home("/home/a")), "~bob/x");
}

#[test]
fn tilde_slash_absolute_rest_replaces_home() {
    assert_eq!(expand_tilde_with("~//etc", &home("/home/a")), "/etc");
}

#[test]
fn plain_paths_are_kept() {
    assert_eq!(expand_tilde_with("/abs/path", &home("/home/a")), "/abs/path");
    assert_eq!(expand_tilde("/abs/path"), "/abs/path");
    assert_eq!(expand_tilde("rel/~/x"), "rel/~/x");
}

#[test]
fn expanding_twice_is_expanding_once() {
    let h = home("/home/a");
    for p in ["~", "~/x", "~//y", "plain", "", "~x"] {
        let once = expand_tilde_with(p, &h);
        assert_eq!(expand_tilde_with(&once, &h), once, "{p:?}");
    }
    for p in ["~", "~/x"] {
        let once = expand_tilde_with(p, &None);
        assert_eq!(expand_tilde_with(&once, &None), once, "{p:?}");
    }
}

#[test]
fn home_expansion_gives_a_path() {
    assert!(!expand_tilde("~").is_empty());
}
