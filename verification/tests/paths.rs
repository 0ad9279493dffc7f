use dotsync::path::LocalPath;

fn p(s: &str) -> LocalPath {
    LocalPath::parse(s)
}

fn parts(x: &LocalPath) -> Vec<String> {
    x.parts()
}

fn v(items: &[&str]) -> Vec<String> {
    items.iter().map(|s| s.to_string()).collect()
}

#[test]
fn parse_absolute_path() {
    assert_eq!(parts(&p("/home/me/.zshrc")), v(&["/", "home", "me", ".zshrc"]));
}

#[test]
fn parse_drops_empty_and_current_dir_pieces() {
    assert_eq!(parts(&p("./a//b/.")), v(&[".", "a", "b"]));
    assert_eq!(parts(&p("/a/./b/")), v(&["/", "a", "b"]));
    assert_eq!(parts(&p("a/../b")), v(&["a", "..", "b"]));
}

#[test]
fn parse_edge_cases() {
    assert_eq!(parts(&p("")), Vec::<String>::new());
    assert_eq!(parts(&p("/")), v(&["/"]));
    assert_eq!(parts(&p(".")), v(&["."]));
    assert_eq!(parts(&p(".x")), v(&[".x"]));
    assert_eq!(parts(&p("~")), v(&["~"]));
}

#[test]
fn join_relative_tail() {
    assert_eq!(parts(&p("/repo").join(&p("nvim"))), v(&["/", "repo", "nvim"]));
    assert_eq!(parts(&p("/repo").join(&p("./nvim"))), v(&["/", "repo", "nvim"]));
    assert_eq!(parts(&p("").join(&p("./nvim"))), v(&[".", "nvim"]));
}

#[test]
fn join_absolute_tail_replaces() {
    assert_eq!(parts(&p("/repo").join(&p("/etc/passwd"))), v(&["/", "etc", "passwd"]));
}

#[test]
fn starts_with_whole_components() {
    assert!(p("/home/me/x").starts_with(&p("/home/me")));
    assert!(!p("/home/me2/x").starts_with(&p("/home/me")));
    assert!(p("/home/me").starts_with(&p("/home/me")));
    assert!(!p("/home").starts_with(&p("/home/me")));
}

#[test]
fn strip_prefix_gives_rest() {
    let rest = p("/home/me/.config/nvim").strip_prefix(&p("/home/me")).unwrap();
    assert_eq!(parts(&rest), v(&[".config", "nvim"]));
    assert!(p("/etc/hosts").strip_prefix(&p("/home/me")).is_none());
}

#[test]
fn parent_of_paths() {
    assert_eq!(parts(&p("/a/b").parent().unwrap()), v(&["/", "a"]));
    assert!(p("/").parent().is_none());
    assert!(p("").parent().is_none());
    assert_eq!(parts(&p("a").parent().unwrap()), Vec::<String>::new());
    assert_eq!(parts(&p(".").parent().unwrap()), Vec::<String>::new());
}

#[test]
fn join_stays_under_base_for_relative_tails() {
    // a relative name, even one with "..", keeps the base as its first components
    let base = p("/repo");
    assert!(base.join(&p("../outside")).starts_with(&base));
    assert!(base.join(&p("a/b")).starts_with(&base));
    assert!(!base.join(&p("/etc")).starts_with(&base));
}

#[test]
fn strip_then_join_round_trip() {
    let full = p("/home/me/.config/nvim");
    let base = p("/home/me");
    let rest = full.strip_prefix(&base).unwrap();
    assert!(base.join(&rest).same_as(&full));
}

#[test]
fn empty_and_absolute_queries() {
    assert!(LocalPath::empty().is_empty());
    assert!(p("/x").is_absolute());
    assert!(!p("x").is_absolute());
    assert!(p("/a").same_as(&p("/a/")));
    assert!(!p("/a").same_as(&p("/b")));
    assert_eq!(parts(&p("/a/b").duplicate()), v(&["/", "a", "b"]));
}
