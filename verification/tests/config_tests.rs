use dotsync::text::decimal;
use dotsync::config::{Config, Entry, InitArgs};
use dotsync::error::DotsyncError;
use dotsync::path::LocalPath;

fn p(s: &str) -> LocalPath {
    LocalPath::parse(s)
}

fn v(items: &[&str]) -> Vec<String> {
    items.iter().map(|s| s.to_string()).collect()
}

fn sample() -> Config {
    Config::new(
        p(".config"),
        "git@github.com:you/dotfiles.git".to_string(),
        vec![
            Entry::new("nvim".to_string(), p("/home/me/.config/nvim")),
            Entry::new("hosts".to_string(), p("/etc/hosts")),
        ],
    )
}

#[test]
fn entry_and_config_fields() {
    let e = Entry::new("tmux".to_string(), p("/home/me/.tmux.conf"));
    assert_eq!(e.name(), "tmux");
    assert_eq!(e.source().parts(), v(&["/", "home", "me", ".tmux.conf"]));
    let c = sample();
    assert_eq!(c.repo_dir().parts(), v(&[".config"]));
    assert_eq!(c.remote(), "git@github.com:you/dotfiles.git");
    assert_eq!(c.entry_count(), 2);
    assert_eq!(c.entries()[1].name(), "hosts");
    assert_eq!(c.entry(0).name(), "nvim");
    assert_eq!(c.duplicate().entry_count(), 2);
}

#[test]
fn add_entry_appends_fresh_name() {
    let mut c = sample();
    let r = c.add_entry(Entry::new("zsh".to_string(), p("/home/me/.zshrc")));
    assert!(r.is_ok());
    assert_eq!(c.entry_count(), 3);
    assert_eq!(c.entry(2).name(), "zsh");
    assert!(c.has_entry_named(&"zsh".to_string()));
}

#[test]
fn add_entry_rejects_duplicate_name() {
    let mut c = sample();
    let r = c.add_entry(Entry::new("nvim".to_string(), p("/elsewhere")));
    match r {
        Err(DotsyncError::EntryExists { name }) => assert_eq!(name, "nvim"),
        other => panic!("unexpected {:?}", other),
    }
    assert_eq!(c.entry_count(), 2);
    assert_eq!(c.entry(0).source().parts(), v(&["/", "home", "me", ".config", "nvim"]));
}

#[test]
fn manifest_writes_sources_relative_to_home() {
    let m = sample().manifest_for(&p("/home/me"));
    assert_eq!(m.entry(0).source().parts(), v(&["~", ".config", "nvim"]));
    assert_eq!(m.entry(1).source().parts(), v(&["/", "etc", "hosts"]));
    assert_eq!(m.remote(), "git@github.com:you/dotfiles.git");
    assert_eq!(m.repo_dir().parts(), v(&[".config"]));
}

#[test]
fn manifest_round_trip_on_same_machine() {
    let c = sample();
    let home = p("/home/me");
    let back = c.manifest_for(&home).restored_for(&home, &p("/home/me/.config"));
    assert!(back.entry(0).source().same_as(&c.entry(0).source()));
    assert!(back.entry(1).source().same_as(&c.entry(1).source()));
    assert_eq!(back.repo_dir().parts(), v(&["/", "home", "me", ".config"]));
    assert_eq!(back.remote(), c.remote());
}

#[test]
fn manifest_moves_to_another_home() {
    let m = sample().manifest_for(&p("/home/me"));
    let there = m.restored_for(&p("/Users/other"), &p("/Users/other/dotsync"));
    assert_eq!(there.entry(0).source().parts(), v(&["/", "Users", "other", ".config", "nvim"]));
    assert_eq!(there.entry(1).source().parts(), v(&["/", "etc", "hosts"]));
}

#[test]
fn source_equal_to_home_becomes_tilde() {
    let c = Config::new(p("r"), String::new(), vec![Entry::new("all".to_string(), p("/home/me"))]);
    let m = c.manifest_for(&p("/home/me"));
    assert_eq!(m.entry(0).source().parts(), v(&["~"]));
    let back = m.restored_for(&p("/home/me"), &p("/r"));
    assert_eq!(back.entry(0).source().parts(), v(&["/", "home", "me"]));
}

#[test]
fn relocated_keeps_entries() {
    let c = sample().relocated(p("/new/repo"), "url".to_string());
    assert_eq!(c.repo_dir().parts(), v(&["/", "new", "repo"]));
    assert_eq!(c.remote(), "url");
    assert_eq!(c.entry_count(), 2);
}

#[test]
fn file_locations() {
    let cd = p("/home/me/.config");
    assert_eq!(Config::path_in(&cd).parts(), v(&["/", "home", "me", ".config", "dotsync", "config.toml"]));
    assert_eq!(Config::default_repo_dir_in(&cd).parts(), v(&["/", "home", "me", ".config", "dotsync"]));
    assert_eq!(Config::manifest_path(&p("/repo")).parts(), v(&["/", "repo", "dotsync.toml"]));
}

#[test]
fn init_args_emptiness() {
    assert!(InitArgs { repo_dir: p(""), remote: None }.is_empty());
    assert!(!InitArgs { repo_dir: p(".config"), remote: None }.is_empty());
    assert!(!InitArgs { repo_dir: p(""), remote: Some("u".to_string()) }.is_empty());
}

#[test]
fn add_all_entries_does_nothing() {
    assert!(Config::add_all_entries().is_ok());
}

#[test]
fn decimal_writes_numbers_like_to_string() {
    for n in [0u64, 7, 10, 99, 100, 1700000000, u64::MAX] {
        assert_eq!(decimal(n), n.to_string());
    }
}
