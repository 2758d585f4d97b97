//! Behavior of the configuration resolver on concrete token lists.

use quest_passer::config::{parse_args, parse_args_title_only, Config};

fn tokens(v: &[&str]) -> Vec<String> {
    v.iter().map(|s| s.to_string()).collect()
}

#[test]
fn defaults_without_tokens() {
    let c = parse_args(&tokens(&["runner"]));
    assert_eq!(c.title, "Quest Passer");
    assert!(!c.start_minimized);
    assert!(c.icon_url.is_none());
}

#[test]
fn default_trait_matches_defaults() {
    let c = Config::default();
    assert_eq!(c.title, "Quest Passer");
    assert!(!c.start_minimized);
    assert!(c.icon_url.is_none());
}

#[test]
fn title_and_icon_recognized() {
    let c = parse_args(&tokens(&["runner", "--title", "Star Quest", "--icon", "http://e/i.png"]));
    assert_eq!(c.title, "Star Quest");
    assert_eq!(c.icon_url.as_deref(), Some("http://e/i.png"));
    assert!(!c.start_minimized);
}

#[test]
fn tray_flag_sets_start_minimized() {
    let c = parse_args(&tokens(&["runner", "--tray"]));
    assert!(c.start_minimized);
    assert_eq!(c.title, "Quest Passer");
}

#[test]
fn flag_order_is_irrelevant() {
    let a = parse_args(&tokens(&["runner", "--icon", "U", "--title", "T"]));
    let b = parse_args(&tokens(&["runner", "--title", "T", "--icon", "U"]));
    assert_eq!(a.title, b.title);
    assert_eq!(a.icon_url, b.icon_url);
    assert_eq!(a.start_minimized, b.start_minimized);
    assert_eq!(a.title, "T");
    assert_eq!(a.icon_url.as_deref(), Some("U"));
}

#[test]
fn unknown_tokens_are_skipped() {
    let c = parse_args(&tokens(&["runner", "--bogus", "--title", "T", "leftover"]));
    assert_eq!(c.title, "T");
    assert!(c.icon_url.is_none());
    assert!(!c.start_minimized);
}

#[test]
fn trailing_flag_without_value_is_skipped() {
    let c = parse_args(&tokens(&["runner", "--icon", "U", "--title"]));
    assert_eq!(c.title, "Quest Passer");
    assert_eq!(c.icon_url.as_deref(), Some("U"));
}

#[test]
fn flag_value_may_look_like_a_flag() {
    let c = parse_args(&tokens(&["runner", "--title", "--tray"]));
    assert_eq!(c.title, "--tray");
    assert!(!c.start_minimized);
}

#[test]
fn empty_token_list_yields_defaults() {
    let c = parse_args(&Vec::new());
    assert_eq!(c.title, "Quest Passer");
    assert!(!c.start_minimized);
    assert!(c.icon_url.is_none());
}

#[test]
fn title_only_variant_honors_title() {
    let c = parse_args_title_only(&tokens(&["runner", "--title", "Star Quest"]));
    assert_eq!(c.title, "Star Quest");
}

#[test]
fn title_only_variant_drops_icon_and_tray() {
    let c = parse_args_title_only(&tokens(&["runner", "--icon", "U", "--tray", "--title", "T"]));
    assert_eq!(c.title, "T");
    assert!(c.icon_url.is_none());
    assert!(!c.start_minimized);
}
