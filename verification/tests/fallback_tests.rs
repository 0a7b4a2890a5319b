use swb::fallback::{substitute, resolve, NextAction};

#[test]
fn substitute_replaces_the_token() {
    assert_eq!(substitute("a${}b", "X"), "aXb".to_string());
    assert_eq!(
        substitute("https://duckduckgo.com/?q=${}", "abc"),
        "https://duckduckgo.com/?q=abc".to_string()
    );
}

#[test]
fn substitute_without_token_is_unchanged() {
    assert_eq!(substitute("no token here", "X"), "no token here".to_string());
    assert_eq!(substitute("${", "X"), "${".to_string());
}

#[test]
fn substitute_replaces_only_the_first_token() {
    assert_eq!(substitute("${}${}", "A"), "A${}".to_string());
}

#[test]
fn fresh_failure_yields_substitute_containing_url() {
    let template = "https://duckduckgo.com/?q=${}".to_string();
    let r = resolve(&"abc".to_string(), &template, &String::new());
    match r {
        NextAction::TrySubstitute(u) => {
            assert_eq!(u, "https://duckduckgo.com/?q=abc".to_string());
            assert!(u.contains("abc"));
        }
        NextAction::GoHome => panic!("expected a substitution"),
    }
}

#[test]
fn failed_fallback_goes_home() {
    let template = "https://duckduckgo.com/?q=${}".to_string();
    let u = "https://duckduckgo.com/?q=abc".to_string();
    assert_eq!(resolve(&u, &template, &u), NextAction::GoHome);
}

#[test]
fn failure_chain_ends_at_home() {
    let template = "https://duckduckgo.com/?q=${}".to_string();
    let first = resolve(&"Y".to_string(), &template, &String::new());
    let s = match first {
        NextAction::TrySubstitute(s) => s,
        NextAction::GoHome => panic!("expected a substitution"),
    };
    assert_eq!(s, "https://duckduckgo.com/?q=Y".to_string());
    let second = resolve(&s, &template, &s);
    assert_eq!(second, NextAction::GoHome);
}

#[test]
fn empty_failed_url_matches_empty_fallback() {
    // an empty failed URL equals the initial, empty last fallback, so the
    // chain jumps straight home
    let template = "https://duckduckgo.com/?q=${}".to_string();
    assert_eq!(resolve(&String::new(), &template, &String::new()), NextAction::GoHome);
}
