use s3redirects::redirect_rule::{build_conf, RedirectRule};

#[test]
fn it_generates_conf_string_for_a_rule() {
    let rule = RedirectRule::new(
        "^/resources/(.+)/subs(/.*)?$",
        "/new-resources/$1/new-sub$2",
    );

    assert_eq!(
        rule.to_conf(),
        "location ~* ^/resources/(.+)/subs(/.*)?$ {
    return 301 /new-resources/$1/new-sub$2;
}
"
        .to_string()
    );
}

#[test]
fn it_joins_conf_entries_from_multiple_rules() {
    let rules = vec![
        RedirectRule::new(
            "^/resources/(.+)/subs(/.*)?$",
            "/new-resources/$1/new-sub$2",
        ),
        RedirectRule::new("^/simple$", "/short"),
    ];

    assert_eq!(
        build_conf(&rules),
        "location ~* ^/resources/(.+)/subs(/.*)?$ {
    return 301 /new-resources/$1/new-sub$2;
}

location ~* ^/simple$ {
    return 301 /short;
}
"
        .to_string()
    );
}

#[test]
fn a_rule_keeps_its_patterns_verbatim() {
    let rule = RedirectRule::new("^/a b{2}$", " /c;d ");
    assert_eq!(rule.match_pattern(), "^/a b{2}$");
    assert_eq!(rule.redirect_pattern(), " /c;d ");
    assert_eq!(
        rule.to_conf(),
        "location ~* ^/a b{2}$ {\n    return 301  /c;d ;\n}\n"
    );
}

#[test]
fn a_rule_of_empty_patterns_renders_the_bare_block() {
    let rule = RedirectRule::new("", "");
    assert_eq!(rule.to_conf(), "location ~*  {\n    return 301 ;\n}\n");
}

#[test]
fn rules_are_equal_when_both_patterns_are() {
    assert_eq!(RedirectRule::new("^/a$", "/b"), RedirectRule::new("^/a$", "/b"));
    assert_ne!(RedirectRule::new("^/a$", "/b"), RedirectRule::new("^/a$", "/c"));
    assert_ne!(RedirectRule::new("^/a$", "/b"), RedirectRule::new("^/c$", "/b"));
    assert_ne!(RedirectRule::new("/b", "^/a$"), RedirectRule::new("^/a$", "/b"));
}

#[test]
fn no_rules_build_an_empty_document() {
    let rules: Vec<RedirectRule> = Vec::new();
    assert_eq!(build_conf(&rules), "");
}

#[test]
fn one_rule_builds_its_own_block() {
    let rules = vec![RedirectRule::new("^/a$", "/b")];
    assert_eq!(build_conf(&rules), rules[0].to_conf());
    assert_eq!(build_conf(&rules), "location ~* ^/a$ {\n    return 301 /b;\n}\n");
}

#[test]
fn blocks_are_joined_by_one_blank_line_in_rule_order() {
    let rules = vec![
        RedirectRule::new("^/a$", "/b"),
        RedirectRule::new("^/c$", "/d"),
        RedirectRule::new("^/e$", "/f"),
    ];
    let conf = build_conf(&rules);
    assert_eq!(
        conf,
        "location ~* ^/a$ {\n    return 301 /b;\n}\n\nlocation ~* ^/c$ {\n    return 301 /d;\n}\n\nlocation ~* ^/e$ {\n    return 301 /f;\n}\n"
    );
    let blocks: Vec<String> = rules.iter().map(|rule| rule.to_conf()).collect();
    assert_eq!(conf, blocks.join("\n"));
    assert_eq!(conf.len(), blocks.iter().map(|block| block.len()).sum::<usize>() + 2);
    assert!(conf.starts_with("location"));
    assert!(conf.ends_with(";\n}\n"));
    assert!(!conf.ends_with("\n\n"));
}
