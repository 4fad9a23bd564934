use git_same::template::{render_template, split_full_name, template_path};

#[test]
fn default_layout_is_org_then_repo() {
    assert_eq!(
        template_path("/srv/code", "{org}/{repo}", "github", "acme/rocket"),
        Some("/srv/code/acme/rocket".to_string())
    );
}

#[test]
fn layout_can_name_the_provider() {
    assert_eq!(
        render_template("{provider}/{org}/{repo}", "github", "acme", "rocket"),
        "github/acme/rocket"
    );
    assert_eq!(render_template("{repo}-{org}", "gitlab", "acme", "rocket"), "rocket-acme");
}

#[test]
fn unknown_braces_are_kept() {
    assert_eq!(render_template("{team}/{repo}", "github", "acme", "rocket"), "{team}/rocket");
    assert_eq!(render_template("{org", "github", "acme", "rocket"), "{org");
}

#[test]
fn full_name_splits_at_first_slash() {
    assert_eq!(split_full_name("group/sub/repo"), Some(("group".to_string(), "sub/repo".to_string())));
    assert_eq!(split_full_name("noslash"), None);
    assert_eq!(template_path("/srv", "{org}/{repo}", "github", "noslash"), None);
}
