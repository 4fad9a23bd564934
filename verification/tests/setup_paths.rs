use git_same::setup::handler::{apply_tab_completion, new_folder_name, SetupEffect};
use git_same::setup::paths::{build_browse_entries, collapse_home, longest_common_prefix, DirChild};
use git_same::setup::state::{SetupState, SetupStep};

fn child(name: &str) -> DirChild {
    DirChild { name: name.to_string(), path: format!("/base/{}", name) }
}

#[test]
fn common_prefix_of_completions() {
    let v = vec!["~/Developer/".to_string(), "~/Desktop/".to_string(), "~/Dev/".to_string()];
    assert_eq!(longest_common_prefix(&v), "~/De");
    assert_eq!(longest_common_prefix(&vec!["same".to_string(), "same".to_string()]), "same");
    assert_eq!(longest_common_prefix(&Vec::new()), "");
}

#[test]
fn browse_entries_sorted_with_parent_first() {
    let entries = build_browse_entries(
        Some("/".to_string()),
        vec![child("zeta"), child("Alpha"), child(".hidden"), child("beta")],
        false,
    );
    let labels: Vec<&str> = entries.iter().map(|e| e.label.as_str()).collect();
    assert_eq!(labels, vec![".. (parent)", "Alpha/", "beta/", "zeta/"]);
    assert_eq!(entries[0].path, "/");
    assert_eq!(entries[0].depth, 0);
    assert!(entries[1..].iter().all(|e| e.depth == 1));
}

#[test]
fn browse_entries_show_hidden_when_asked() {
    let entries = build_browse_entries(None, vec![child(".git"), child("src")], true);
    let labels: Vec<&str> = entries.iter().map(|e| e.label.as_str()).collect();
    assert_eq!(labels, vec![".git/", "src/"]);
}

#[test]
fn new_folder_names_count_up() {
    assert_eq!(new_folder_name(1), "new-folder");
    assert_eq!(new_folder_name(2), "new-folder-2");
    assert_eq!(new_folder_name(17), "new-folder-17");
}

#[test]
fn tab_completion_takes_single_candidate() {
    let mut state = SetupState::new("~/Dev");
    state.step = SetupStep::SelectPath;
    state.path_completions = vec!["~/Developer/".to_string()];
    let effect = apply_tab_completion(&mut state);
    assert_eq!(state.base_path, "~/Developer/");
    assert_eq!(state.path_cursor, "~/Developer/".len());
    assert!(state.path_completions.is_empty());
    assert!(matches!(effect, SetupEffect::RefreshCompletions));
}

#[test]
fn tab_completion_extends_to_common_prefix_then_cycles() {
    let mut state = SetupState::new("~/D");
    state.path_completions = vec!["~/Dev/".to_string(), "~/Devices/".to_string()];
    let effect = apply_tab_completion(&mut state);
    assert_eq!(state.base_path, "~/Dev");
    assert!(matches!(effect, SetupEffect::RefreshCompletions));

    let mut state = SetupState::new("~/Dev");
    state.path_completions = vec!["~/Dev/".to_string(), "~/Devices/".to_string()];
    apply_tab_completion(&mut state);
    assert_eq!(state.base_path, "~/Dev/");
    apply_tab_completion(&mut state);
    assert_eq!(state.base_path, "~/Devices/");
    apply_tab_completion(&mut state);
    assert_eq!(state.base_path, "~/Dev/");
}

#[test]
fn test_tilde_collapse() {
    assert_eq!(collapse_home("/home/user/projects", Some("/home/user")), "~/projects");
    assert_eq!(collapse_home("/tmp/foo", Some("/home/user")), "/tmp/foo");
}

#[test]
fn collapse_home_edge_cases() {
    assert_eq!(collapse_home("/home/user", Some("/home/user")), "~");
    assert_eq!(collapse_home("/home/user/a", Some("/home/user/")), "~/a");
    assert_eq!(collapse_home("/home/username", Some("/home/user")), "/home/username");
    assert_eq!(collapse_home("/home/user/a", None), "/home/user/a");
    assert_eq!(collapse_home("/srv", Some("/")), "~/srv");
}
