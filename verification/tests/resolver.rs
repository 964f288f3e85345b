use rshell::shell::{candidate_path, read_commands, Shell};

#[test]
fn search_path_splits_on_colons() {
    let shell = Shell::new(Some("/usr/local/bin:/usr/bin:/bin".to_string()));
    assert_eq!(
        shell.path_env,
        vec!["/usr/local/bin".to_string(), "/usr/bin".to_string(), "/bin".to_string()]
    );
}

#[test]
fn empty_path_value_yields_one_empty_directory() {
    assert_eq!(read_commands(String::new()), vec![String::new()]);
}

#[test]
fn empty_segments_are_kept() {
    assert_eq!(
        read_commands("a::b".to_string()),
        vec!["a".to_string(), String::new(), "b".to_string()]
    );
}

#[test]
fn missing_path_variable_yields_an_empty_search_path() {
    let shell = Shell::new(None);
    assert_eq!(shell.path_env, Vec::<String>::new());
}

#[test]
fn candidate_joins_directory_and_name() {
    assert_eq!(
        candidate_path(&"/usr/bin".to_string(), &"ls".to_string()),
        "/usr/bin/ls"
    );
}

#[test]
fn resolution_returns_the_first_directory_that_has_the_entry() {
    // A command placed in the directory that stands first in the search
    // path resolves to that directory's constructed path.
    let shell = Shell::new(Some("/tmp/fresh:/usr/bin:/bin".to_string()));
    let found = shell.has_command(&"mycmd".to_string(), &vec![true, false, true]);
    assert_eq!(found, Some("/tmp/fresh/mycmd".to_string()));
}

#[test]
fn resolution_skips_directories_without_the_entry() {
    let shell = Shell::new(Some("/tmp/fresh:/usr/bin".to_string()));
    let found = shell.has_command(&"tool".to_string(), &vec![false, true]);
    assert_eq!(found, Some("/usr/bin/tool".to_string()));
}

#[test]
fn resolution_reports_absence() {
    let shell = Shell::new(Some("/a:/b".to_string()));
    let found = shell.has_command(&"nonexistent_xyz".to_string(), &vec![false, false]);
    assert_eq!(found, None);
}

#[test]
fn set_input_replaces_only_the_input_line() {
    let mut shell = Shell::new(Some("/bin".to_string()));
    shell.set_input("pwd".to_string());
    assert_eq!(shell.input, "pwd");
    assert_eq!(shell.path_env, vec!["/bin".to_string()]);
}
