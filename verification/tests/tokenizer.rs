use rshell::shell::{split_argument, Shell};

fn parse(line: &str) -> (String, Vec<String>) {
    let mut shell = Shell::new(None);
    shell.set_input(line.to_string());
    let command = shell.parse_input().expect("every line parses");
    (command.command, command.args)
}

#[test]
fn plain_words_become_name_and_args() {
    let (name, args) = parse("echo hello world");
    assert_eq!(name, "echo");
    assert_eq!(args, vec!["hello".to_string(), "world".to_string()]);
}

#[test]
fn quoted_interior_spaces_are_preserved() {
    let (name, args) = parse("echo \"hello   world\"");
    assert_eq!(name, "echo");
    assert_eq!(args, vec!["hello   world".to_string()]);
}

#[test]
fn single_quotes_behave_like_double_quotes() {
    let (_, args) = parse("echo 'hello   world'");
    assert_eq!(args, vec!["hello   world".to_string()]);
}

#[test]
fn double_space_collapses_to_one_separator() {
    let (_, args) = parse("echo a  b");
    assert_eq!(args, vec!["a".to_string(), "b".to_string()]);
    assert!(!args.contains(&String::new()));
}

#[test]
fn unterminated_quote_consumes_the_rest() {
    let (_, args) = parse("echo \"abc");
    assert_eq!(args, vec!["abc".to_string()]);
}

#[test]
fn adjacent_quotes_yield_no_empty_argument() {
    assert_eq!(split_argument("''"), Vec::<String>::new());
    assert_eq!(split_argument("a \"\" b"), vec!["a".to_string(), "b".to_string()]);
}

#[test]
fn quotes_inside_a_word_join_the_pieces() {
    assert_eq!(split_argument("ab\"cd ef\"g"), vec!["abcd ef".to_string(), "g".to_string()]);
}

#[test]
fn leading_and_trailing_spaces_are_trimmed() {
    let (name, args) = parse("   pwd   ");
    assert_eq!(name, "pwd");
    assert_eq!(args, Vec::<String>::new());
}

#[test]
fn empty_line_parses_to_an_empty_name() {
    let (name, args) = parse("");
    assert_eq!(name, "");
    assert_eq!(args, Vec::<String>::new());
}

#[test]
fn newline_terminated_line_is_trimmed() {
    let (name, args) = parse("echo hi\n");
    assert_eq!(name, "echo");
    assert_eq!(args, vec!["hi".to_string()]);
}

#[test]
fn trim_strips_both_ends_only() {
    assert_eq!(rshell::text::trim("  a b  "), "a b");
    assert_eq!(rshell::text::trim("\t\n x \r\n"), "x");
    assert_eq!(rshell::text::trim("   "), "");
    assert_eq!(rshell::text::trim(""), "");
}
