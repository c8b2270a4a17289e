use agent_threads::cd::{
    has_unquoted_shell_metachar, interpret_words, parse_with_home, path_to_resolve, resolve,
    CanonicalPath, ShellCd,
};

fn parse(command: &str) -> ShellCd {
    parse_with_home(command, Some("/home/user"))
}

#[test]
fn parse_non_cd_command() {
    assert_eq!(parse("echo cd"), ShellCd::NotCd);
}

#[test]
fn parse_cd_path_with_spaces() {
    assert_eq!(
        parse("cd 'dir with spaces'"),
        ShellCd::ChangeTo("dir with spaces".to_string())
    );
}

#[test]
fn parse_home_uses_supplied_shell_home() {
    let home = "/shell/home";
    assert_eq!(
        parse_with_home("cd", Some(home)),
        ShellCd::ChangeTo("/shell/home".to_string())
    );
    assert_eq!(
        parse_with_home("cd ~/project", Some(home)),
        ShellCd::ChangeTo("/shell/home/project".to_string())
    );
}

#[test]
fn leave_complex_cd_for_the_shell() {
    assert_eq!(parse("cd one two"), ShellCd::NotCd);
    assert_eq!(parse("cd one && pwd"), ShellCd::NotCd);
    assert_eq!(parse("cd one&&pwd"), ShellCd::NotCd);
    assert_eq!(parse("cd one;pwd"), ShellCd::NotCd);
    assert_eq!(parse("cd one||pwd"), ShellCd::NotCd);
    assert_eq!(parse("cd $HOME"), ShellCd::NotCd);
    assert_eq!(parse("cd \"$HOME\""), ShellCd::NotCd);
    assert_eq!(parse("cd `pwd`"), ShellCd::NotCd);
    assert_eq!(parse("cd \"$(pwd)\""), ShellCd::NotCd);
    assert_eq!(parse("cd \\~"), ShellCd::NotCd);
    assert_eq!(parse("cd \\~/x"), ShellCd::NotCd);
    assert_eq!(parse("cd -"), ShellCd::NotCd);
    assert_eq!(parse("cd --"), ShellCd::NotCd);
    assert_eq!(parse("cd -P"), ShellCd::NotCd);
    assert_eq!(parse("cd -L"), ShellCd::NotCd);
    assert_eq!(parse("cd build-*"), ShellCd::NotCd);
    assert_eq!(parse("cd maybe?"), ShellCd::NotCd);
    assert_eq!(parse("cd [abc]"), ShellCd::NotCd);
    assert_eq!(parse("cd {a,b}"), ShellCd::NotCd);
    assert_eq!(parse("cd ~otheruser"), ShellCd::NotCd);
    assert_eq!(
        parse("cd 'one;two'"),
        ShellCd::ChangeTo("one;two".to_string())
    );
    assert_eq!(parse("cd \"~\""), ShellCd::ChangeTo("~".to_string()));
}

#[test]
fn resolve_relative_directory_against_cwd() {
    let found = CanonicalPath { path: "/tmp/cd-test/child".to_string(), is_dir: true };
    assert_eq!(
        path_to_resolve("child", "/tmp/cd-test"),
        "/tmp/cd-test/child"
    );
    assert_eq!(
        resolve("child", "/tmp/cd-test", Ok(found)),
        Ok("/tmp/cd-test/child".to_string())
    );
}

#[test]
fn parse_refuses_what_it_cannot_carry_out() {
    assert_eq!(
        parse("cd 'open"),
        ShellCd::Invalid("cd: could not parse quoted path".to_string())
    );
    assert_eq!(
        parse_with_home("cd", None),
        ShellCd::Invalid("cd: HOME is not set".to_string())
    );
    assert_eq!(
        parse_with_home("cd ~/project", None),
        ShellCd::ChangeTo("~/project".to_string())
    );
}

#[test]
fn parse_is_about_the_word_cd() {
    assert_eq!(parse(""), ShellCd::NotCd);
    assert_eq!(parse("cdrom"), ShellCd::NotCd);
    assert_eq!(parse("cd\none"), ShellCd::NotCd);
    assert_eq!(parse(" \tcd\tone"), ShellCd::ChangeTo("one".to_string()));
    assert_eq!(parse("cd ~"), ShellCd::ChangeTo("/home/user".to_string()));
    assert_eq!(parse("cd '~/x'"), ShellCd::ChangeTo("~/x".to_string()));
    assert_eq!(parse("cd one\\ two"), ShellCd::ChangeTo("one two".to_string()));
    assert_eq!(parse("cd # comment"), ShellCd::ChangeTo("/home/user".to_string()));
}

#[test]
fn words_of_a_cd_are_read() {
    let words = |words: &[&str]| Some(words.iter().map(|word| word.to_string()).collect());
    let home = Some("/home/user");
    assert_eq!(interpret_words("cd", Some(Vec::new()), home), ShellCd::NotCd);
    assert_eq!(interpret_words("cd", words(&["pwd"]), home), ShellCd::NotCd);
    assert_eq!(interpret_words("cd", words(&["cd", "a", "b"]), home), ShellCd::NotCd);
    assert_eq!(interpret_words("cd -x", words(&["cd", "-x"]), home), ShellCd::NotCd);
    assert_eq!(
        interpret_words("cd ~/a", words(&["cd", "~/a"]), home),
        ShellCd::ChangeTo("/home/user/a".to_string())
    );
    assert_eq!(
        interpret_words("cd \"~/a\"", words(&["cd", "~/a"]), home),
        ShellCd::ChangeTo("~/a".to_string())
    );
}

#[test]
fn quotes_take_the_meaning_of_characters_away() {
    assert!(!has_unquoted_shell_metachar("cd 'a $b `c` ;'"));
    assert!(!has_unquoted_shell_metachar("cd \"a;b|c\""));
    assert!(!has_unquoted_shell_metachar("cd a\\;b"));
    assert!(has_unquoted_shell_metachar("cd \"a$b\""));
    assert!(has_unquoted_shell_metachar("cd 'a\\';b"));
    assert!(has_unquoted_shell_metachar("cd a\\;b; cd 'c'"));
}

#[test]
fn resolve_reports_what_the_file_system_says() {
    assert_eq!(
        resolve("child", "/base", Err("No such file or directory".to_string())),
        Err("cd: failed to resolve /base/child: No such file or directory".to_string())
    );
    let file = CanonicalPath { path: "/base/file".to_string(), is_dir: false };
    assert_eq!(
        resolve("file", "/base", Ok(file)),
        Err("cd: not a directory: /base/file".to_string())
    );
    assert_eq!(path_to_resolve("/abs", "/base"), "/abs");
    assert_eq!(path_to_resolve("child", "/base/"), "/base/child");
}

#[test]
fn resolved_directory_resolves_to_itself() {
    let found = || CanonicalPath { path: "/base/child".to_string(), is_dir: true };
    let resolved = resolve("child", "/base", Ok(found())).expect("directory");
    for cwd in ["/elsewhere", "/base", ""] {
        assert_eq!(path_to_resolve(&resolved, cwd), resolved);
        assert_eq!(resolve(&resolved, cwd, Ok(found())), Ok(resolved.clone()));
    }
}
