//! What a `cd` command changes to, and which commands are left to the shell.
use crate::cd::{
    argument_is_quoted, argument_is_special, cd_meaning, has_metachar, is_cd_word, left_to_shell,
    quote_state, resolution, target_path, CanonicalPathView, CdMeaning, QuoteState,
};
use crate::text::{trimmed_start, white_space};
use crate::text_laws::blank;
use vstd::prelude::*;

verus! {

/// Where a `cd` with one argument changes the directory, it changes to that very argument, unless
/// the argument starts with a `~` that is not quoted. In particular an absolute path is itself,
/// and the home directory plays no part.
pub proof fn law_argument_without_tilde_is_the_directory(
    command: Seq<char>,
    words: Seq<Seq<char>>,
    home: Option<Seq<char>>,
)
    requires
        words.len() == 2,
        words[1].len() == 0 || words[1][0] != '~',
    ensures
        cd_meaning(command, Some(words), home) matches CdMeaning::ChangeTo(target) ==> target
            == words[1],
        forall|other: Option<Seq<char>>| #[trigger]
            cd_meaning(command, Some(words), other) == cd_meaning(command, Some(words), home),
{
}

/// A `~` that is not quoted stands for the home directory, where one is known: alone for the
/// directory itself, before a separator for what lies below it. Where none is known, it stands for
/// itself.
pub proof fn law_tilde_is_the_home_directory(
    command: Seq<char>,
    words: Seq<Seq<char>>,
    home: Seq<char>,
    below: Seq<char>,
)
    requires
        words.len() == 2,
        !argument_is_quoted(trimmed_start(command)),
    ensures
        words[1] == seq!['~'] && cd_meaning(command, Some(words), Some(home)) is ChangeTo
            ==> cd_meaning(command, Some(words), Some(home)) == CdMeaning::ChangeTo(home),
        words[1] == seq!['~', '/'] + below && cd_meaning(command, Some(words), Some(home)) is ChangeTo
            && home.len() > 0 && home.last() != '/' && (below.len() == 0 || below[0] != '/')
            ==> cd_meaning(command, Some(words), Some(home)) == CdMeaning::ChangeTo(
            home + seq!['/'] + below,
        ),
        words[1] == seq!['~', '/'] + below && cd_meaning(command, Some(words), Some(home)) is ChangeTo
            && home.len() > 0 && home.last() == '/' && (below.len() == 0 || below[0] != '/')
            ==> cd_meaning(command, Some(words), Some(home)) == CdMeaning::ChangeTo(home + below),
        words[1] == seq!['~', '/'] + below && cd_meaning(command, Some(words), Some(home)) is ChangeTo
            && below.len() > 0 && below[0] == '/' ==> cd_meaning(command, Some(words), Some(home))
            == CdMeaning::ChangeTo(below),
        cd_meaning(command, Some(words), None) matches CdMeaning::ChangeTo(target) ==> target
            == words[1],
{
    let path = words[1];
    if path == seq!['~', '/'] + below {
        assert(path.skip(2) =~= below);
        assert(seq!['~', '/'].is_prefix_of(path));
        assert(path.len() >= 2);
        if home.len() > 0 {
            assert(home.push('/') =~= home + seq!['/']);
        }
    }
}

/// A command changes the directory exactly where it is the word `cd`, alone or with one argument,
/// holds nothing that the shell would do more with, and the argument is neither an option nor the
/// home directory of somebody else. All else is for the shell, but for two errors: words that
/// cannot be told apart, and a `cd` alone where no home directory is known.
pub proof fn law_which_commands_change_the_directory(
    command: Seq<char>,
    words: Seq<Seq<char>>,
    home: Option<Seq<char>>,
)
    ensures
        ({
            let plain = !left_to_shell(trimmed_start(command)) && words.len() > 0 && words[0]
                == seq!['c', 'd'];
            let meaning = cd_meaning(command, Some(words), home);
            let argument = words[1];
            let refused = argument.len() > 0 && (argument[0] == '-' || (argument[0] == '~'
                && argument.len() > 1 && argument[1] != '/'));
            &&& meaning is ChangeTo <==> plain && ((words.len() == 1 && home is Some) || (
            words.len() == 2 && !refused))
            &&& meaning is Invalid <==> plain && words.len() == 1 && home is None
            &&& meaning matches CdMeaning::Invalid(message) ==> message == "cd: HOME is not set"@
            &&& plain && words.len() == 1 && home is Some ==> meaning == CdMeaning::ChangeTo(
                home->0,
            )
            &&& left_to_shell(trimmed_start(command)) ==> meaning == CdMeaning::NotCd
                && cd_meaning(command, None, home) == CdMeaning::NotCd
            &&& !left_to_shell(trimmed_start(command)) ==> cd_meaning(command, None, home)
                == CdMeaning::Invalid("cd: could not parse quoted path"@)
        }),
{
    if words.len() == 2 {
        let argument = words[1];
        if argument.len() > 0 {
            assert(seq!['-'].is_prefix_of(argument) <==> argument[0] == '-') by {
                if argument[0] == '-' {
                    assert(argument.subrange(0, 1) =~= seq!['-']);
                } else if seq!['-'].is_prefix_of(argument) {
                    assert(argument.subrange(0, 1)[0] == '-');
                }
            }
            assert(seq!['~'].is_prefix_of(argument) <==> argument[0] == '~') by {
                if argument[0] == '~' {
                    assert(argument.subrange(0, 1) =~= seq!['~']);
                } else if seq!['~'].is_prefix_of(argument) {
                    assert(argument.subrange(0, 1)[0] == '~');
                }
            }
            assert(argument == seq!['~'] <==> argument[0] == '~' && argument.len() == 1) by {
                if argument[0] == '~' && argument.len() == 1 {
                    assert(argument =~= seq!['~']);
                }
            }
            if argument.len() > 1 {
                assert(seq!['~', '/'].is_prefix_of(argument) <==> argument[0] == '~' && argument[1]
                    == '/') by {
                    if argument[0] == '~' && argument[1] == '/' {
                        assert(argument.subrange(0, 2) =~= seq!['~', '/']);
                    } else if seq!['~', '/'].is_prefix_of(argument) {
                        assert(argument.subrange(0, 2)[0] == '~');
                        assert(argument.subrange(0, 2)[1] == '/');
                    }
                }
            }
        }
    }
}

/// Where a scan of a command stands behind one more character. A backslash takes the next character
/// literally, but not between single quotes; a quote opens and closes, but not where it is taken
/// literally or stands between quotes of the other kind.
pub proof fn law_quotes_open_and_close(s: Seq<char>, c: char)
    ensures
        ({
            let before = quote_state(s);
            let behind = quote_state(s.push(c));
            let literal = before.escape;
            &&& behind.escape <==> c == '\\' && !literal && !before.single
            &&& behind.single != before.single <==> c == '\'' && !literal && !before.double
            &&& behind.double != before.double <==> c == '"' && !literal && !before.single
        }),
        quote_state(Seq::empty()) == (QuoteState { single: false, double: false, escape: false }),
{
    assert(s.push(c).drop_last() =~= s);
}

/// Whether the shell does more with a character than take it as it is, where it is neither quoted
/// nor escaped.
pub open spec fn is_active(c: char) -> bool {
    seq![
        '$',
        '`',
        '&',
        '|',
        ';',
        '<',
        '>',
        '(',
        ')',
        '*',
        '?',
        '[',
        ']',
        '{',
        '}',
        '\n',
    ].contains(c)
}

/// A command is left to the shell from the first character on that the shell does more with. Between
/// single quotes and behind a backslash there is none; between double quotes only the start of an
/// expansion is one.
pub proof fn law_shell_characters_are_found(s: Seq<char>, c: char)
    ensures
        !has_metachar(Seq::empty()),
        has_metachar(s.push(c)) <==> has_metachar(s) || {
            &&& is_active(c)
            &&& !quote_state(s).escape
            &&& !quote_state(s).single
            &&& quote_state(s).double ==> c == '$' || c == '`'
        },
{
    let all = s.push(c);
    lemma_active(c);
    assert(all.take(s.len() as int) =~= s);
    if has_metachar(s) {
        let i = choose|i: int|
            0 <= i < s.len() && quote_state(s.take(i)).activates(#[trigger] s[i]);
        assert(all.take(i) =~= s.take(i));
        assert(quote_state(all.take(i)).activates(all[i]));
    }
    if quote_state(s).activates(c) {
        assert(quote_state(all.take(s.len() as int)).activates(all[s.len() as int]));
    }
    if has_metachar(all) {
        let i = choose|i: int|
            0 <= i < all.len() && quote_state(all.take(i)).activates(#[trigger] all[i]);
        if i < s.len() {
            assert(all.take(i) =~= s.take(i));
            assert(quote_state(s.take(i)).activates(s[i]));
        }
    }
}

proof fn lemma_active(c: char)
    ensures
        is_active(c) <==> c == '$' || c == '`' || c == '&' || c == '|' || c == ';' || c == '<' || c
            == '>' || c == '(' || c == ')' || c == '*' || c == '?' || c == '[' || c == ']' || c
            == '{' || c == '}' || c == '\n',
{
    let all = seq![
        '$',
        '`',
        '&',
        '|',
        ';',
        '<',
        '>',
        '(',
        ')',
        '*',
        '?',
        '[',
        ']',
        '{',
        '}',
        '\n',
    ];
    assert(all[0] == '$' && all[1] == '`' && all[2] == '&' && all[3] == '|' && all[4] == ';' && all[5]
        == '<' && all[6] == '>' && all[7] == '(' && all[8] == ')' && all[9] == '*' && all[10] == '?'
        && all[11] == '[' && all[12] == ']' && all[13] == '{' && all[14] == '}' && all[15] == '\n');
}

/// A command without quotes and backslashes is for the shell exactly where some character of it is
/// one that the shell does more with.
pub proof fn law_plain_text_is_searched_for_shell_characters(s: Seq<char>)
    requires
        forall|i: int|
            0 <= i < s.len() ==> #[trigger] s[i] != '\\' && s[i] != '\'' && s[i] != '"',
    ensures
        has_metachar(s) <==> exists|i: int| 0 <= i < s.len() && is_active(#[trigger] s[i]),
        quote_state(s) == (QuoteState { single: false, double: false, escape: false }),
    decreases s.len(),
{
    if s.len() == 0 {
        law_shell_characters_are_found(s, ' ');
        assert(s =~= Seq::empty());
    } else {
        let rest = s.drop_last();
        let c = s.last();
        assert forall|i: int| 0 <= i < rest.len() implies #[trigger] rest[i] != '\\' && rest[i]
            != '\'' && rest[i] != '"' by {
            assert(rest[i] == s[i]);
        }
        law_plain_text_is_searched_for_shell_characters(rest);
        law_shell_characters_are_found(rest, c);
        law_quotes_open_and_close(rest, c);
        assert(rest.push(c) =~= s);
        assert(s[s.len() - 1] == c);
        if has_metachar(rest) {
            let i = choose|i: int| 0 <= i < rest.len() && is_active(#[trigger] rest[i]);
            assert(s[i] == rest[i]);
        }
        if exists|i: int| 0 <= i < s.len() && is_active(#[trigger] s[i]) {
            let i = choose|i: int| 0 <= i < s.len() && is_active(#[trigger] s[i]);
            if i < rest.len() {
                assert(rest[i] == s[i]);
            }
        }
    }
}

/// A command is about the word `cd` where it is that word, with nothing or with a blank behind it.
pub proof fn law_cd_is_a_word(trimmed: Seq<char>)
    ensures
        is_cd_word(trimmed) <==> {
            &&& trimmed.len() >= 2
            &&& trimmed[0] == 'c'
            &&& trimmed[1] == 'd'
            &&& trimmed.len() == 2 || trimmed[2] == ' ' || trimmed[2] == '\t'
        },
{
    if trimmed.len() >= 2 && trimmed[0] == 'c' && trimmed[1] == 'd' {
        if trimmed.len() == 2 {
            assert(trimmed =~= seq!['c', 'd']);
        } else if trimmed[2] == ' ' {
            assert(trimmed.subrange(0, 3) =~= seq!['c', 'd', ' ']);
        } else if trimmed[2] == '\t' {
            assert(trimmed.subrange(0, 3) =~= seq!['c', 'd', '\t']);
        }
    }
    if seq!['c', 'd', ' '].is_prefix_of(trimmed) {
        let head = trimmed.subrange(0, 3);
        assert(head[0] == 'c' && head[1] == 'd' && head[2] == ' ');
    }
    if seq!['c', 'd', '\t'].is_prefix_of(trimmed) {
        let head = trimmed.subrange(0, 3);
        assert(head[0] == 'c' && head[1] == 'd' && head[2] == '\t');
    }
}

proof fn lemma_leading_blank(blanks: Seq<char>, rest: Seq<char>)
    requires
        blank(blanks),
        rest.len() == 0 || !white_space(rest[0]),
    ensures
        trimmed_start(blanks + rest) == rest,
    decreases blanks.len(),
{
    if blanks.len() > 0 {
        let tail = blanks.drop_first();
        assert forall|i: int| 0 <= i < tail.len() implies white_space(#[trigger] tail[i]) by {
            assert(tail[i] == blanks[i + 1]);
        }
        lemma_leading_blank(tail, rest);
        assert((blanks + rest).drop_first() =~= tail + rest);
        assert((blanks + rest)[0] == blanks[0]);
    } else {
        assert(blanks + rest =~= rest);
    }
}

/// What follows `cd` and the blanks behind it tells whether the argument is quoted, and whether it
/// is one that is left to the shell: a `-`, or a `~` behind a backslash.
pub proof fn law_argument_starts_behind_the_blanks(blanks: Seq<char>, argument: Seq<char>)
    requires
        blank(blanks),
        argument.len() == 0 || !white_space(argument[0]),
    ensures
        argument_is_quoted(seq!['c', 'd'] + blanks + argument) <==> argument.len() > 0 && (
        argument[0] == '\'' || argument[0] == '"'),
        argument_is_special(seq!['c', 'd'] + blanks + argument) <==> argument == seq!['-'] || (
        argument.len() >= 2 && argument[0] == '\\' && argument[1] == '~'),
{
    let all = seq!['c', 'd'] + blanks + argument;
    lemma_leading_blank(blanks, argument);
    assert(all.skip(2) =~= blanks + argument);
    assert(all.subrange(0, 2) =~= seq!['c', 'd']);
    assert(seq!['c', 'd'].is_prefix_of(all));
    if argument.len() >= 2 && argument[0] == '\\' && argument[1] == '~' {
        assert(argument.subrange(0, 2) =~= seq!['\\', '~']);
    }
    if seq!['\\', '~'].is_prefix_of(argument) {
        let head = argument.subrange(0, 2);
        assert(head[0] == '\\' && head[1] == '~');
    }
}

/// A text that does not start with `cd` has no argument, quoted or other.
pub proof fn law_other_commands_have_no_argument(trimmed: Seq<char>)
    requires
        trimmed.len() < 2 || trimmed[0] != 'c' || trimmed[1] != 'd',
    ensures
        !argument_is_quoted(trimmed),
        !argument_is_special(trimmed),
{
    if seq!['c', 'd'].is_prefix_of(trimmed) {
        let head = trimmed.subrange(0, 2);
        assert(head[0] == 'c' && head[1] == 'd');
    }
}

/// A command is left to the shell where it is not about the word `cd`, holds something that the
/// shell does more with, or has an argument that only the shell knows; and nowhere else.
pub proof fn law_what_is_left_to_the_shell(trimmed: Seq<char>)
    ensures
        !is_cd_word(trimmed) ==> left_to_shell(trimmed),
        has_metachar(trimmed) ==> left_to_shell(trimmed),
        argument_is_special(trimmed) ==> left_to_shell(trimmed),
        is_cd_word(trimmed) && !has_metachar(trimmed) && !argument_is_special(trimmed)
            ==> !left_to_shell(trimmed),
{
}

/// A directory is looked up as it is where it is absolute, and else below the current one. What
/// comes of it is the path that the file system gives for a directory, and else an error that names
/// the path and, where the file system gives one, the reason.
pub proof fn law_directory_is_looked_up(
    target: Seq<char>,
    cwd: Seq<char>,
    found: CanonicalPathView,
    error: Seq<char>,
)
    ensures
        target.len() > 0 && target[0] == '/' ==> target_path(target, cwd) == target,
        (target.len() == 0 || target[0] != '/') && cwd.len() > 0 && cwd.last() != '/'
            ==> target_path(target, cwd) == cwd + seq!['/'] + target,
        (target.len() == 0 || target[0] != '/') && cwd.len() > 0 && cwd.last() == '/'
            ==> target_path(target, cwd) == cwd + target,
        found.is_dir ==> resolution(target, cwd, Ok(found)) == Ok::<Seq<char>, Seq<char>>(
            found.path,
        ),
        !found.is_dir ==> resolution(target, cwd, Ok(found)) == Err::<Seq<char>, Seq<char>>(
            "cd: not a directory: "@ + found.path,
        ),
        resolution(target, cwd, Err(error)) == Err::<Seq<char>, Seq<char>>(
            "cd: failed to resolve "@ + target_path(target, cwd) + ": "@ + error,
        ),
{
    if cwd.len() > 0 {
        assert(cwd.push('/') =~= cwd + seq!['/']);
    }
}

} // verus!
