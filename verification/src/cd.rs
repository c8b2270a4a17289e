//! The shell command `cd`, where it is simple enough to be carried out without a shell.
//!
//! A command is read as a change of directory only where a shell would do nothing else with it:
//! no expansion, no second command, no option. Everything else is left to the shell.
use crate::path_text::{absolute, is_absolute, join, joined};
use crate::text::{chars_of, same_text, skip_chars, starts_with, trim_start, trimmed_start};
use vstd::prelude::*;
use vstd::string::{StrSliceExecFns, StringExecFns};

verus! {

/// What a shell command asks of the working directory.
#[derive(Debug, PartialEq, Eq)]
pub enum ShellCd {
    /// The command is for the shell.
    NotCd,
    /// The working directory becomes this path.
    ChangeTo(String),
    /// The command is a `cd` that cannot be carried out, for this reason.
    Invalid(String),
}

/// [`ShellCd`], with its texts as sequences of characters.
pub ghost enum CdMeaning {
    NotCd,
    ChangeTo(Seq<char>),
    Invalid(Seq<char>),
}

impl DeepView for ShellCd {
    type V = CdMeaning;

    open spec fn deep_view(&self) -> CdMeaning {
        match self {
            ShellCd::NotCd => CdMeaning::NotCd,
            ShellCd::ChangeTo(path) => CdMeaning::ChangeTo(path@),
            ShellCd::Invalid(message) => CdMeaning::Invalid(message@),
        }
    }
}

/// The words that `shlex::split` makes of a command, or nothing where it finds a quote that is
/// not closed or an escape that escapes nothing.
pub uninterp spec fn shell_words(command: Seq<char>) -> Option<Seq<Seq<char>>>;

/// `shlex::split`: the words of a command, as a POSIX shell would split it. The words depend on
/// the command alone; [`shell_words`] names them.
#[verifier::external_body]
fn split_words(command: &str) -> (words: Option<Vec<String>>)
    ensures
        words.deep_view() == shell_words(command@),
{
    shlex::split(command)
}

/// Where a scan of a command stands: inside which quotes, and whether right behind a backslash
/// that takes the next character literally.
#[derive(Clone, Copy, PartialEq, Eq, Structural)]
pub struct QuoteState {
    pub single: bool,
    pub double: bool,
    pub escape: bool,
}

impl QuoteState {
    /// The state behind `c`.
    pub open spec fn after(self, c: char) -> QuoteState {
        if self.escape {
            QuoteState { escape: false, ..self }
        } else if c == '\\' && !self.single {
            QuoteState { escape: true, ..self }
        } else if c == '\'' && !self.double {
            QuoteState { single: !self.single, ..self }
        } else if c == '"' && !self.single {
            QuoteState { double: !self.double, ..self }
        } else {
            self
        }
    }

    /// Whether the shell gives `c` a meaning of its own in this state.
    pub open spec fn activates(self, c: char) -> bool {
        &&& !self.escape
        &&& !self.single
        &&& expands(c) || !self.double && separates(c)
    }
}

/// The characters that start an expansion, also between double quotes.
pub open spec fn expands(c: char) -> bool {
    c == '$' || c == '`'
}

/// The characters that end a command, redirect it, group it or match file names.
pub open spec fn separates(c: char) -> bool {
    ||| c == '&'
    ||| c == '|'
    ||| c == ';'
    ||| c == '<'
    ||| c == '>'
    ||| c == '('
    ||| c == ')'
    ||| c == '*'
    ||| c == '?'
    ||| c == '['
    ||| c == ']'
    ||| c == '{'
    ||| c == '}'
    ||| c == '\n'
}

/// The state of a scan that has read `s`.
pub open spec fn quote_state(s: Seq<char>) -> QuoteState
    decreases s.len(),
{
    if s.len() == 0 {
        QuoteState { single: false, double: false, escape: false }
    } else {
        quote_state(s.drop_last()).after(s.last())
    }
}

/// Whether the shell gives a meaning of its own to some character of `s`.
pub open spec fn has_metachar(s: Seq<char>) -> bool {
    exists|i: int| 0 <= i < s.len() && quote_state(s.take(i)).activates(#[trigger] s[i])
}

/// Whether `trimmed` is the word `cd`, alone or with a blank behind it.
pub open spec fn is_cd_word(trimmed: Seq<char>) -> bool {
    ||| trimmed == seq!['c', 'd']
    ||| seq!['c', 'd', ' '].is_prefix_of(trimmed)
    ||| seq!['c', 'd', '\t'].is_prefix_of(trimmed)
}

/// What stands behind the `cd` that `trimmed` starts with, from its first character that is no
/// white space.
pub open spec fn cd_argument(trimmed: Seq<char>) -> Option<Seq<char>> {
    if seq!['c', 'd'].is_prefix_of(trimmed) {
        Some(trimmed_start(trimmed.skip(2)))
    } else {
        None
    }
}

/// Whether the argument of `cd` starts with a quote.
pub open spec fn argument_is_quoted(trimmed: Seq<char>) -> bool {
    match cd_argument(trimmed) {
        Some(argument) => argument.len() > 0 && (argument[0] == '\'' || argument[0] == '"'),
        None => false,
    }
}

/// Whether the argument of `cd` is `-` or starts with an escaped `~`.
pub open spec fn argument_is_special(trimmed: Seq<char>) -> bool {
    match cd_argument(trimmed) {
        Some(argument) => argument == seq!['-'] || seq!['\\', '~'].is_prefix_of(argument),
        None => false,
    }
}

/// `path` with a leading `~` replaced by the home directory, where there is one.
pub open spec fn expanded_home(path: Seq<char>, home: Option<Seq<char>>) -> Seq<char> {
    match home {
        Some(home) => if path == seq!['~'] {
            home
        } else if seq!['~', '/'].is_prefix_of(path) {
            joined(home, path.skip(2))
        } else {
            path
        },
        None => path,
    }
}

/// What the words of a `cd` command ask for. `trimmed` is the command itself, which tells
/// whether the argument was quoted.
pub open spec fn words_meaning(
    trimmed: Seq<char>,
    words: Option<Seq<Seq<char>>>,
    home: Option<Seq<char>>,
) -> CdMeaning {
    match words {
        None => CdMeaning::Invalid("cd: could not parse quoted path"@),
        Some(words) => if words.len() == 0 || words[0] != seq!['c', 'd'] || words.len() > 2 {
            CdMeaning::NotCd
        } else if words.len() == 1 {
            match home {
                Some(home) => CdMeaning::ChangeTo(home),
                None => CdMeaning::Invalid("cd: HOME is not set"@),
            }
        } else {
            let path = words[1];
            if seq!['-'].is_prefix_of(path) {
                CdMeaning::NotCd
            } else if seq!['~'].is_prefix_of(path) && path != seq!['~'] && !seq![
                '~',
                '/',
            ].is_prefix_of(path) {
                CdMeaning::NotCd
            } else if argument_is_quoted(trimmed) {
                CdMeaning::ChangeTo(path)
            } else {
                CdMeaning::ChangeTo(expanded_home(path, home))
            }
        },
    }
}

/// Whether a command, without its leading white space, is left to the shell whatever its words
/// are.
pub open spec fn left_to_shell(trimmed: Seq<char>) -> bool {
    !is_cd_word(trimmed) || has_metachar(trimmed) || argument_is_special(trimmed)
}

/// What a command asks for, given its words.
pub open spec fn cd_meaning(
    command: Seq<char>,
    words: Option<Seq<Seq<char>>>,
    home: Option<Seq<char>>,
) -> CdMeaning {
    let trimmed = trimmed_start(command);
    if left_to_shell(trimmed) {
        CdMeaning::NotCd
    } else {
        words_meaning(trimmed, words, home)
    }
}

proof fn lemma_literals()
    ensures
        "cd"@ == seq!['c', 'd'],
        "cd "@ == seq!['c', 'd', ' '],
        "cd\t"@ == seq!['c', 'd', '\t'],
        "-"@ == seq!['-'],
        "\\~"@ == seq!['\\', '~'],
        "~"@ == seq!['~'],
        "~/"@ == seq!['~', '/'],
{
    reveal_strlit("cd");
    reveal_strlit("cd ");
    reveal_strlit("cd\t");
    reveal_strlit("-");
    reveal_strlit("\\~");
    reveal_strlit("~");
    reveal_strlit("~/");
}

/// Whether the shell gives a meaning of its own to some character of `command`.
pub fn has_unquoted_shell_metachar(command: &str) -> (result: bool)
    ensures
        result == has_metachar(command@),
{
    let chars = chars_of(command);
    let mut state = QuoteState { single: false, double: false, escape: false };
    let mut i: usize = 0;
    while i < chars.len()
        invariant
            i <= chars@.len(),
            chars@ == command@,
            state == quote_state(chars@.take(i as int)),
            forall|j: int|
                0 <= j < i ==> !quote_state(chars@.take(j)).activates(#[trigger] chars@[j]),
        decreases chars@.len() - i,
    {
        let c = chars[i];
        assert(chars@.take(i + 1).drop_last() == chars@.take(i as int));
        if state.escape {
            state.escape = false;
        } else if c == '\\' && !state.single {
            state.escape = true;
        } else if c == '\'' && !state.double {
            state.single = !state.single;
        } else if c == '"' && !state.single {
            state.double = !state.double;
        } else if (c == '$' || c == '`') && !state.single {
            return true;
        } else if (c == '&' || c == '|' || c == ';' || c == '<' || c == '>' || c == '(' || c == ')'
            || c == '*' || c == '?' || c == '[' || c == ']' || c == '{' || c == '}' || c == '\n')
            && !state.single && !state.double {
            return true;
        }
        i = i + 1;
    }
    false
}

/// What stands behind the `cd` that `command` starts with.
fn cd_arg<'a>(command: &'a str) -> (argument: Option<&'a str>)
    ensures
        argument.deep_view() == cd_argument(command@),
{
    proof {
        lemma_literals();
    }
    if starts_with(command, "cd") {
        Some(trim_start(skip_chars(command, 2)))
    } else {
        None
    }
}

/// Whether the argument of `cd` starts with a quote.
pub fn cd_arg_is_quoted(command: &str) -> (result: bool)
    ensures
        result == argument_is_quoted(command@),
{
    match cd_arg(command) {
        Some(argument) => {
            if argument.unicode_len() == 0 {
                return false;
            }
            let first = argument.get_char(0);
            first == '\'' || first == '"'
        },
        None => false,
    }
}

/// Whether the argument of `cd` is `-` or starts with an escaped `~`.
pub fn cd_arg_is_unsupported_special(command: &str) -> (result: bool)
    ensures
        result == argument_is_special(command@),
{
    proof {
        lemma_literals();
    }
    match cd_arg(command) {
        Some(argument) => same_text(argument, "-") || starts_with(argument, "\\~"),
        None => false,
    }
}

/// `path` with a leading `~` replaced by the home directory, where there is one.
pub fn expand_home(path: &str, home: Option<&str>) -> (expanded: String)
    ensures
        expanded@ == expanded_home(path@, home.deep_view()),
{
    proof {
        lemma_literals();
    }
    match home {
        Some(home) => {
            if same_text(path, "~") {
                home.to_owned()
            } else if starts_with(path, "~/") {
                join(home, skip_chars(path, 2))
            } else {
                path.to_owned()
            }
        },
        None => path.to_owned(),
    }
}

/// What the words of a `cd` command ask for; `trimmed` is the command without its leading white
/// space.
pub fn interpret_words(trimmed: &str, words: Option<Vec<String>>, home: Option<&str>) -> (meaning:
    ShellCd)
    ensures
        meaning.deep_view() == words_meaning(trimmed@, words.deep_view(), home.deep_view()),
{
    proof {
        lemma_literals();
    }
    let words = match words {
        Some(words) => words,
        None => {
            return ShellCd::Invalid("cd: could not parse quoted path".to_owned());
        },
    };
    if words.len() == 0 || !same_text(words[0].as_str(), "cd") || words.len() > 2 {
        return ShellCd::NotCd;
    }
    if words.len() == 1 {
        return match home {
            Some(home) => ShellCd::ChangeTo(home.to_owned()),
            None => ShellCd::Invalid("cd: HOME is not set".to_owned()),
        };
    }
    let path = words[1].as_str();
    if starts_with(path, "-") {
        ShellCd::NotCd
    } else if starts_with(path, "~") && !same_text(path, "~") && !starts_with(path, "~/") {
        ShellCd::NotCd
    } else if cd_arg_is_quoted(trimmed) {
        ShellCd::ChangeTo(path.to_owned())
    } else {
        ShellCd::ChangeTo(expand_home(path, home))
    }
}

/// Reads a command as a change of directory. `home` is the home directory that `~` and a bare
/// `cd` mean.
pub fn parse_with_home(command: &str, home: Option<&str>) -> (meaning: ShellCd)
    ensures
        meaning.deep_view() == cd_meaning(command@, shell_words(command@), home.deep_view()),
{
    proof {
        lemma_literals();
    }
    let trimmed = trim_start(command);
    if !same_text(trimmed, "cd") && !starts_with(trimmed, "cd ") && !starts_with(trimmed, "cd\t") {
        return ShellCd::NotCd;
    }
    if has_unquoted_shell_metachar(trimmed) {
        return ShellCd::NotCd;
    }
    if cd_arg_is_unsupported_special(trimmed) {
        return ShellCd::NotCd;
    }
    interpret_words(trimmed, split_words(command), home)
}

/// The path that a change to `target` leads to from `cwd`, before the file system is asked.
pub open spec fn target_path(target: Seq<char>, cwd: Seq<char>) -> Seq<char> {
    if absolute(target) {
        target
    } else {
        joined(cwd, target)
    }
}

/// The path that a change to `target` leads to from `cwd`: the one to ask the file system for.
pub fn path_to_resolve(target: &str, cwd: &str) -> (path: String)
    ensures
        path@ == target_path(target@, cwd@),
{
    if is_absolute(target) {
        target.to_owned()
    } else {
        join(cwd, target)
    }
}

/// What the file system says of a path that exists.
#[derive(Debug, PartialEq, Eq)]
pub struct CanonicalPath {
    /// The path with every link followed.
    pub path: String,
    pub is_dir: bool,
}

/// What a [`CanonicalPath`] means.
#[verifier::ext_equal]
pub ghost struct CanonicalPathView {
    pub path: Seq<char>,
    pub is_dir: bool,
}

impl DeepView for CanonicalPath {
    type V = CanonicalPathView;

    open spec fn deep_view(&self) -> CanonicalPathView {
        CanonicalPathView { path: self.path@, is_dir: self.is_dir }
    }
}

/// The directory that a change to `target` from `cwd` ends in, or why there is none; `canonical`
/// is what the file system says of [`target_path`], or the text of the error.
pub open spec fn resolution(
    target: Seq<char>,
    cwd: Seq<char>,
    canonical: Result<CanonicalPathView, Seq<char>>,
) -> Result<Seq<char>, Seq<char>> {
    match canonical {
        Err(error) => Err(
            "cd: failed to resolve "@ + target_path(target, cwd) + ": "@ + error,
        ),
        Ok(found) => if found.is_dir {
            Ok(found.path)
        } else {
            Err("cd: not a directory: "@ + found.path)
        },
    }
}

/// The directory that a change to `target` from `cwd` ends in, or why there is none.
///
/// `canonical` is what the file system says of [`path_to_resolve`]: its canonical form, or the
/// text of the error.
pub fn resolve(target: &str, cwd: &str, canonical: Result<CanonicalPath, String>) -> (resolved:
    Result<String, String>)
    ensures
        (match resolved {
            Ok(path) => Ok::<Seq<char>, Seq<char>>(path@),
            Err(message) => Err(message@),
        }) == resolution(
            target@,
            cwd@,
            match canonical {
                Ok(found) => Ok(found.deep_view()),
                Err(error) => Err(error@),
            },
        ),
{
    match canonical {
        Err(error) => {
            let path = path_to_resolve(target, cwd);
            Err(
                "cd: failed to resolve ".to_owned().concat(path.as_str()).concat(": ").concat(
                    error.as_str(),
                ),
            )
        },
        Ok(found) => {
            if found.is_dir {
                Ok(found.path)
            } else {
                Err("cd: not a directory: ".to_owned().concat(found.path.as_str()))
            }
        },
    }
}

/// A command in which the shell gives some character a meaning of its own is for the shell,
/// whatever its words are.
pub proof fn law_metachar_is_left_to_the_shell(
    command: Seq<char>,
    words: Option<Seq<Seq<char>>>,
    home: Option<Seq<char>>,
)
    requires
        has_metachar(trimmed_start(command)),
    ensures
        cd_meaning(command, words, home) == CdMeaning::NotCd,
{
}

/// Such a character keeps its meaning whatever is written behind it.
pub proof fn law_metachar_stays(s: Seq<char>, more: Seq<char>)
    requires
        has_metachar(s),
    ensures
        has_metachar(s + more),
{
    let i = choose|i: int| 0 <= i < s.len() && quote_state(s.take(i)).activates(#[trigger] s[i]);
    let all = s + more;
    assert(all.take(i) =~= s.take(i));
    assert(quote_state(all.take(i)).activates(all[i]));
}

/// Only a command that starts with the word `cd`, with at most one argument, changes the
/// directory.
pub proof fn law_only_cd_changes_the_directory(
    command: Seq<char>,
    words: Option<Seq<Seq<char>>>,
    home: Option<Seq<char>>,
)
    requires
        cd_meaning(command, words, home) is ChangeTo,
    ensures
        is_cd_word(trimmed_start(command)),
        words matches Some(words) && 1 <= words.len() <= 2 && words[0] == seq!['c', 'd'],
{
}

/// A quoted argument is taken as it is: a `~` in it is not the home directory.
pub proof fn law_quoted_argument_is_literal(
    command: Seq<char>,
    words: Option<Seq<Seq<char>>>,
    home: Option<Seq<char>>,
)
    requires
        argument_is_quoted(trimmed_start(command)),
        words matches Some(words) && words.len() == 2,
        cd_meaning(command, words, home) is ChangeTo,
    ensures
        cd_meaning(command, words, home) == CdMeaning::ChangeTo((words->0)[1]),
{
}

/// Where there is no home directory, a bare `cd` is refused, and no other `cd` is.
pub proof fn law_only_a_bare_cd_needs_a_home(
    command: Seq<char>,
    words: Seq<Seq<char>>,
    home: Option<Seq<char>>,
)
    ensures
        cd_meaning(command, Some(words), home) is Invalid <==> {
            &&& !left_to_shell(trimmed_start(command))
            &&& words == seq![seq!['c', 'd']]
            &&& home is None
        },
{
    if words.len() == 1 && words[0] == seq!['c', 'd'] {
        assert(words =~= seq![seq!['c', 'd']]);
    }
}

/// A directory that was resolved is resolved to itself, from whatever directory, where the file
/// system gave an absolute path for it and says the same of it again.
pub proof fn law_resolved_directory_resolves_to_itself(
    target: Seq<char>,
    cwd: Seq<char>,
    found: CanonicalPathView,
    other_cwd: Seq<char>,
)
    requires
        absolute(found.path),
        resolution(target, cwd, Ok(found)) is Ok,
    ensures
        resolution(target, cwd, Ok(found)) == Ok::<Seq<char>, Seq<char>>(found.path),
        target_path(found.path, other_cwd) == found.path,
        resolution(found.path, other_cwd, Ok(found)) == Ok::<Seq<char>, Seq<char>>(found.path),
{
}

} // verus!
