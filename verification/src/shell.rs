//! The shell state: one input line and the search path, with the
//! quote-aware tokenizer that turns the line into a command and its
//! arguments, and the resolver that walks the search path in order.

use vstd::prelude::*;
use vstd::string::{StrSliceExecFns, StringExecFns};

use crate::command::RCommand;
use crate::text::{
    chars_to_string, is_shell_whitespace, is_whitespace_char, seq_views, trim, trim_spec,
};

verus! {

/// The tokenizer's accumulator: the arguments flushed so far, the
/// characters of the argument still being built, and whether the scan
/// currently stands inside a quoted run.
pub struct TokState {
    pub args: Seq<Seq<char>>,
    pub buf: Seq<char>,
    pub quote_open: bool,
}

pub open spec fn tok_init() -> TokState {
    TokState { args: Seq::empty(), buf: Seq::empty(), quote_open: false }
}

/// Flushing: a non-empty buffer becomes one completed argument; an
/// empty buffer yields nothing, so no empty argument is ever produced.
pub open spec fn tok_flush(st: TokState) -> TokState {
    if st.buf.len() > 0 {
        TokState { args: st.args.push(st.buf), buf: Seq::empty(), quote_open: st.quote_open }
    } else {
        st
    }
}

/// One step of the tokenizer. A quote character (`"` or `'`) toggles the
/// quote flag and, on the closing edge, flushes the buffer: quotes are
/// consumed as delimiters, never kept as content. An unquoted space
/// separates arguments; a quoted space is kept verbatim. Every other
/// character is appended to the buffer.
pub open spec fn tok_step(st: TokState, c: char) -> TokState {
    if c == '"' || c == '\'' {
        let f = if st.quote_open {
            tok_flush(st)
        } else {
            st
        };
        TokState { args: f.args, buf: f.buf, quote_open: !st.quote_open }
    } else if c == ' ' && !st.quote_open {
        tok_flush(st)
    } else {
        TokState { args: st.args, buf: st.buf.push(c), quote_open: st.quote_open }
    }
}

pub open spec fn tok_run(st: TokState, s: Seq<char>) -> TokState
    decreases s.len(),
{
    if s.len() == 0 {
        st
    } else {
        tok_run(tok_step(st, s[0]), s.drop_first())
    }
}

/// What tokenizing an argument string yields. An unmatched quote is no
/// error: the flag simply stays open and the rest of the input joins one
/// final argument, flushed at the end like any other.
pub open spec fn tokenize_spec(s: Seq<char>) -> Seq<Seq<char>> {
    tok_flush(tok_run(tok_init(), s)).args
}

proof fn lemma_tok_run_args_nonempty(st: TokState, s: Seq<char>)
    requires
        forall|j: int| 0 <= j < st.args.len() ==> #[trigger] st.args[j].len() > 0,
    ensures
        forall|j: int|
            0 <= j < tok_run(st, s).args.len() ==> #[trigger] tok_run(st, s).args[j].len() > 0,
    decreases s.len(),
{
    if s.len() > 0 {
        let st1 = tok_step(st, s[0]);
        assert(forall|j: int| 0 <= j < st1.args.len() ==> #[trigger] st1.args[j].len() > 0);
        lemma_tok_run_args_nonempty(st1, s.drop_first());
        assert(tok_run(st, s) == tok_run(st1, s.drop_first()));
    } else {
        assert(tok_run(st, s) == st);
    }
}

/// Law: the tokenizer never yields an empty argument. Runs of unquoted
/// spaces collapse, and adjacent quote characters with nothing between
/// them produce no argument at all.
pub proof fn lemma_tokenize_no_empty_token(s: Seq<char>, i: int)
    requires
        0 <= i < tokenize_spec(s).len(),
    ensures
        tokenize_spec(s)[i].len() > 0,
{
    lemma_tok_run_args_nonempty(tok_init(), s);
}

/// On the closing edge of a quoted run (the flag was open before the
/// toggle), flushes the accumulated buffer as one completed argument.
pub fn argument_quotation_helper(
    args: &mut Vec<String>,
    quote_is_open: bool,
    next_argument: &mut Vec<char>,
)
    ensures
        quote_is_open && old(next_argument)@.len() > 0 ==> seq_views(final(args)@)
            == seq_views(old(args)@).push(old(next_argument)@)
            && final(next_argument)@ == Seq::<char>::empty(),
        !(quote_is_open && old(next_argument)@.len() > 0) ==> final(args)@ == old(args)@
            && final(next_argument)@ == old(next_argument)@,
{
    if quote_is_open {
        if next_argument.len() > 0 {
            let t = chars_to_string(next_argument);
            let ghost old_views = seq_views(args@);
            args.push(t);
            next_argument.clear();
            proof {
                assert(seq_views(args@) =~= old_views.push(t@));
            }
        }
    }
}

/// Tokenizes one argument string with a single left-to-right scan, as
/// `tokenize_spec` describes.
#[verifier::loop_isolation(false)]
pub fn split_argument(arguments: &str) -> (args: Vec<String>)
    ensures
        seq_views(args@) == tokenize_spec(arguments@),
{
    let n = arguments.unicode_len();
    let mut args: Vec<String> = Vec::new();
    let mut next_argument: Vec<char> = Vec::new();
    let mut quote_is_open: bool = false;
    proof {
        assert(seq_views(args@) =~= Seq::<Seq<char>>::empty());
        assert(arguments@.skip(0) =~= arguments@);
    }
    let mut i: usize = 0;
    while i < n
        invariant
            0 <= i <= n,
            tok_run(
                TokState {
                    args: seq_views(args@),
                    buf: next_argument@,
                    quote_open: quote_is_open,
                },
                arguments@.skip(i as int),
            ) == tok_run(tok_init(), arguments@),
        decreases n - i,
    {
        let ghost st0 = TokState {
            args: seq_views(args@),
            buf: next_argument@,
            quote_open: quote_is_open,
        };
        let c = arguments.get_char(i);
        proof {
            assert(arguments@.skip(i as int)[0] == c);
            assert(arguments@.skip(i as int).drop_first() =~= arguments@.skip(i as int + 1));
        }
        if c == '"' || c == '\'' {
            argument_quotation_helper(&mut args, quote_is_open, &mut next_argument);
            quote_is_open = !quote_is_open;
        } else if c == ' ' && !quote_is_open {
            if next_argument.len() > 0 {
                let t = chars_to_string(&next_argument);
                let ghost old_views = seq_views(args@);
                args.push(t);
                next_argument.clear();
                proof {
                    assert(seq_views(args@) =~= old_views.push(st0.buf));
                }
            }
        } else {
            next_argument.push(c);
        }
        proof {
            let st1 = TokState {
                args: seq_views(args@),
                buf: next_argument@,
                quote_open: quote_is_open,
            };
            assert(st1 == tok_step(st0, c));
        }
        i = i + 1;
    }
    proof {
        assert(arguments@.skip(n as int) =~= Seq::<char>::empty());
    }
    if next_argument.len() > 0 {
        let t = chars_to_string(&next_argument);
        let ghost old_views = seq_views(args@);
        args.push(t);
        proof {
            assert(seq_views(args@) =~= old_views.push(t@));
        }
    }
    args
}

/// The index of the first whitespace character, or the length if there
/// is none: where the command name ends.
pub open spec fn ws_split_index(t: Seq<char>) -> int
    decreases t.len(),
{
    if t.len() == 0 {
        0
    } else if is_shell_whitespace(t[0]) {
        0
    } else {
        1 + ws_split_index(t.drop_first())
    }
}

proof fn lemma_ws_split_index_at(t: Seq<char>, i: int)
    requires
        0 <= i <= t.len(),
        forall|k: int| 0 <= k < i ==> !is_shell_whitespace(t[k]),
        i < t.len() ==> is_shell_whitespace(t[i]),
    ensures
        ws_split_index(t) == i,
    decreases i,
{
    if i > 0 {
        lemma_ws_split_index_at(t.drop_first(), i - 1);
    }
}

proof fn lemma_ws_split_index_bounds(t: Seq<char>)
    ensures
        0 <= ws_split_index(t) <= t.len(),
    decreases t.len(),
{
    if t.len() > 0 && !is_shell_whitespace(t[0]) {
        lemma_ws_split_index_bounds(t.drop_first());
    }
}

/// The command name taken from an input line: the trimmed line up to
/// its first whitespace character.
pub open spec fn command_name_spec(input: Seq<char>) -> Seq<char> {
    let t = trim_spec(input);
    t.take(ws_split_index(t))
}

/// Law: an input line that is not all whitespace always parses to a
/// command with a non-empty name; an empty name arises only from an
/// empty (or all-whitespace) line.
pub proof fn lemma_nonempty_input_has_a_name(input: Seq<char>)
    requires
        trim_spec(input).len() > 0,
    ensures
        command_name_spec(input).len() > 0,
{
    let t = trim_spec(input);
    crate::text::lemma_trim_first_not_ws(input);
    lemma_ws_split_index_bounds(t.drop_first());
    lemma_ws_split_index_bounds(t);
    assert(ws_split_index(t) >= 1);
}

/// The argument text taken from an input line: what follows the first
/// whitespace character of the trimmed line, itself trimmed; empty when
/// the line holds no whitespace at all.
pub open spec fn command_args_text_spec(input: Seq<char>) -> Seq<char> {
    let t = trim_spec(input);
    let i = ws_split_index(t);
    if i < t.len() {
        trim_spec(t.skip(i + 1))
    } else {
        Seq::empty()
    }
}

/// The colon-split of a search-path value: the segments between colons,
/// in order, kept even when empty.
pub open spec fn colon_run(acc: Seq<Seq<char>>, cur: Seq<char>, s: Seq<char>) -> Seq<Seq<char>>
    decreases s.len(),
{
    if s.len() == 0 {
        acc.push(cur)
    } else if s[0] == ':' {
        colon_run(acc.push(cur), Seq::empty(), s.drop_first())
    } else {
        colon_run(acc, cur.push(s[0]), s.drop_first())
    }
}

pub open spec fn split_paths_spec(s: Seq<char>) -> Seq<Seq<char>> {
    colon_run(Seq::empty(), Seq::empty(), s)
}

/// Splits a colon-separated search-path value into its directories.
#[verifier::loop_isolation(false)]
pub fn read_commands(paths: String) -> (r: Vec<String>)
    ensures
        seq_views(r@) == split_paths_spec(paths@),
{
    let s = paths.as_str();
    let n = s.unicode_len();
    let mut dirs: Vec<String> = Vec::new();
    let mut cur: Vec<char> = Vec::new();
    proof {
        assert(seq_views(dirs@) =~= Seq::<Seq<char>>::empty());
        assert(s@.skip(0) =~= s@);
    }
    let mut i: usize = 0;
    while i < n
        invariant
            0 <= i <= n,
            colon_run(seq_views(dirs@), cur@, s@.skip(i as int)) == split_paths_spec(paths@),
        decreases n - i,
    {
        let c = s.get_char(i);
        proof {
            assert(s@.skip(i as int)[0] == c);
            assert(s@.skip(i as int).drop_first() =~= s@.skip(i as int + 1));
        }
        if c == ':' {
            let t = chars_to_string(&cur);
            let ghost old_views = seq_views(dirs@);
            dirs.push(t);
            cur.clear();
            proof {
                assert(seq_views(dirs@) =~= old_views.push(t@));
            }
        } else {
            cur.push(c);
        }
        i = i + 1;
    }
    proof {
        assert(s@.skip(n as int) =~= Seq::<char>::empty());
    }
    let t = chars_to_string(&cur);
    let ghost old_views = seq_views(dirs@);
    dirs.push(t);
    proof {
        assert(seq_views(dirs@) =~= old_views.push(t@));
    }
    dirs
}

/// The full path tried for a command inside one search-path directory:
/// the directory, the path separator, and the name. On this POSIX-style
/// target the separator is `/` and commands carry no suffix.
pub open spec fn candidate_spec(dir: Seq<char>, name: Seq<char>) -> Seq<char> {
    dir + seq!['/'] + name
}

pub fn candidate_path(dir: &String, name: &String) -> (r: String)
    ensures
        r@ == candidate_spec(dir@, name@),
{
    let mut r = dir.clone();
    r.append("/");
    r.append(name.as_str());
    proof {
        reveal_strlit("/");
        assert(dir@ + "/"@ + name@ =~= candidate_spec(dir@, name@));
    }
    r
}

/// The shell's process-wide state: the input line most recently read,
/// and the search path derived once at startup.
pub struct Shell {
    pub input: String,
    pub path_env: Vec<String>,
}

impl Shell {
    /// Builds the shell from the value of the search-path environment
    /// variable, when the environment holds one.
    pub fn new(path_var: Option<String>) -> (r: Shell)
        ensures
            r.input@ == Seq::<char>::empty(),
            path_var matches Some(p) ==> seq_views(r.path_env@) == split_paths_spec(p@),
            path_var is None ==> r.path_env@ == Seq::<String>::empty(),
    {
        match path_var {
            Some(p) => Shell { input: String::new(), path_env: read_commands(p) },
            None => Shell { input: String::new(), path_env: Vec::new() },
        }
    }

    /// Replaces the stored input line with the one just read.
    pub fn set_input(&mut self, line: String)
        ensures
            final(self).input == line,
            final(self).path_env == old(self).path_env,
    {
        self.input = line;
    }

    /// Parses the stored input line into a command: the trimmed line up
    /// to the first whitespace character names the command, and the rest
    /// is tokenized into arguments. Every line parses; an empty line
    /// yields a command with an empty name.
    #[verifier::loop_isolation(false)]
    pub fn parse_input(&self) -> (r: Option<RCommand>)
        ensures
            r matches Some(c) && c.command@ == command_name_spec(self.input@) && seq_views(
                c.args@,
            ) == tokenize_spec(command_args_text_spec(self.input@)),
    {
        let trimmed = trim(self.input.as_str());
        let t = trimmed.as_str();
        let tn = t.unicode_len();
        let mut i: usize = 0;
        while i < tn && !is_whitespace_char(t.get_char(i))
            invariant
                0 <= i <= tn,
                forall|k: int| 0 <= k < i ==> !is_shell_whitespace(t@[k]),
            decreases tn - i,
        {
            i = i + 1;
        }
        proof {
            lemma_ws_split_index_at(t@, i as int);
            assert(t@.subrange(0, i as int) =~= t@.take(i as int));
        }
        let command = String::from_str(t.substring_char(0, i));
        let args_text = if i < tn {
            proof {
                assert(t@.subrange(i as int + 1, tn as int) =~= t@.skip(i as int + 1));
            }
            trim(t.substring_char(i + 1, tn))
        } else {
            String::new()
        };
        let args = split_argument(args_text.as_str());
        Some(RCommand { command, args })
    }

    /// Walks the search path in order, handed for each directory whether
    /// the candidate path exists on disk, and returns the first candidate
    /// that does. An existence check is all that is asked: not whether
    /// the entry is executable, nor what kind of entry it is.
    #[verifier::loop_isolation(false)]
    pub fn has_command(&self, command: &String, dir_has_entry: &Vec<bool>) -> (r: Option<String>)
        requires
            dir_has_entry@.len() == self.path_env@.len(),
        ensures
            match r {
                Some(p) => exists|j: int|
                    0 <= j < self.path_env@.len() && #[trigger] dir_has_entry@[j] && (forall|
                        k: int,
                    |
                        0 <= k < j ==> !dir_has_entry@[k]) && p@ == candidate_spec(
                        self.path_env@[j]@,
                        command@,
                    ),
                None => forall|k: int| 0 <= k < dir_has_entry@.len() ==> !dir_has_entry@[k],
            },
    {
        let n = self.path_env.len();
        let mut i: usize = 0;
        while i < n
            invariant
                0 <= i <= n,
                forall|k: int| 0 <= k < i ==> !dir_has_entry@[k],
            decreases n - i,
        {
            if dir_has_entry[i] {
                let p = candidate_path(&self.path_env[i], command);
                return Some(p);
            }
            i = i + 1;
        }
        None
    }
}

} // verus!
