//! Building the shell process that backs a session, and the small escaping
//! helpers the shell-outs need.
//!
//! The shell kind is enumerated; an unrecognized name falls back to the
//! default kind.  The argument vector and working directory are computed
//! here as plain values; opening the pty device and starting the process
//! happen at the process edge.

use vstd::prelude::*;

use crate::mcp::types::opt_view;

verus! {

/// Which shell backs a session: the default WSL shell or one of the two
/// alternative Windows shells.
#[derive(PartialEq, Eq, Structural, Clone, Copy, Debug)]
pub enum ShellKind {
    Wsl,
    PowerShell,
    Cmd,
}

/// The kind a caller-supplied shell name selects: the two alternative names
/// select their shells, everything else falls back to the default.
pub open spec fn shell_kind_of(s: Seq<char>) -> ShellKind {
    if s == "powershell"@ {
        ShellKind::PowerShell
    } else if s == "cmd"@ {
        ShellKind::Cmd
    } else {
        ShellKind::Wsl
    }
}

impl ShellKind {
    /// Reads a shell name, falling back to the default kind for an
    /// unrecognized value.
    pub fn of_str(s: &str) -> (r: ShellKind)
        ensures
            r == shell_kind_of(s@),
    {
        if crate::text::str_eq(s, "powershell") {
            ShellKind::PowerShell
        } else if crate::text::str_eq(s, "cmd") {
            ShellKind::Cmd
        } else {
            ShellKind::Wsl
        }
    }
}

/// What to start for a session: the program, its argument vector, and the
/// working directory to set, where one is set at all.
pub struct CommandSpec {
    pub program: String,
    pub args: Vec<String>,
    pub cwd: Option<String>,
}

/// The program a shell kind starts.
pub open spec fn shell_program(kind: ShellKind) -> Seq<char> {
    match kind {
        ShellKind::Wsl => "wsl.exe"@,
        ShellKind::PowerShell => "powershell.exe"@,
        ShellKind::Cmd => "cmd.exe"@,
    }
}

/// The argument vector a shell kind starts with: the WSL shell names its
/// distribution where one was selected and always names its starting
/// directory — the caller's, or its own home; the alternative shells take
/// their fixed flags.
pub open spec fn shell_args(
    kind: ShellKind,
    distro: Option<Seq<char>>,
    cwd: Option<Seq<char>>,
) -> Seq<Seq<char>> {
    match kind {
        ShellKind::Wsl => (match distro {
            Some(d) => seq!["-d"@, d],
            None => Seq::empty(),
        }) + seq!["--cd"@, (match cwd {
            Some(c) => c,
            None => "~"@,
        })],
        ShellKind::PowerShell => seq!["-NoLogo"@, "-NoExit"@],
        ShellKind::Cmd => Seq::empty(),
    }
}

/// The working directory a shell kind is started in: the WSL shell carries
/// its directory in its arguments; the others are started in the caller's
/// directory, or the home directory where none was given.
pub open spec fn shell_cwd(
    kind: ShellKind,
    cwd: Option<Seq<char>>,
    home: Seq<char>,
) -> Option<Seq<char>> {
    match kind {
        ShellKind::Wsl => None,
        _ => Some(
            match cwd {
                Some(c) => c,
                None => home,
            },
        ),
    }
}

/// Builds the command that backs a freshly spawned session, from the shell
/// kind, the optional distribution and starting directory, and the home
/// directory that stands in where none was given.
pub fn shell_command(
    kind: ShellKind,
    distro: &Option<String>,
    initial_cwd: &Option<String>,
    home: &str,
) -> (r: CommandSpec)
    ensures
        r.program@ == shell_program(kind),
        r.args.deep_view() == shell_args(kind, opt_view(*distro), opt_view(*initial_cwd)),
        opt_view(r.cwd) == shell_cwd(kind, opt_view(*initial_cwd), home@),
{
    match kind {
        ShellKind::Wsl => {
            let mut args: Vec<String> = Vec::new();
            match distro {
                Some(d) => {
                    args.push(String::from_str("-d"));
                    args.push(d.clone());
                },
                None => {},
            }
            args.push(String::from_str("--cd"));
            match initial_cwd {
                Some(c) => {
                    args.push(c.clone());
                },
                None => {
                    args.push(String::from_str("~"));
                },
            }
            proof {
                assert(args.deep_view() =~= shell_args(
                    kind,
                    opt_view(*distro),
                    opt_view(*initial_cwd),
                ));
            }
            CommandSpec { program: String::from_str("wsl.exe"), args, cwd: None }
        },
        ShellKind::PowerShell => {
            let mut args: Vec<String> = Vec::new();
            args.push(String::from_str("-NoLogo"));
            args.push(String::from_str("-NoExit"));
            let cwd = match initial_cwd {
                Some(c) => c.clone(),
                None => String::from_str(home),
            };
            proof {
                assert(args.deep_view() =~= shell_args(
                    kind,
                    opt_view(*distro),
                    opt_view(*initial_cwd),
                ));
            }
            CommandSpec { program: String::from_str("powershell.exe"), args, cwd: Some(cwd) }
        },
        ShellKind::Cmd => {
            let args: Vec<String> = Vec::new();
            let cwd = match initial_cwd {
                Some(c) => c.clone(),
                None => String::from_str(home),
            };
            proof {
                assert(args.deep_view() =~= shell_args(
                    kind,
                    opt_view(*distro),
                    opt_view(*initial_cwd),
                ));
            }
            CommandSpec { program: String::from_str("cmd.exe"), args, cwd: Some(cwd) }
        },
    }
}

/// How one character stands inside a single-quoted bash string: only the
/// single quote needs escaping, by closing the quote, escaping it and
/// opening again.
pub open spec fn bash_esc_char(c: char) -> Seq<char> {
    if c == '\'' {
        seq!['\'', '\\', '\'', '\'']
    } else {
        seq![c]
    }
}

/// The characters of the text from `i` on, escaped for a single-quoted bash
/// string.
pub open spec fn bash_escaped_from(s: Seq<char>, i: int) -> Seq<char>
    decreases s.len() - i,
{
    if i < 0 || i >= s.len() {
        Seq::empty()
    } else {
        bash_esc_char(s[i]) + bash_escaped_from(s, i + 1)
    }
}

/// The whole text escaped for a single-quoted bash string.
pub open spec fn bash_escaped(s: Seq<char>) -> Seq<char> {
    bash_escaped_from(s, 0)
}

/// Appends the characters of the text from `i` on, bash-escaped.
fn push_bash_escaped_from(out: &mut Vec<char>, s: &str, i: usize)
    requires
        i <= s@.len(),
    ensures
        final(out)@ == old(out)@ + bash_escaped_from(s@, i as int),
    decreases s@.len() - i,
{
    if i < s.unicode_len() {
        let c = s.get_char(i);
        if c == '\'' {
            out.push('\'');
            out.push('\\');
            out.push('\'');
            out.push('\'');
        } else {
            out.push(c);
        }
        push_bash_escaped_from(out, s, i + 1);
        proof {
            assert(final(out)@ =~= old(out)@ + bash_escaped_from(s@, i as int));
        }
    }
}

/// Escapes a string for use inside single quotes in bash: each single quote
/// becomes a closing quote, an escaped quote and an opening quote.
pub fn bash_escape(s: &str) -> (r: String)
    ensures
        r@ == bash_escaped(s@),
{
    let mut out: Vec<char> = Vec::new();
    push_bash_escaped_from(&mut out, s, 0);
    crate::json_text::chars_to_string(&out)
}

/// Whether a path names a WSL Linux location: absolute, but not a Windows
/// UNC path.
pub open spec fn spec_is_wsl_path(p: Seq<char>) -> bool {
    p.len() >= 1 && p[0] == '/' && !(p.len() >= 2 && p[1] == '/')
}

/// Whether a path names a WSL Linux location (it starts with one slash).
pub fn is_wsl_path(path: &str) -> (r: bool)
    ensures
        r == spec_is_wsl_path(path@),
{
    let n = path.unicode_len();
    if n == 0 {
        false
    } else if path.get_char(0) != '/' {
        false
    } else if n >= 2 && path.get_char(1) == '/' {
        false
    } else {
        true
    }
}

/// One argument of the command line run inside WSL: single-quoted, its
/// content escaped.
pub open spec fn quoted_bash_arg(a: Seq<char>) -> Seq<char> {
    seq!['\''] + bash_escaped(a) + seq!['\'']
}

/// The quoted arguments from position `i` on, each ahead of one space.
pub open spec fn bash_args_from(args: Seq<Seq<char>>, i: int) -> Seq<char>
    decreases args.len() - i,
{
    if i < 0 || i >= args.len() {
        Seq::empty()
    } else {
        seq![' '] + quoted_bash_arg(args[i]) + bash_args_from(args, i + 1)
    }
}

/// The whole command line run through bash inside WSL for a git call: a
/// change into the working directory, then git with each argument quoted.
pub open spec fn wsl_git_line(args: Seq<Seq<char>>, wsl_path: Seq<char>) -> Seq<char> {
    "cd '"@ + bash_escaped(wsl_path) + "' && git"@ + bash_args_from(args, 0)
}

/// Appends the quoted arguments from position `i` on.
fn push_bash_args_from(out: &mut Vec<char>, args: &Vec<String>, i: usize)
    requires
        i <= args@.len(),
    ensures
        final(out)@ == old(out)@ + bash_args_from(args.deep_view(), i as int),
    decreases args@.len() - i,
{
    if i < args.len() {
        out.push(' ');
        out.push('\'');
        push_bash_escaped_from(out, args[i].as_str(), 0);
        out.push('\'');
        push_bash_args_from(out, args, i + 1);
        proof {
            assert(final(out)@ =~= old(out)@ + bash_args_from(args.deep_view(), i as int));
        }
    } else {
        proof {
            assert(final(out)@ =~= old(out)@ + bash_args_from(args.deep_view(), i as int));
        }
    }
}

/// The bash command line that runs a git call inside WSL, every argument
/// quoted so the shell reads nothing into it.
pub fn wsl_git_command_line(args: &Vec<String>, wsl_path: &str) -> (r: String)
    ensures
        r@ == wsl_git_line(args.deep_view(), wsl_path@),
{
    let mut out: Vec<char> = Vec::new();
    crate::json_text::push_str_chars(&mut out, "cd '");
    push_bash_escaped_from(&mut out, wsl_path, 0);
    crate::json_text::push_str_chars(&mut out, "' && git");
    push_bash_args_from(&mut out, args, 0);
    proof {
        assert(out@ =~= wsl_git_line(args.deep_view(), wsl_path@));
    }
    crate::json_text::chars_to_string(&out)
}

/// A path with a leading tilde expanded: `~/rest` becomes the home
/// directory ahead of `/rest`, a bare `~` the home directory itself, and
/// anything else stays as it is.
pub open spec fn spec_expand_home(p: Seq<char>, home: Seq<char>) -> Seq<char> {
    if p.len() >= 2 && p[0] == '~' && p[1] == '/' {
        home + p.subrange(1, p.len() as int)
    } else if p == seq!['~'] {
        home
    } else {
        p
    }
}

/// Expands a leading tilde in a path to the home directory.
pub fn expand_home(path: &str, home: &str) -> (r: String)
    ensures
        r@ == spec_expand_home(path@, home@),
{
    let n = path.unicode_len();
    if n >= 2 && path.get_char(0) == '~' && path.get_char(1) == '/' {
        let mut out = String::from_str(home);
        let rest = path.substring_char(1, n);
        out.append(rest);
        out
    } else if n == 1 && path.get_char(0) == '~' {
        proof {
            assert(path@ =~= seq!['~']);
        }
        String::from_str(home)
    } else {
        proof {
            if path@ == seq!['~'] {
                assert(path@.len() == 1);
            }
        }
        String::from_str(path)
    }
}

/// How one character stands inside a single-quoted JavaScript string: the
/// backslash and the quote escaped, everything else as itself.
pub open spec fn js_esc_char(c: char) -> Seq<char> {
    if c == '\\' {
        seq!['\\', '\\']
    } else if c == '\'' {
        seq!['\\', '\'']
    } else {
        seq![c]
    }
}

/// The characters of the text from `i` on, escaped for a single-quoted
/// JavaScript string.
pub open spec fn js_escaped_from(s: Seq<char>, i: int) -> Seq<char>
    decreases s.len() - i,
{
    if i < 0 || i >= s.len() {
        Seq::empty()
    } else {
        js_esc_char(s[i]) + js_escaped_from(s, i + 1)
    }
}

/// The whole text escaped for a single-quoted JavaScript string.
pub open spec fn js_escaped(s: Seq<char>) -> Seq<char> {
    js_escaped_from(s, 0)
}

/// Appends the characters of the text from `i` on, escaped for JavaScript.
fn push_js_escaped_from(out: &mut Vec<char>, s: &str, i: usize)
    requires
        i <= s@.len(),
    ensures
        final(out)@ == old(out)@ + js_escaped_from(s@, i as int),
    decreases s@.len() - i,
{
    if i < s.unicode_len() {
        let c = s.get_char(i);
        if c == '\\' {
            out.push('\\');
            out.push('\\');
        } else if c == '\'' {
            out.push('\\');
            out.push('\'');
        } else {
            out.push(c);
        }
        push_js_escaped_from(out, s, i + 1);
        proof {
            assert(final(out)@ =~= old(out)@ + js_escaped_from(s@, i as int));
        }
    }
}

/// Escapes a string for a single-quoted JavaScript literal handed to a
/// window's script.
pub fn js_escape(s: &str) -> (r: String)
    ensures
        r@ == js_escaped(s@),
{
    let mut out: Vec<char> = Vec::new();
    push_js_escaped_from(&mut out, s, 0);
    crate::json_text::chars_to_string(&out)
}

/// The maximal whitespace-free words of the text from position `i` on.
pub open spec fn words_from(s: Seq<char>, i: int) -> Seq<Seq<char>>
    decreases s.len() - i when 0 <= i via words_from_decreases
{
    if i >= s.len() {
        Seq::empty()
    } else {
        let j = crate::text::skip_ws(s, i);
        if j >= s.len() {
            Seq::empty()
        } else {
            let k = crate::text::find_ws_in(s, j);
            seq![s.subrange(j, k)] + words_from(s, k)
        }
    }
}

#[via_fn]
proof fn words_from_decreases(s: Seq<char>, i: int) {
    if 0 <= i && i < s.len() {
        crate::text::lemma_skip_ws(s, i);
        let j = crate::text::skip_ws(s, i);
        if j < s.len() {
            crate::text::lemma_find_ws_in(s, j);
            assert(!crate::text::is_wspace(s[j]));
            assert(crate::text::find_ws_in(s, j) == crate::text::find_ws_in(s, j + 1));
            crate::text::lemma_find_ws_in(s, j + 1);
        }
    }
}

/// The whitespace-separated words of a text.
pub open spec fn spec_words(s: Seq<char>) -> Seq<Seq<char>> {
    words_from(s, 0)
}

/// Whether the character at a position is ASCII whitespace.
fn ws_at(s: &str, j: usize) -> (r: bool)
    requires
        j < s@.len(),
    ensures
        r == crate::text::is_wspace(s@[j as int]),
{
    crate::text::is_wspace_char(s.get_char(j))
}

/// The words of the text from position `i` on.
fn words_from_exec(s: &str, i: usize) -> (r: Vec<String>)
    requires
        i <= s@.len(),
    ensures
        r.deep_view() == words_from(s@, i as int),
    decreases s@.len() - i,
{
    proof {
        crate::text::lemma_skip_ws(s@, i as int);
    }
    let n = s.unicode_len();
    let mut j = i;
    while j < n && ws_at(s, j)
        invariant
            n == s@.len(),
            i <= j <= n,
            crate::text::skip_ws(s@, i as int) == crate::text::skip_ws(s@, j as int),
        decreases n - j,
    {
        proof {
            assert(crate::text::skip_ws(s@, j as int) == crate::text::skip_ws(
                s@,
                j as int + 1,
            ));
        }
        j = j + 1;
    }
    proof {
        assert(crate::text::skip_ws(s@, i as int) == j as int);
    }
    if j == n {
        let r: Vec<String> = Vec::new();
        proof {
            assert(r.deep_view() =~= words_from(s@, i as int));
        }
        r
    } else {
        let k = crate::text::find_ws_in_exec(s, j);
        let word = String::from_str(s.substring_char(j, k));
        proof {
            crate::text::lemma_find_ws_in(s@, j as int);
            assert(!crate::text::is_wspace(s@[j as int]));
        }
        proof {
            assert(crate::text::find_ws_in(s@, j as int) == crate::text::find_ws_in(
                s@,
                j as int + 1,
            ));
            crate::text::lemma_find_ws_in(s@, j as int + 1);
        }
        let mut rest = words_from_exec(s, k);
        let ghost before = rest.deep_view();
        rest.insert(0, word);
        proof {
            assert(rest.deep_view() =~= seq![word@] + before);
            assert(rest.deep_view() =~= words_from(s@, i as int));
        }
        rest
    }
}

/// Splits a service command into its program — the first word — and the
/// argument words after it; a command with no words at all is nothing.
pub fn split_command(command: &str) -> (r: Option<(String, Vec<String>)>)
    ensures
        spec_words(command@).len() == 0 ==> r is None,
        spec_words(command@).len() > 0 ==> (r matches Some((program, args)) && (program@
            == spec_words(command@)[0] && args.deep_view() == spec_words(command@).skip(1))),
{
    let mut words = words_from_exec(command, 0);
    if words.len() == 0 {
        None
    } else {
        let program = words.remove(0);
        proof {
            assert(words.deep_view() =~= spec_words(command@).skip(1));
        }
        Some((program, words))
    }
}

/// The window label of a detached tab: a fixed prefix and the first eight
/// characters of the tab id.
pub fn detached_window_id(tab_id: &str) -> (r: String)
    requires
        tab_id@.len() >= 8,
    ensures
        r@ == "detached-"@ + tab_id@.subrange(0, 8),
{
    let mut out = String::from_str("detached-");
    let head = tab_id.substring_char(0, 8);
    out.append(head);
    out
}

} // verus!
