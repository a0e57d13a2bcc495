//! Reading the text that the git command line prints: branch names, the
//! ahead/behind counters, the porcelain status listing, the branch listing
//! and the commit log.
//!
//! Running git — directly or through WSL — is a process-edge concern; these
//! functions take the captured output as plain text and are what decides
//! how it is read.

use vstd::prelude::*;

use crate::text::{
    contains_seq, is_wspace, spec_lines, spec_parse_uint, spec_split_char, spec_splitn_char,
    spec_trim,
};

verus! {

/// The summary the status bar shows of a repository.
pub struct GitInfo {
    pub branch: Option<String>,
    pub is_dirty: bool,
    pub ahead: u32,
    pub behind: u32,
}

/// One changed file in the porcelain status listing.
pub struct GitStatusFile {
    pub path: String,
    pub status: String,
    pub staged: bool,
}

/// The full status of a repository.
pub struct GitStatusResult {
    pub branch: String,
    pub upstream: Option<String>,
    pub ahead: u32,
    pub behind: u32,
    pub files: Vec<GitStatusFile>,
}

/// One branch in the branch listing.
pub struct GitBranch {
    pub name: String,
    pub current: bool,
    pub upstream: Option<String>,
}

/// One commit in the log.
pub struct GitCommit {
    pub hash: String,
    pub short_hash: String,
    pub message: String,
    pub author: String,
    pub date: String,
}

/// An unsigned counter read leniently: a value that does not parse counts
/// as zero.
pub open spec fn count_or_zero(s: Seq<char>) -> int {
    match spec_parse_uint(s, u32::MAX as int) {
        Some(v) => v,
        None => 0,
    }
}

/// What the ahead/behind listing of `rev-list --left-right --count` says:
/// the two tab-separated counters of its trimmed output, each zero where it
/// does not parse, and both zero where the shape is not two fields.
pub open spec fn spec_ahead_behind(s: Seq<char>) -> (int, int) {
    let parts = spec_split_char(spec_trim(s), '\t');
    if parts.len() == 2 {
        (count_or_zero(parts[0]), count_or_zero(parts[1]))
    } else {
        (0, 0)
    }
}

/// Reads the ahead and behind counters out of the rev-list output.
pub fn parse_ahead_behind(s: &str) -> (r: (u32, u32))
    ensures
        r.0 == spec_ahead_behind(s@).0,
        r.1 == spec_ahead_behind(s@).1,
{
    let t = crate::text::trim(s);
    let parts = crate::text::split_char(t.as_str(), '\t');
    if parts.len() == 2 {
        let a = match crate::text::parse_uint(parts[0].as_str(), 0xffff_ffff) {
            Some(v) => v as u32,
            None => 0,
        };
        let b = match crate::text::parse_uint(parts[1].as_str(), 0xffff_ffff) {
            Some(v) => v as u32,
            None => 0,
        };
        proof {
            assert(parts.deep_view()[0] == parts@[0]@);
            assert(parts.deep_view()[1] == parts@[1]@);
        }
        (a, b)
    } else {
        (0, 0)
    }
}

/// Builds the repository summary out of the three captured outputs: the
/// branch query's output where it succeeded, the porcelain status where it
/// ran, and the ahead/behind counters where they were readable.  A missing
/// branch leaves everything at rest: no branch, clean, no counters.
pub fn git_info_from(
    branch_out: Option<&String>,
    status_out: Option<&String>,
    ahead_behind_out: Option<&String>,
) -> (r: GitInfo)
    ensures
        branch_out matches Some(b) ==> r.branch matches Some(n) && n@ == spec_trim(b@),
        branch_out is None ==> r.branch is None && !r.is_dirty && r.ahead == 0 && r.behind == 0,
        branch_out is Some ==> r.is_dirty == (status_out matches Some(s) && s@.len() > 0),
        branch_out is Some ==> ({
            match ahead_behind_out {
                Some(s) => r.ahead == spec_ahead_behind(s@).0 && r.behind == spec_ahead_behind(
                    s@,
                ).1,
                None => r.ahead == 0 && r.behind == 0,
            }
        }),
{
    let branch = match branch_out {
        Some(b) => Some(crate::text::trim(b.as_str())),
        None => None,
    };
    if branch.is_none() {
        return GitInfo { branch: None, is_dirty: false, ahead: 0, behind: 0 };
    }
    let is_dirty = match status_out {
        Some(s) => s.as_str().unicode_len() > 0,
        None => false,
    };
    let (ahead, behind) = match ahead_behind_out {
        Some(s) => parse_ahead_behind(s.as_str()),
        None => (0, 0),
    };
    GitInfo { branch, is_dirty, ahead, behind }
}

/// Builds the full repository status out of the captured outputs: the
/// branch query's output where it succeeded, the upstream query's where it
/// did, the ahead/behind counters — read only under an upstream — and the
/// porcelain listing.  Without a branch there is no repository; without the
/// listing there is no status.
pub fn git_status_from(
    branch_out: Option<&String>,
    upstream_out: Option<&String>,
    ahead_behind_out: Option<&String>,
    status_out: Option<&String>,
) -> (r: Result<GitStatusResult, String>)
    ensures
        branch_out is None ==> r is Err,
        branch_out is Some && status_out is None ==> r is Err,
        branch_out matches Some(b) ==> status_out matches Some(st) ==> (r matches Ok(res) && ({
            &&& res.branch@ == spec_trim(b@)
            &&& crate::mcp::types::opt_view(res.upstream) == (match upstream_out {
                Some(u) => Some(spec_trim(u@)),
                None => None,
            })
            &&& (match upstream_out {
                Some(_) => match ahead_behind_out {
                    Some(ab) => res.ahead == spec_ahead_behind(ab@).0 && res.behind
                        == spec_ahead_behind(ab@).1,
                    None => res.ahead == 0 && res.behind == 0,
                },
                None => res.ahead == 0 && res.behind == 0,
            })
            &&& status_files_view(res.files@) == spec_status_files(st@)
        })),
{
    let branch = match branch_out {
        Some(b) => crate::text::trim(b.as_str()),
        None => {
            return Err(String::from_str("Not a git repository"));
        },
    };
    let upstream = match upstream_out {
        Some(u) => Some(crate::text::trim(u.as_str())),
        None => None,
    };
    let (ahead, behind) = if upstream.is_some() {
        match ahead_behind_out {
            Some(ab) => parse_ahead_behind(ab.as_str()),
            None => (0, 0),
        }
    } else {
        (0, 0)
    };
    let files = match status_out {
        Some(st) => parse_status_files(st.as_str()),
        None => {
            return Err(String::from_str("Failed to get status"));
        },
    };
    Ok(GitStatusResult { branch, upstream, ahead, behind, files })
}

/// The entries one porcelain line contributes: nothing for a short line;
/// otherwise a staged entry where the index column holds a change, and an
/// unstaged entry where the worktree column does, each carrying the path
/// after the two columns and their separator.
pub open spec fn line_status_entries(line: Seq<char>) -> Seq<(Seq<char>, Seq<char>, bool)> {
    if line.len() < 4 {
        Seq::empty()
    } else {
        let index_status = line[0];
        let worktree_status = line[1];
        let path = line.subrange(3, line.len() as int);
        (if index_status != ' ' && index_status != '?' {
            seq![(path, seq![index_status], true)]
        } else {
            Seq::empty()
        }) + (if worktree_status != ' ' {
            seq![(path, seq![worktree_status], false)]
        } else {
            Seq::empty()
        })
    }
}

/// The entries of the first `i` porcelain lines, in order.
pub open spec fn status_entries_upto(lines: Seq<Seq<char>>, i: int) -> Seq<
    (Seq<char>, Seq<char>, bool),
>
    decreases i,
{
    if i <= 0 {
        Seq::empty()
    } else {
        status_entries_upto(lines, i - 1) + line_status_entries(lines[i - 1])
    }
}

/// The entries a porcelain status text yields.
pub open spec fn spec_status_files(s: Seq<char>) -> Seq<(Seq<char>, Seq<char>, bool)> {
    status_entries_upto(spec_lines(s), spec_lines(s).len() as int)
}

/// What each parsed file record says, as path, status and stagedness.
pub open spec fn status_files_view(fs: Seq<GitStatusFile>) -> Seq<(Seq<char>, Seq<char>, bool)>
    decreases fs.len(),
{
    if fs.len() == 0 {
        Seq::empty()
    } else {
        status_files_view(fs.drop_last()) + seq![
            (fs.last().path@, fs.last().status@, fs.last().staged),
        ]
    }
}

/// Reads the porcelain status listing into its file records: one staged
/// record per index-column change, one unstaged record per worktree-column
/// change, in the listing's order.
pub fn parse_status_files(s: &str) -> (r: Vec<GitStatusFile>)
    ensures
        status_files_view(r@) == spec_status_files(s@),
{
    let lines = crate::text::split_lines(s);
    let mut out: Vec<GitStatusFile> = Vec::new();
    let mut i: usize = 0;
    while i < lines.len()
        invariant
            i <= lines@.len(),
            lines.deep_view() == spec_lines(s@),
            status_files_view(out@) == status_entries_upto(lines.deep_view(), i as int),
        decreases lines@.len() - i,
    {
        let line = &lines[i];
        let n = line.as_str().unicode_len();
        proof {
            assert(lines.deep_view()[i as int] == lines@[i as int]@);
        }
        if n >= 4 {
            let index_status = line.as_str().get_char(0);
            let worktree_status = line.as_str().get_char(1);
            if index_status != ' ' && index_status != '?' {
                let path = String::from_str(line.as_str().substring_char(3, n));
                let mut status_chars: Vec<char> = Vec::new();
                status_chars.push(index_status);
                let status = crate::json_text::chars_to_string(&status_chars);
                proof {
                    assert(status@ =~= seq![index_status]);
                }
                let ghost prev = out@;
                out.push(GitStatusFile { path, status, staged: true });
                proof {
                    assert(out@.drop_last() =~= prev);
                    assert(status_files_view(out@) =~= status_files_view(prev) + seq![
                        (
                            lines.deep_view()[i as int].subrange(
                                3,
                                lines.deep_view()[i as int].len() as int,
                            ),
                            seq![index_status],
                            true,
                        ),
                    ]);
                }
            }
            if worktree_status != ' ' {
                let path = String::from_str(line.as_str().substring_char(3, n));
                let mut status_chars: Vec<char> = Vec::new();
                status_chars.push(worktree_status);
                let status = crate::json_text::chars_to_string(&status_chars);
                proof {
                    assert(status@ =~= seq![worktree_status]);
                }
                let ghost prev = out@;
                out.push(GitStatusFile { path, status, staged: false });
                proof {
                    assert(out@.drop_last() =~= prev);
                    assert(status_files_view(out@) =~= status_files_view(prev) + seq![
                        (
                            lines.deep_view()[i as int].subrange(
                                3,
                                lines.deep_view()[i as int].len() as int,
                            ),
                            seq![worktree_status],
                            false,
                        ),
                    ]);
                }
            }
            proof {
                assert(status_files_view(out@) =~= status_entries_upto(
                    lines.deep_view(),
                    i as int + 1,
                ));
            }
        } else {
            proof {
                assert(line_status_entries(lines.deep_view()[i as int]) =~= Seq::<(
                    Seq<char>,
                    Seq<char>,
                    bool,
                )>::empty());
                assert(status_files_view(out@) =~= status_entries_upto(
                    lines.deep_view(),
                    i as int + 1,
                ));
            }
        }
        i = i + 1;
    }
    proof {
        assert(lines.deep_view().len() == spec_lines(s@).len());
    }
    out
}

/// The commit record one log line contributes, where it has all five
/// pipe-separated fields: hash, short hash, message, author and date.
pub open spec fn line_commit(line: Seq<char>) -> Option<
    (Seq<char>, Seq<char>, Seq<char>, Seq<char>, Seq<char>),
> {
    let parts = spec_splitn_char(line, 5, '|');
    if parts.len() >= 5 {
        Some((parts[0], parts[1], parts[2], parts[3], parts[4]))
    } else {
        None
    }
}

/// The commit records of the first `i` log lines.
pub open spec fn commits_upto(lines: Seq<Seq<char>>, i: int) -> Seq<
    (Seq<char>, Seq<char>, Seq<char>, Seq<char>, Seq<char>),
>
    decreases i,
{
    if i <= 0 {
        Seq::empty()
    } else {
        commits_upto(lines, i - 1) + (match line_commit(lines[i - 1]) {
            Some(c) => seq![c],
            None => Seq::empty(),
        })
    }
}

/// The commit records a log text yields.
pub open spec fn spec_commits(s: Seq<char>) -> Seq<
    (Seq<char>, Seq<char>, Seq<char>, Seq<char>, Seq<char>),
> {
    commits_upto(spec_lines(s), spec_lines(s).len() as int)
}

/// What each parsed commit record says.
pub open spec fn commits_view(cs: Seq<GitCommit>) -> Seq<
    (Seq<char>, Seq<char>, Seq<char>, Seq<char>, Seq<char>),
>
    decreases cs.len(),
{
    if cs.len() == 0 {
        Seq::empty()
    } else {
        commits_view(cs.drop_last()) + seq![
            (
                cs.last().hash@,
                cs.last().short_hash@,
                cs.last().message@,
                cs.last().author@,
                cs.last().date@,
            ),
        ]
    }
}

/// Reads the formatted commit log into its records, skipping a line that
/// lacks the five fields.
pub fn parse_git_log(s: &str) -> (r: Vec<GitCommit>)
    ensures
        commits_view(r@) == spec_commits(s@),
{
    let lines = crate::text::split_lines(s);
    let mut out: Vec<GitCommit> = Vec::new();
    let mut i: usize = 0;
    while i < lines.len()
        invariant
            i <= lines@.len(),
            lines.deep_view() == spec_lines(s@),
            commits_view(out@) == commits_upto(lines.deep_view(), i as int),
        decreases lines@.len() - i,
    {
        proof {
            assert(lines.deep_view()[i as int] == lines@[i as int]@);
        }
        let parts = crate::text::splitn_char(lines[i].as_str(), 5, '|');
        if parts.len() >= 5 {
            proof {
                assert(parts.deep_view()[0] == parts@[0]@);
                assert(parts.deep_view()[1] == parts@[1]@);
                assert(parts.deep_view()[2] == parts@[2]@);
                assert(parts.deep_view()[3] == parts@[3]@);
                assert(parts.deep_view()[4] == parts@[4]@);
            }
            let ghost prev = out@;
            out.push(
                GitCommit {
                    hash: parts[0].clone(),
                    short_hash: parts[1].clone(),
                    message: parts[2].clone(),
                    author: parts[3].clone(),
                    date: parts[4].clone(),
                },
            );
            proof {
                assert(out@.drop_last() =~= prev);
                assert(commits_view(out@) =~= commits_view(prev) + seq![
                    (
                        parts.deep_view()[0],
                        parts.deep_view()[1],
                        parts.deep_view()[2],
                        parts.deep_view()[3],
                        parts.deep_view()[4],
                    ),
                ]);
            }
        }
        proof {
            assert(commits_view(out@) =~= commits_upto(lines.deep_view(), i as int + 1));
        }
        i = i + 1;
    }
    proof {
        assert(lines.deep_view().len() == spec_lines(s@).len());
    }
    out
}

/// The position of the first character from `i` on that is neither a star
/// nor ASCII whitespace, or the end.
pub open spec fn skip_star_ws(s: Seq<char>, i: int) -> int
    decreases s.len() - i,
{
    if i < 0 || i >= s.len() {
        s.len() as int
    } else if s[i] == '*' || is_wspace(s[i]) {
        skip_star_ws(s, i + 1)
    } else {
        i
    }
}

proof fn lemma_skip_star_ws(s: Seq<char>, i: int)
    requires
        0 <= i <= s.len(),
    ensures
        i <= skip_star_ws(s, i) <= s.len(),
    decreases s.len() - i,
{
    if i < s.len() && (s[i] == '*' || is_wspace(s[i])) {
        lemma_skip_star_ws(s, i + 1);
    }
}

/// The branch record one listing line contributes: nothing for an empty
/// line, a headless line, or a remote HEAD pointer; otherwise whether the
/// star marks it current, its name — the first word after the star — and
/// the upstream, the second word where there is one.
pub open spec fn line_branch(line: Seq<char>) -> Option<(Seq<char>, bool, Option<Seq<char>>)> {
    let t = spec_trim(line);
    if t.len() == 0 {
        None
    } else {
        let current = t[0] == '*';
        let c = t.subrange(skip_star_ws(t, 0), t.len() as int);
        if c.len() == 0 {
            None
        } else {
            let name = c.subrange(0, crate::text::find_ws_in(c, 0));
            if contains_seq(name, "HEAD"@) {
                None
            } else {
                let j = crate::text::skip_ws(c, crate::text::find_ws_in(c, 0));
                let upstream = if j < c.len() {
                    Some(c.subrange(j, crate::text::find_ws_in(c, j)))
                } else {
                    None
                };
                Some((name, current, upstream))
            }
        }
    }
}

/// The branch records of the first `i` listing lines.
pub open spec fn branches_upto(lines: Seq<Seq<char>>, i: int) -> Seq<
    (Seq<char>, bool, Option<Seq<char>>),
>
    decreases i,
{
    if i <= 0 {
        Seq::empty()
    } else {
        branches_upto(lines, i - 1) + (match line_branch(lines[i - 1]) {
            Some(b) => seq![b],
            None => Seq::empty(),
        })
    }
}

/// The branch records a listing text yields.
pub open spec fn spec_branches(s: Seq<char>) -> Seq<(Seq<char>, bool, Option<Seq<char>>)> {
    branches_upto(spec_lines(s), spec_lines(s).len() as int)
}

/// What each parsed branch record says.
pub open spec fn branches_view(bs: Seq<GitBranch>) -> Seq<(Seq<char>, bool, Option<Seq<char>>)>
    decreases bs.len(),
{
    if bs.len() == 0 {
        Seq::empty()
    } else {
        branches_view(bs.drop_last()) + seq![
            (bs.last().name@, bs.last().current, crate::mcp::types::opt_view(
                bs.last().upstream,
            )),
        ]
    }
}

/// The first position from `i` on that is neither a star nor whitespace.
fn skip_star_ws_exec(s: &str, i: usize) -> (r: usize)
    requires
        i <= s@.len(),
    ensures
        r == skip_star_ws(s@, i as int),
        i <= r <= s@.len(),
    decreases s@.len() - i,
{
    proof {
        lemma_skip_star_ws(s@, i as int);
    }
    if i == s.unicode_len() {
        i
    } else {
        let c = s.get_char(i);
        if c == '*' || crate::text::is_wspace_char(c) {
            skip_star_ws_exec(s, i + 1)
        } else {
            i
        }
    }
}


/// The first non-whitespace position from `i` on, or the end.
fn skip_ws_exec(s: &str, i: usize) -> (r: usize)
    requires
        i <= s@.len(),
    ensures
        r == crate::text::skip_ws(s@, i as int),
        i <= r <= s@.len(),
    decreases s@.len() - i,
{
    proof {
        crate::text::lemma_skip_ws(s@, i as int);
    }
    if i == s.unicode_len() {
        i
    } else if crate::text::is_wspace_char(s.get_char(i)) {
        skip_ws_exec(s, i + 1)
    } else {
        i
    }
}

/// Reads the branch listing into its records, skipping empty lines and the
/// remote HEAD pointer.
pub fn parse_git_branches(s: &str) -> (r: Vec<GitBranch>)
    ensures
        branches_view(r@) == spec_branches(s@),
{
    let lines = crate::text::split_lines(s);
    let mut out: Vec<GitBranch> = Vec::new();
    let mut i: usize = 0;
    while i < lines.len()
        invariant
            i <= lines@.len(),
            lines.deep_view() == spec_lines(s@),
            branches_view(out@) == branches_upto(lines.deep_view(), i as int),
        decreases lines@.len() - i,
    {
        proof {
            assert(lines.deep_view()[i as int] == lines@[i as int]@);
        }
        let t = crate::text::trim(lines[i].as_str());
        let n = t.as_str().unicode_len();
        if n > 0 {
            let current = t.as_str().get_char(0) == '*';
            let start = skip_star_ws_exec(t.as_str(), 0);
            let content = String::from_str(t.as_str().substring_char(start, n));
            let cn = content.as_str().unicode_len();
            proof {
                assert(content@ =~= spec_trim(lines.deep_view()[i as int]).subrange(
                    skip_star_ws(spec_trim(lines.deep_view()[i as int]), 0),
                    spec_trim(lines.deep_view()[i as int]).len() as int,
                ));
            }
            if cn > 0 {
                let name_end = crate::text::find_ws_in_exec(content.as_str(), 0);
                let name = String::from_str(content.as_str().substring_char(0, name_end));
                if !crate::text::contains_str(name.as_str(), "HEAD") {
                    let j = skip_ws_exec(content.as_str(), name_end);
                    let upstream = if j < cn {
                        let e2 = crate::text::find_ws_in_exec(content.as_str(), j);
                        Some(String::from_str(content.as_str().substring_char(j, e2)))
                    } else {
                        None
                    };
                    let ghost prev = out@;
                    let ghost gname = name@;
                    let ghost gup = crate::mcp::types::opt_view(upstream);
                    out.push(GitBranch { name, current, upstream });
                    proof {
                        assert(out@.drop_last() =~= prev);
                        assert(branches_view(out@) =~= branches_view(prev) + seq![
                            (gname, current, gup),
                        ]);
                    }
                }
            }
        }
        proof {
            assert(branches_view(out@) =~= branches_upto(lines.deep_view(), i as int + 1));
        }
        i = i + 1;
    }
    proof {
        assert(lines.deep_view().len() == spec_lines(s@).len());
    }
    out
}

} // verus!
