//! Reading the text that the docker command line prints: the short status
//! listing, and the full container, image and volume tables.
//!
//! Running docker is a process-edge concern; these functions take the
//! captured output as plain text.  Each table row is pipe-separated by the
//! format string the caller passes to docker.

use vstd::prelude::*;

use crate::sshconfig::spec_lower;
use crate::text::{spec_lines, spec_split_char, spec_splitn_char};

verus! {

broadcast use vstd::string::group_string_axioms;

/// One container in the short status listing.
pub struct DockerContainer {
    pub name: String,
    pub status: String,
    pub running: bool,
}

/// The short status listing: whether anything runs, and every container.
pub struct DockerStatus {
    pub running: bool,
    pub containers: Vec<DockerContainer>,
}

/// One container in the full table.
pub struct DockerContainerFull {
    pub id: String,
    pub name: String,
    pub image: String,
    pub status: String,
    pub state: String,
    pub ports: Vec<String>,
    pub created: String,
}

/// One image in the image table.
pub struct DockerImage {
    pub id: String,
    pub repository: String,
    pub tag: String,
    pub size: String,
    pub created: String,
}

/// One volume in the volume table.
pub struct DockerVolume {
    pub name: String,
    pub driver: String,
    pub mountpoint: String,
}

/// A field of a split row, or the empty text where the row is short.
pub open spec fn field_or_empty(parts: Seq<Seq<char>>, i: int) -> Seq<char> {
    if 0 <= i < parts.len() {
        parts[i]
    } else {
        Seq::empty()
    }
}

/// The container record one status line contributes: nothing for an empty
/// line; otherwise the first two pipe-separated fields — absent ones empty —
/// and whether the third says `running`.
pub open spec fn line_short_container(line: Seq<char>) -> Option<(Seq<char>, Seq<char>, bool)> {
    if line.len() == 0 {
        None
    } else {
        let parts = spec_split_char(line, '|');
        Some(
            (
                field_or_empty(parts, 0),
                field_or_empty(parts, 1),
                parts.len() > 2 && parts[2] == "running"@,
            ),
        )
    }
}

/// The container records of the first `i` status lines.
pub open spec fn short_containers_upto(lines: Seq<Seq<char>>, i: int) -> Seq<
    (Seq<char>, Seq<char>, bool),
>
    decreases i,
{
    if i <= 0 {
        Seq::empty()
    } else {
        short_containers_upto(lines, i - 1) + (match line_short_container(lines[i - 1]) {
            Some(c) => seq![c],
            None => Seq::empty(),
        })
    }
}

/// The container records a whole status listing yields.
pub open spec fn spec_short_containers(s: Seq<char>) -> Seq<(Seq<char>, Seq<char>, bool)> {
    short_containers_upto(spec_lines(s), spec_lines(s).len() as int)
}

/// What each parsed short-status record says.
pub open spec fn short_containers_view(cs: Seq<DockerContainer>) -> Seq<
    (Seq<char>, Seq<char>, bool),
>
    decreases cs.len(),
{
    if cs.len() == 0 {
        Seq::empty()
    } else {
        short_containers_view(cs.drop_last()) + seq![
            (cs.last().name@, cs.last().status@, cs.last().running),
        ]
    }
}

/// Whether any record of a listing runs.
pub open spec fn any_running(cs: Seq<(Seq<char>, Seq<char>, bool)>) -> bool {
    exists|i: int| 0 <= i < cs.len() && cs[i].2
}

/// Reads the short status listing: every non-empty line becomes a container
/// record, and the whole is marked running exactly when one of them is.
pub fn parse_docker_status(s: &str) -> (r: DockerStatus)
    ensures
        short_containers_view(r.containers@) == spec_short_containers(s@),
        r.running == any_running(spec_short_containers(s@)),
{
    let lines = crate::text::split_lines(s);
    let mut out: Vec<DockerContainer> = Vec::new();
    let mut running = false;
    let mut i: usize = 0;
    while i < lines.len()
        invariant
            i <= lines@.len(),
            lines.deep_view() == spec_lines(s@),
            short_containers_view(out@) == short_containers_upto(lines.deep_view(), i as int),
            running == any_running(short_containers_upto(lines.deep_view(), i as int)),
        decreases lines@.len() - i,
    {
        proof {
            assert(lines.deep_view()[i as int] == lines@[i as int]@);
        }
        let ghost entries0 = short_containers_upto(lines.deep_view(), i as int);
        if lines[i].as_str().unicode_len() > 0 {
            let parts = crate::text::split_char(lines[i].as_str(), '|');
            let name = if parts.len() > 0 {
                parts[0].clone()
            } else {
                String::new()
            };
            let status = if parts.len() > 1 {
                parts[1].clone()
            } else {
                String::new()
            };
            let is_running = parts.len() > 2 && crate::text::str_eq(
                parts[2].as_str(),
                "running",
            );
            proof {
                if parts@.len() > 0 {
                    assert(parts.deep_view()[0] == parts@[0]@);
                }
                if parts@.len() > 1 {
                    assert(parts.deep_view()[1] == parts@[1]@);
                }
                if parts@.len() > 2 {
                    assert(parts.deep_view()[2] == parts@[2]@);
                }
            }
            let ghost prev = out@;
            out.push(DockerContainer { name, status, running: is_running });
            running = running || is_running;
            proof {
                assert(out@.drop_last() =~= prev);
                let entry = (
                    field_or_empty(parts.deep_view(), 0),
                    field_or_empty(parts.deep_view(), 1),
                    parts.deep_view().len() > 2 && parts.deep_view()[2] == "running"@,
                );
                assert(short_containers_view(out@) =~= short_containers_view(prev) + seq![
                    entry,
                ]);
                let entries1 = short_containers_upto(lines.deep_view(), i as int + 1);
                assert(entries1 =~= entries0 + seq![entry]);
                assert(running == any_running(entries1)) by {
                    if running {
                        if any_running(entries0) {
                            let k = choose|k: int|
                                0 <= k < entries0.len() && entries0[k].2;
                            assert(entries1[k].2);
                        } else {
                            assert(entries1[entries1.len() - 1].2);
                        }
                    } else {
                        if any_running(entries1) {
                            let k = choose|k: int|
                                0 <= k < entries1.len() && entries1[k].2;
                            if k < entries0.len() {
                                assert(entries0[k].2);
                            }
                        }
                    }
                }
            }
        } else {
            proof {
                assert(short_containers_upto(lines.deep_view(), i as int + 1) =~= entries0);
            }
        }
        i = i + 1;
    }
    proof {
        assert(lines.deep_view().len() == spec_lines(s@).len());
    }
    DockerStatus { running, containers: out }
}

/// The position of the first occurrence of `pat` at or after `i`, or the
/// text's length where there is none.
pub open spec fn find_seq_in(s: Seq<char>, pat: Seq<char>, i: int) -> int
    decreases s.len() - i when pat.len() >= 1
{
    if i < 0 || i > s.len() - pat.len() {
        s.len() as int
    } else if s.subrange(i, i + pat.len()) == pat {
        i
    } else {
        find_seq_in(s, pat, i + 1)
    }
}

proof fn lemma_find_seq_in(s: Seq<char>, pat: Seq<char>, i: int)
    requires
        0 <= i <= s.len(),
        pat.len() >= 1,
    ensures
        i <= find_seq_in(s, pat, i) <= s.len(),
        find_seq_in(s, pat, i) < s.len() ==> find_seq_in(s, pat, i) + pat.len() <= s.len()
            && s.subrange(find_seq_in(s, pat, i), find_seq_in(s, pat, i) + pat.len()) == pat,
    decreases s.len() - i,
{
    if !(i > s.len() - pat.len()) && s.subrange(i, i + pat.len()) != pat {
        lemma_find_seq_in(s, pat, i + 1);
    }
}

/// The same search, in executable form.
fn find_seq_in_exec(s: &str, pat: &str, i: usize) -> (r: usize)
    requires
        i <= s@.len(),
        pat@.len() >= 1,
    ensures
        r == find_seq_in(s@, pat@, i as int),
        i <= r <= s@.len(),
        r < s@.len() ==> r + pat@.len() <= s@.len(),
    decreases s@.len() - i,
{
    proof {
        lemma_find_seq_in(s@, pat@, i as int);
    }
    let n = s.unicode_len();
    let m = pat.unicode_len();
    if m > n || i > n - m {
        n
    } else {
        let mut j: usize = 0;
        let mut matched = true;
        while j < m
            invariant
                n == s@.len(),
                m == pat@.len(),
                i + m <= n,
                j <= m,
                matched == (forall|k: int| 0 <= k < j ==> s@[i + k] == pat@[k]),
            decreases m - j,
        {
            if s.get_char(i + j) != pat.get_char(j) {
                proof {
                    assert(s@[i as int + j as int] != pat@[j as int]);
                }
                matched = false;
                j = m;
            } else {
                j = j + 1;
            }
        }
        if matched {
            proof {
                assert(s@.subrange(i as int, i as int + pat@.len()) =~= pat@);
            }
            i
        } else {
            proof {
                if s@.subrange(i as int, i as int + pat@.len()) == pat@ {
                    let k = choose|k: int| 0 <= k < m && s@[i + k] != pat@[k];
                    assert(s@.subrange(i as int, i as int + pat@.len())[k] == pat@[k]);
                }
            }
            find_seq_in_exec(s, pat, i + 1)
        }
    }
}

/// The fields of the text from `i` on, split on the whole pattern `pat`,
/// empties kept.
pub open spec fn split_seq_from(s: Seq<char>, pat: Seq<char>, i: int) -> Seq<Seq<char>>
    decreases s.len() - i when 0 <= i && pat.len() >= 1 via split_seq_from_decreases
{
    if i > s.len() {
        Seq::empty()
    } else {
        let j = find_seq_in(s, pat, i);
        if j >= s.len() {
            seq![s.subrange(i, s.len() as int)]
        } else {
            seq![s.subrange(i, j)] + split_seq_from(s, pat, j + pat.len() as int)
        }
    }
}

#[via_fn]
proof fn split_seq_from_decreases(s: Seq<char>, pat: Seq<char>, i: int) {
    if 0 <= i && i <= s.len() && pat.len() >= 1 {
        lemma_find_seq_in(s, pat, i);
    }
}

/// The fields of a whole text split on the pattern `pat`.
pub open spec fn spec_split_seq(s: Seq<char>, pat: Seq<char>) -> Seq<Seq<char>> {
    split_seq_from(s, pat, 0)
}

/// The fields of the text from `i` on, split on the pattern.
fn split_seq_exec_from(s: &str, pat: &str, i: usize) -> (r: Vec<String>)
    requires
        i <= s@.len(),
        pat@.len() >= 1,
    ensures
        r.deep_view() == split_seq_from(s@, pat@, i as int),
    decreases s@.len() - i,
{
    proof {
        lemma_find_seq_in(s@, pat@, i as int);
    }
    let j = find_seq_in_exec(s, pat, i);
    if j == s.unicode_len() {
        let mut r: Vec<String> = Vec::new();
        r.push(String::from_str(s.substring_char(i, j)));
        proof {
            assert(r.deep_view() =~= split_seq_from(s@, pat@, i as int));
        }
        r
    } else {
        let field = String::from_str(s.substring_char(i, j));
        let mut rest = split_seq_exec_from(s, pat, j + pat.unicode_len());
        let ghost before = rest.deep_view();
        rest.insert(0, field);
        proof {
            assert(rest.deep_view() =~= seq![field@] + before);
            assert(rest.deep_view() =~= split_seq_from(s@, pat@, i as int));
        }
        rest
    }
}

/// The fields of a text split on a multi-character pattern, empties kept.
pub fn split_seq(s: &str, pat: &str) -> (r: Vec<String>)
    requires
        pat@.len() >= 1,
    ensures
        r.deep_view() == spec_split_seq(s@, pat@),
{
    split_seq_exec_from(s, pat, 0)
}

/// The port fields a container row's ports column yields: its
/// comma-space-separated pieces, empties dropped.
pub open spec fn ports_of(column: Seq<char>) -> Seq<Seq<char>> {
    spec_split_seq(column, ", "@).filter(|p: Seq<char>| p.len() > 0)
}

/// The full record one container-table line contributes, where it has all
/// seven pipe-separated fields; the state field is lower-cased.
pub open spec fn line_container_full(line: Seq<char>) -> Option<
    (Seq<char>, Seq<char>, Seq<char>, Seq<char>, Seq<char>, Seq<Seq<char>>, Seq<char>),
> {
    if line.len() == 0 {
        None
    } else {
        let parts = spec_splitn_char(line, 7, '|');
        if parts.len() >= 7 {
            Some(
                (
                    parts[0],
                    parts[1],
                    parts[2],
                    parts[3],
                    spec_lower(parts[4]),
                    ports_of(parts[5]),
                    parts[6],
                ),
            )
        } else {
            None
        }
    }
}

/// The full records of the first `i` container-table lines.
pub open spec fn containers_full_upto(lines: Seq<Seq<char>>, i: int) -> Seq<
    (Seq<char>, Seq<char>, Seq<char>, Seq<char>, Seq<char>, Seq<Seq<char>>, Seq<char>),
>
    decreases i,
{
    if i <= 0 {
        Seq::empty()
    } else {
        containers_full_upto(lines, i - 1) + (match line_container_full(lines[i - 1]) {
            Some(c) => seq![c],
            None => Seq::empty(),
        })
    }
}

/// The full records a container table yields.
pub open spec fn spec_containers_full(s: Seq<char>) -> Seq<
    (Seq<char>, Seq<char>, Seq<char>, Seq<char>, Seq<char>, Seq<Seq<char>>, Seq<char>),
> {
    containers_full_upto(spec_lines(s), spec_lines(s).len() as int)
}

/// What each parsed full container record says.
pub open spec fn containers_full_view(cs: Seq<DockerContainerFull>) -> Seq<
    (Seq<char>, Seq<char>, Seq<char>, Seq<char>, Seq<char>, Seq<Seq<char>>, Seq<char>),
>
    decreases cs.len(),
{
    if cs.len() == 0 {
        Seq::empty()
    } else {
        containers_full_view(cs.drop_last()) + seq![
            (
                cs.last().id@,
                cs.last().name@,
                cs.last().image@,
                cs.last().status@,
                cs.last().state@,
                cs.last().ports.deep_view(),
                cs.last().created@,
            ),
        ]
    }
}

/// Keeps the non-empty fields of a split column, in order.
fn keep_nonempty(parts: Vec<String>) -> (r: Vec<String>)
    ensures
        r.deep_view() == parts.deep_view().filter(|p: Seq<char>| p.len() > 0),
{
    let mut out: Vec<String> = Vec::new();
    let mut i: usize = 0;
    while i < parts.len()
        invariant
            i <= parts@.len(),
            out.deep_view() == parts.deep_view().subrange(0, i as int).filter(
                |p: Seq<char>| p.len() > 0,
            ),
        decreases parts@.len() - i,
    {
        proof {
            assert(parts.deep_view().subrange(0, i as int + 1).drop_last() =~= parts.deep_view(
            ).subrange(0, i as int));
            assert(parts.deep_view().subrange(0, i as int + 1).last() == parts.deep_view()[
                i as int
            ]);
            reveal_with_fuel(Seq::filter, 2);
            assert(parts.deep_view()[i as int] == parts@[i as int]@);
        }
        if parts[i].as_str().unicode_len() > 0 {
            let ghost prev = out.deep_view();
            out.push(parts[i].clone());
            proof {
                assert(out.deep_view() =~= prev.push(parts@[i as int]@));
            }
        }
        i = i + 1;
    }
    proof {
        assert(parts.deep_view().subrange(0, parts.deep_view().len() as int) =~= parts.deep_view(
        ));
    }
    out
}

/// Reads the full container table: every non-empty line with its seven
/// fields becomes a record — the state lower-cased and the ports column
/// split apart — and a short line is skipped.
pub fn parse_docker_containers(s: &str) -> (r: Vec<DockerContainerFull>)
    ensures
        containers_full_view(r@) == spec_containers_full(s@),
{
    let lines = crate::text::split_lines(s);
    let mut out: Vec<DockerContainerFull> = Vec::new();
    let mut i: usize = 0;
    while i < lines.len()
        invariant
            i <= lines@.len(),
            lines.deep_view() == spec_lines(s@),
            containers_full_view(out@) == containers_full_upto(lines.deep_view(), i as int),
        decreases lines@.len() - i,
    {
        proof {
            assert(lines.deep_view()[i as int] == lines@[i as int]@);
        }
        if lines[i].as_str().unicode_len() > 0 {
            let parts = crate::text::splitn_char(lines[i].as_str(), 7, '|');
            if parts.len() >= 7 {
                proof {
                    assert(parts.deep_view()[0] == parts@[0]@);
                    assert(parts.deep_view()[1] == parts@[1]@);
                    assert(parts.deep_view()[2] == parts@[2]@);
                    assert(parts.deep_view()[3] == parts@[3]@);
                    assert(parts.deep_view()[4] == parts@[4]@);
                    assert(parts.deep_view()[5] == parts@[5]@);
                    assert(parts.deep_view()[6] == parts@[6]@);
                }
                proof {
                    reveal_strlit(", ");
                }
                let ports_split = split_seq(parts[5].as_str(), ", ");
                let ports = keep_nonempty(ports_split);
                let ghost prev = out@;
                out.push(
                    DockerContainerFull {
                        id: parts[0].clone(),
                        name: parts[1].clone(),
                        image: parts[2].clone(),
                        status: parts[3].clone(),
                        state: crate::sshconfig::ascii_lower(parts[4].as_str()),
                        ports,
                        created: parts[6].clone(),
                    },
                );
                proof {
                    assert(out@.drop_last() =~= prev);
                    assert(containers_full_view(out@) =~= containers_full_view(prev) + seq![
                        (
                            parts.deep_view()[0],
                            parts.deep_view()[1],
                            parts.deep_view()[2],
                            parts.deep_view()[3],
                            spec_lower(parts.deep_view()[4]),
                            ports_of(parts.deep_view()[5]),
                            parts.deep_view()[6],
                        ),
                    ]);
                }
            }
        }
        proof {
            assert(containers_full_view(out@) =~= containers_full_upto(
                lines.deep_view(),
                i as int + 1,
            ));
        }
        i = i + 1;
    }
    proof {
        assert(lines.deep_view().len() == spec_lines(s@).len());
    }
    out
}

/// The image record one image-table line contributes, where it has all five
/// pipe-separated fields.
pub open spec fn line_image(line: Seq<char>) -> Option<
    (Seq<char>, Seq<char>, Seq<char>, Seq<char>, Seq<char>),
> {
    if line.len() == 0 {
        None
    } else {
        let parts = spec_splitn_char(line, 5, '|');
        if parts.len() >= 5 {
            Some((parts[0], parts[1], parts[2], parts[3], parts[4]))
        } else {
            None
        }
    }
}

/// The image records of the first `i` lines.
pub open spec fn images_upto(lines: Seq<Seq<char>>, i: int) -> Seq<
    (Seq<char>, Seq<char>, Seq<char>, Seq<char>, Seq<char>),
>
    decreases i,
{
    if i <= 0 {
        Seq::empty()
    } else {
        images_upto(lines, i - 1) + (match line_image(lines[i - 1]) {
            Some(c) => seq![c],
            None => Seq::empty(),
        })
    }
}

/// The image records an image table yields.
pub open spec fn spec_images(s: Seq<char>) -> Seq<
    (Seq<char>, Seq<char>, Seq<char>, Seq<char>, Seq<char>),
> {
    images_upto(spec_lines(s), spec_lines(s).len() as int)
}

/// What each parsed image record says.
pub open spec fn images_view(is: Seq<DockerImage>) -> Seq<
    (Seq<char>, Seq<char>, Seq<char>, Seq<char>, Seq<char>),
>
    decreases is.len(),
{
    if is.len() == 0 {
        Seq::empty()
    } else {
        images_view(is.drop_last()) + seq![
            (
                is.last().id@,
                is.last().repository@,
                is.last().tag@,
                is.last().size@,
                is.last().created@,
            ),
        ]
    }
}

/// Reads the image table: every non-empty line with its five fields becomes
/// a record.
pub fn parse_docker_images(s: &str) -> (r: Vec<DockerImage>)
    ensures
        images_view(r@) == spec_images(s@),
{
    let lines = crate::text::split_lines(s);
    let mut out: Vec<DockerImage> = Vec::new();
    let mut i: usize = 0;
    while i < lines.len()
        invariant
            i <= lines@.len(),
            lines.deep_view() == spec_lines(s@),
            images_view(out@) == images_upto(lines.deep_view(), i as int),
        decreases lines@.len() - i,
    {
        proof {
            assert(lines.deep_view()[i as int] == lines@[i as int]@);
        }
        if lines[i].as_str().unicode_len() > 0 {
            let parts = crate::text::splitn_char(lines[i].as_str(), 5, '|');
            if parts.len() >= 5 {
                proof {
                    assert(parts.deep_view()[0] == parts@[0]@);
                    assert(parts.deep_view()[1] == parts@[1]@);
                    assert(parts.deep_view()[2] == parts@[2]@);
                    assert(parts.deep_view()[3] == parts@[3]@);
                    assert(parts.deep_view()[4] == parts@[4]@);
                }
                let ghost prev = out@;
                out.push(
                    DockerImage {
                        id: parts[0].clone(),
                        repository: parts[1].clone(),
                        tag: parts[2].clone(),
                        size: parts[3].clone(),
                        created: parts[4].clone(),
                    },
                );
                proof {
                    assert(out@.drop_last() =~= prev);
                    assert(images_view(out@) =~= images_view(prev) + seq![
                        (
                            parts.deep_view()[0],
                            parts.deep_view()[1],
                            parts.deep_view()[2],
                            parts.deep_view()[3],
                            parts.deep_view()[4],
                        ),
                    ]);
                }
            }
        }
        proof {
            assert(images_view(out@) =~= images_upto(lines.deep_view(), i as int + 1));
        }
        i = i + 1;
    }
    proof {
        assert(lines.deep_view().len() == spec_lines(s@).len());
    }
    out
}

/// The volume record one volume-table line contributes, where it has at
/// least the name and driver fields; a missing mountpoint is empty.
pub open spec fn line_volume(line: Seq<char>) -> Option<(Seq<char>, Seq<char>, Seq<char>)> {
    if line.len() == 0 {
        None
    } else {
        let parts = spec_splitn_char(line, 3, '|');
        if parts.len() >= 2 {
            Some((parts[0], parts[1], field_or_empty(parts, 2)))
        } else {
            None
        }
    }
}

/// The volume records of the first `i` lines.
pub open spec fn volumes_upto(lines: Seq<Seq<char>>, i: int) -> Seq<
    (Seq<char>, Seq<char>, Seq<char>),
>
    decreases i,
{
    if i <= 0 {
        Seq::empty()
    } else {
        volumes_upto(lines, i - 1) + (match line_volume(lines[i - 1]) {
            Some(c) => seq![c],
            None => Seq::empty(),
        })
    }
}

/// The volume records a volume table yields.
pub open spec fn spec_volumes(s: Seq<char>) -> Seq<(Seq<char>, Seq<char>, Seq<char>)> {
    volumes_upto(spec_lines(s), spec_lines(s).len() as int)
}

/// What each parsed volume record says.
pub open spec fn volumes_view(vs: Seq<DockerVolume>) -> Seq<(Seq<char>, Seq<char>, Seq<char>)>
    decreases vs.len(),
{
    if vs.len() == 0 {
        Seq::empty()
    } else {
        volumes_view(vs.drop_last()) + seq![
            (vs.last().name@, vs.last().driver@, vs.last().mountpoint@),
        ]
    }
}

/// Reads the volume table: every non-empty line with at least two fields
/// becomes a record, the mountpoint empty where the third is missing.
pub fn parse_docker_volumes(s: &str) -> (r: Vec<DockerVolume>)
    ensures
        volumes_view(r@) == spec_volumes(s@),
{
    let lines = crate::text::split_lines(s);
    let mut out: Vec<DockerVolume> = Vec::new();
    let mut i: usize = 0;
    while i < lines.len()
        invariant
            i <= lines@.len(),
            lines.deep_view() == spec_lines(s@),
            volumes_view(out@) == volumes_upto(lines.deep_view(), i as int),
        decreases lines@.len() - i,
    {
        proof {
            assert(lines.deep_view()[i as int] == lines@[i as int]@);
        }
        if lines[i].as_str().unicode_len() > 0 {
            let parts = crate::text::splitn_char(lines[i].as_str(), 3, '|');
            if parts.len() >= 2 {
                proof {
                    assert(parts.deep_view()[0] == parts@[0]@);
                    assert(parts.deep_view()[1] == parts@[1]@);
                    if parts@.len() > 2 {
                        assert(parts.deep_view()[2] == parts@[2]@);
                    }
                }
                let mountpoint = if parts.len() > 2 {
                    parts[2].clone()
                } else {
                    String::new()
                };
                let ghost prev = out@;
                out.push(
                    DockerVolume { name: parts[0].clone(), driver: parts[1].clone(), mountpoint },
                );
                proof {
                    assert(out@.drop_last() =~= prev);
                    assert(volumes_view(out@) =~= volumes_view(prev) + seq![
                        (
                            parts.deep_view()[0],
                            parts.deep_view()[1],
                            field_or_empty(parts.deep_view(), 2),
                        ),
                    ]);
                }
            }
        }
        proof {
            assert(volumes_view(out@) =~= volumes_upto(lines.deep_view(), i as int + 1));
        }
        i = i + 1;
    }
    proof {
        assert(lines.deep_view().len() == spec_lines(s@).len());
    }
    out
}

} // verus!
