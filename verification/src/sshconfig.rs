//! Reading an OpenSSH client configuration into its host entries.
//!
//! Reading the file itself, and finding it, happen at the process edge;
//! this parser takes the file's text and the home directory — for expanding
//! a tilde in an identity-file path — as plain values.  Entries are built
//! host block by host block; a block whose name holds a wildcard is for
//! matching, not connecting, and is left out.

use vstd::prelude::*;

use crate::text::{
    contains_char, find_ws_in, spec_lines, spec_parse_uint, spec_trim,
};

verus! {

/// One concrete host entry of the configuration.
pub struct SSHConfigHost {
    pub name: String,
    pub host: String,
    pub user: Option<String>,
    pub port: u16,
    pub identity_file: Option<String>,
}

/// What one entry says: name, host, user, port and identity file.
pub open spec fn host_view(h: SSHConfigHost) -> (
    Seq<char>,
    Seq<char>,
    Option<Seq<char>>,
    int,
    Option<Seq<char>>,
) {
    (h.name@, h.host@, crate::mcp::types::opt_view(h.user), h.port as int, crate::mcp::types::opt_view(
        h.identity_file,
    ))
}

/// What a list of entries says, in order.
pub open spec fn hosts_view(hs: Seq<SSHConfigHost>) -> Seq<
    (Seq<char>, Seq<char>, Option<Seq<char>>, int, Option<Seq<char>>),
>
    decreases hs.len(),
{
    if hs.len() == 0 {
        Seq::empty()
    } else {
        hosts_view(hs.drop_last()) + seq![host_view(hs.last())]
    }
}

/// A lower-cased ASCII letter; anything else stays itself.  The keywords
/// this parser matches are ASCII, and the configuration format reads them
/// without regard to case.
pub open spec fn lower_char(c: char) -> char {
    if c == 'A' {
        'a'
    } else if c == 'B' {
        'b'
    } else if c == 'C' {
        'c'
    } else if c == 'D' {
        'd'
    } else if c == 'E' {
        'e'
    } else if c == 'F' {
        'f'
    } else if c == 'G' {
        'g'
    } else if c == 'H' {
        'h'
    } else if c == 'I' {
        'i'
    } else if c == 'J' {
        'j'
    } else if c == 'K' {
        'k'
    } else if c == 'L' {
        'l'
    } else if c == 'M' {
        'm'
    } else if c == 'N' {
        'n'
    } else if c == 'O' {
        'o'
    } else if c == 'P' {
        'p'
    } else if c == 'Q' {
        'q'
    } else if c == 'R' {
        'r'
    } else if c == 'S' {
        's'
    } else if c == 'T' {
        't'
    } else if c == 'U' {
        'u'
    } else if c == 'V' {
        'v'
    } else if c == 'W' {
        'w'
    } else if c == 'X' {
        'x'
    } else if c == 'Y' {
        'y'
    } else if c == 'Z' {
        'z'
    } else {
        c
    }
}

/// The text with its ASCII letters lower-cased, from `i` on.
pub open spec fn lower_from(s: Seq<char>, i: int) -> Seq<char>
    decreases s.len() - i,
{
    if i < 0 || i >= s.len() {
        Seq::empty()
    } else {
        seq![lower_char(s[i])] + lower_from(s, i + 1)
    }
}

/// The text with its ASCII letters lower-cased.
pub open spec fn spec_lower(s: Seq<char>) -> Seq<char> {
    lower_from(s, 0)
}

/// Appends the text from `i` on, lower-cased.
fn push_lower_from(out: &mut Vec<char>, s: &str, i: usize)
    requires
        i <= s@.len(),
    ensures
        final(out)@ == old(out)@ + lower_from(s@, i as int),
    decreases s@.len() - i,
{
    if i < s.unicode_len() {
        let c = s.get_char(i);
        let l = if c == 'A' {
            'a'
        } else if c == 'B' {
            'b'
        } else if c == 'C' {
            'c'
        } else if c == 'D' {
            'd'
        } else if c == 'E' {
            'e'
        } else if c == 'F' {
            'f'
        } else if c == 'G' {
            'g'
        } else if c == 'H' {
            'h'
        } else if c == 'I' {
            'i'
        } else if c == 'J' {
            'j'
        } else if c == 'K' {
            'k'
        } else if c == 'L' {
            'l'
        } else if c == 'M' {
            'm'
        } else if c == 'N' {
            'n'
        } else if c == 'O' {
            'o'
        } else if c == 'P' {
            'p'
        } else if c == 'Q' {
            'q'
        } else if c == 'R' {
            'r'
        } else if c == 'S' {
            's'
        } else if c == 'T' {
            't'
        } else if c == 'U' {
            'u'
        } else if c == 'V' {
            'v'
        } else if c == 'W' {
            'w'
        } else if c == 'X' {
            'x'
        } else if c == 'Y' {
            'y'
        } else if c == 'Z' {
            'z'
        } else {
            c
        };
        out.push(l);
        push_lower_from(out, s, i + 1);
        proof {
            assert(final(out)@ =~= old(out)@ + lower_from(s@, i as int));
        }
    }
}

/// The text lower-cased, ASCII letters only.
pub fn ascii_lower(s: &str) -> (r: String)
    ensures
        r@ == spec_lower(s@),
{
    let mut out: Vec<char> = Vec::new();
    push_lower_from(&mut out, s, 0);
    crate::json_text::chars_to_string(&out)
}

/// A host pattern rather than a concrete name: it holds a wildcard.
pub open spec fn is_wildcard(name: Seq<char>) -> bool {
    contains_char(name, '*') || contains_char(name, '?')
}

/// The fresh entry a `Host` keyword opens: named after its value, reaching
/// the same value until a `HostName` overrides it, on the default port.
pub open spec fn fresh_host(value: Seq<char>) -> (
    Seq<char>,
    Seq<char>,
    Option<Seq<char>>,
    int,
    Option<Seq<char>>,
) {
    (value, value, None, 22, None)
}

/// The identity-file value with a leading tilde expanded against the home
/// directory, where one is known.
pub open spec fn identity_value(value: Seq<char>, home: Option<Seq<char>>) -> Seq<char> {
    if value.len() >= 2 && value[0] == '~' && value[1] == '/' {
        match home {
            Some(h) => h + value.subrange(1, value.len() as int),
            None => value,
        }
    } else {
        value
    }
}

/// Expands a leading `~/` in an identity-file value against the home
/// directory, where one is known; anything else stays as it is.
fn expand_identity(value: String, home: &Option<String>) -> (r: String)
    ensures
        r@ == identity_value(value@, crate::mcp::types::opt_view(*home)),
{
    let vn = value.as_str().unicode_len();
    if vn >= 2 && value.as_str().get_char(0) == '~' && value.as_str().get_char(1) == '/' {
        match home {
            Some(hd) => {
                let mut e = hd.clone();
                e.append(value.as_str().substring_char(1, vn));
                e
            },
            None => value,
        }
    } else {
        value
    }
}

/// The parser's state: the host block being read, if any, and the entries
/// already closed.
pub open spec fn ssh_step(
    state: (
        Option<(Seq<char>, Seq<char>, Option<Seq<char>>, int, Option<Seq<char>>)>,
        Seq<(Seq<char>, Seq<char>, Option<Seq<char>>, int, Option<Seq<char>>)>,
    ),
    line: Seq<char>,
    home: Option<Seq<char>>,
) -> (
    Option<(Seq<char>, Seq<char>, Option<Seq<char>>, int, Option<Seq<char>>)>,
    Seq<(Seq<char>, Seq<char>, Option<Seq<char>>, int, Option<Seq<char>>)>,
) {
    let t = spec_trim(line);
    if t.len() == 0 || t[0] == '#' {
        state
    } else {
        let k_end = find_ws_in(t, 0);
        if k_end >= t.len() {
            state
        } else {
            let key = spec_lower(t.subrange(0, k_end));
            let value = spec_trim(t.subrange(k_end + 1, t.len() as int));
            if key == "host"@ {
                let closed = match state.0 {
                    Some(h) => if !is_wildcard(h.0) {
                        state.1 + seq![h]
                    } else {
                        state.1
                    },
                    None => state.1,
                };
                (Some(fresh_host(value)), closed)
            } else if key == "hostname"@ {
                match state.0 {
                    Some(h) => (Some((h.0, value, h.2, h.3, h.4)), state.1),
                    None => state,
                }
            } else if key == "user"@ {
                match state.0 {
                    Some(h) => (Some((h.0, h.1, Some(value), h.3, h.4)), state.1),
                    None => state,
                }
            } else if key == "port"@ {
                match state.0 {
                    Some(h) => (
                        Some(
                            (
                                h.0,
                                h.1,
                                h.2,
                                match spec_parse_uint(value, u16::MAX as int) {
                                    Some(v) => v,
                                    None => 22,
                                },
                                h.4,
                            ),
                        ),
                        state.1,
                    ),
                    None => state,
                }
            } else if key == "identityfile"@ {
                match state.0 {
                    Some(h) => (
                        Some((h.0, h.1, h.2, h.3, Some(identity_value(value, home)))),
                        state.1,
                    ),
                    None => state,
                }
            } else {
                state
            }
        }
    }
}

/// The parser's state after the first `i` lines.
pub open spec fn ssh_state_upto(
    lines: Seq<Seq<char>>,
    i: int,
    home: Option<Seq<char>>,
) -> (
    Option<(Seq<char>, Seq<char>, Option<Seq<char>>, int, Option<Seq<char>>)>,
    Seq<(Seq<char>, Seq<char>, Option<Seq<char>>, int, Option<Seq<char>>)>,
)
    decreases i,
{
    if i <= 0 {
        (None, Seq::empty())
    } else {
        ssh_step(ssh_state_upto(lines, i - 1, home), lines[i - 1], home)
    }
}

/// The entries a whole configuration text yields: every closed block, and
/// the block still open at the end, wildcards left out.
pub open spec fn spec_ssh_hosts(s: Seq<char>, home: Option<Seq<char>>) -> Seq<
    (Seq<char>, Seq<char>, Option<Seq<char>>, int, Option<Seq<char>>),
> {
    let st = ssh_state_upto(spec_lines(s), spec_lines(s).len() as int, home);
    match st.0 {
        Some(h) => if !is_wildcard(h.0) {
            st.1 + seq![h]
        } else {
            st.1
        },
        None => st.1,
    }
}

/// Reads a configuration text into its concrete host entries: each `Host`
/// block contributes one entry with its name, reached host, user, port and
/// identity file — the tilde expanded against `home` — and a block whose
/// name holds a wildcard is left out.
pub fn parse_ssh_config_text(s: &str, home: &Option<String>) -> (r: Vec<SSHConfigHost>)
    ensures
        hosts_view(r@) == spec_ssh_hosts(s@, crate::mcp::types::opt_view(*home)),
{
    let ghost ghome: Option<Seq<char>> = crate::mcp::types::opt_view(*home);
    let lines = crate::text::split_lines(s);
    let mut hosts: Vec<SSHConfigHost> = Vec::new();
    let mut current: Option<SSHConfigHost> = None;
    let mut i: usize = 0;
    while i < lines.len()
        invariant
            i <= lines@.len(),
            lines.deep_view() == spec_lines(s@),
            ghome == crate::mcp::types::opt_view(*home),
            ({
                let st = ssh_state_upto(lines.deep_view(), i as int, ghome);
                &&& (match current {
                    Some(c) => st.0 == Some(host_view(c)),
                    None => st.0 is None,
                })
                &&& hosts_view(hosts@) == st.1
            }),
        decreases lines@.len() - i,
    {
        proof {
            assert(lines.deep_view()[i as int] == lines@[i as int]@);
        }
        let t = crate::text::trim(lines[i].as_str());
        let n = t.as_str().unicode_len();
        if n == 0 || t.as_str().get_char(0) == '#' {
        } else {
            let k_end = crate::text::find_ws_in_exec(t.as_str(), 0);
            if k_end == n {
            } else {
                let key = ascii_lower(t.as_str().substring_char(0, k_end));
                let value = crate::text::trim(t.as_str().substring_char(k_end + 1, n));
                if crate::text::str_eq(key.as_str(), "host") {
                    match &current {
                        Some(h) => {
                            if !crate::text::contains_char_exec(h.name.as_str(), '*')
                                && !crate::text::contains_char_exec(h.name.as_str(), '?') {
                                let ghost prev = hosts@;
                                let closed = SSHConfigHost {
                                    name: h.name.clone(),
                                    host: h.host.clone(),
                                    user: match &h.user {
                                        Some(u) => Some(u.clone()),
                                        None => None,
                                    },
                                    port: h.port,
                                    identity_file: match &h.identity_file {
                                        Some(f) => Some(f.clone()),
                                        None => None,
                                    },
                                };
                                hosts.push(closed);
                                proof {
                                    assert(hosts@.drop_last() =~= prev);
                                    assert(hosts_view(hosts@) =~= hosts_view(prev) + seq![
                                        host_view(hosts@.last()),
                                    ]);
                                }
                            }
                        },
                        None => {},
                    }
                    current = Some(
                        SSHConfigHost {
                            name: value.clone(),
                            host: value,
                            user: None,
                            port: 22,
                            identity_file: None,
                        },
                    );
                } else if crate::text::str_eq(key.as_str(), "hostname") {
                    current = match current {
                        Some(h) => Some(SSHConfigHost { host: value, ..h }),
                        None => None,
                    };
                } else if crate::text::str_eq(key.as_str(), "user") {
                    current = match current {
                        Some(h) => Some(SSHConfigHost { user: Some(value), ..h }),
                        None => None,
                    };
                } else if crate::text::str_eq(key.as_str(), "port") {
                    let p: u16 = match crate::text::parse_uint(value.as_str(), 65535) {
                        Some(v) => v as u16,
                        None => 22,
                    };
                    current = match current {
                        Some(h) => Some(SSHConfigHost { port: p, ..h }),
                        None => None,
                    };
                } else if crate::text::str_eq(key.as_str(), "identityfile") {
                    let expanded = expand_identity(value, home);
                    current = match current {
                        Some(h) => Some(SSHConfigHost { identity_file: Some(expanded), ..h }),
                        None => None,
                    };
                }
            }
        }
        proof {
            let st = ssh_state_upto(lines.deep_view(), i as int + 1, ghome);
            assert(st == ssh_step(
                ssh_state_upto(lines.deep_view(), i as int, ghome),
                lines.deep_view()[i as int],
                ghome,
            ));
            assert(hosts_view(hosts@) == st.1);
            assert(match current {
                Some(c) => st.0 == Some(host_view(c)),
                None => st.0 is None,
            });
        }
        i = i + 1;
    }
    match &current {
        Some(h) => {
            if !crate::text::contains_char_exec(h.name.as_str(), '*')
                && !crate::text::contains_char_exec(h.name.as_str(), '?') {
                let ghost prev = hosts@;
                let closed = SSHConfigHost {
                    name: h.name.clone(),
                    host: h.host.clone(),
                    user: match &h.user {
                        Some(u) => Some(u.clone()),
                        None => None,
                    },
                    port: h.port,
                    identity_file: match &h.identity_file {
                        Some(f) => Some(f.clone()),
                        None => None,
                    },
                };
                hosts.push(closed);
                proof {
                    assert(hosts@.drop_last() =~= prev);
                    assert(hosts_view(hosts@) =~= hosts_view(prev) + seq![
                        host_view(hosts@.last()),
                    ]);
                }
            }
        },
        None => {},
    }
    proof {
        assert(lines.deep_view().len() == spec_lines(s@).len());
    }
    hosts
}

} // verus!
