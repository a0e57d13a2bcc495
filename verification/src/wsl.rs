//! Reading the distribution listing that `wsl.exe --list --quiet` prints.
//!
//! The listing arrives as UTF-16LE bytes, sometimes behind a byte-order
//! mark; the pairing of bytes into code units and the filtering of the
//! decoded lines stand here.  Running the command, and the lossy decoding
//! itself, happen at the edge.

use vstd::prelude::*;

use crate::text::{contains_seq, spec_lines, spec_trim};

verus! {

broadcast use vstd::string::group_string_axioms;

/// The little-endian code units of a byte listing, an odd trailing byte
/// dropped.
pub open spec fn u16_units(bytes: Seq<u8>) -> Seq<u16>
    decreases bytes.len(),
{
    if bytes.len() < 2 {
        Seq::empty()
    } else {
        seq![(bytes[0] + bytes[1] * 256) as u16] + u16_units(
            bytes.subrange(2, bytes.len() as int),
        )
    }
}

/// The code units of the listing: a leading byte-order mark is dropped,
/// everything else is paired little-endian.
pub open spec fn spec_distro_units(bytes: Seq<u8>) -> Seq<u16> {
    if bytes.len() >= 2 && bytes[0] == 0xff && bytes[1] == 0xfe {
        u16_units(bytes.subrange(2, bytes.len() as int))
    } else {
        u16_units(bytes)
    }
}

/// Pairs the listing's bytes into code units from position `i` on.
fn units_from(bytes: &[u8], i: usize) -> (r: Vec<u16>)
    requires
        i <= bytes@.len(),
    ensures
        r@ == u16_units(bytes@.subrange(i as int, bytes@.len() as int)),
    decreases bytes@.len() - i,
{
    let n = bytes.len();
    if n < 2 || i > n - 2 {
        let r: Vec<u16> = Vec::new();
        proof {
            assert(bytes@.subrange(i as int, bytes@.len() as int).len() < 2);
        }
        r
    } else {
        let lo = bytes[i];
        let hi = bytes[i + 1];
        let unit: u16 = (lo as u16) + (hi as u16) * 256;
        let mut rest = units_from(bytes, i + 2);
        let ghost before = rest@;
        rest.insert(0, unit);
        proof {
            let t = bytes@.subrange(i as int, bytes@.len() as int);
            assert(t[0] == bytes@[i as int]);
            assert(t[1] == bytes@[i as int + 1]);
            assert(t.subrange(2, t.len() as int) =~= bytes@.subrange(
                i as int + 2,
                bytes@.len() as int,
            ));
            assert(rest@ =~= seq![unit] + before);
            assert(rest@ =~= u16_units(t));
        }
        rest
    }
}

/// Pairs the listing's bytes into code units, dropping a leading byte-order
/// mark.
pub fn wsl_output_units(bytes: &[u8]) -> (r: Vec<u16>)
    ensures
        r@ == spec_distro_units(bytes@),
{
    if bytes.len() >= 2 && bytes[0] == 0xff && bytes[1] == 0xfe {
        units_from(bytes, 2)
    } else {
        let r = units_from(bytes, 0);
        proof {
            assert(bytes@.subrange(0, bytes@.len() as int) =~= bytes@);
        }
        r
    }
}

/// What the lossy UTF-16 decoding of the code units reads; it depends on
/// the units alone.  Invalid surrogates are replaced, never rejected.
pub uninterp spec fn utf16_lossy(units: Seq<u16>) -> Seq<char>;

/// Relies on `String::from_utf16_lossy`: the decoding is a function of the
/// code units alone, and no units decode to no text.
#[verifier::external_body]
pub fn utf16_lossy_string(units: &Vec<u16>) -> (r: String)
    ensures
        r@ == utf16_lossy(units@),
        units@.len() == 0 ==> r@.len() == 0,
{
    String::from_utf16_lossy(units.as_slice())
}

/// The text with every NUL character removed, from `i` on.
pub open spec fn drop_nul_from(s: Seq<char>, i: int) -> Seq<char>
    decreases s.len() - i,
{
    if i < 0 || i >= s.len() {
        Seq::empty()
    } else if s[i] == '\u{0}' {
        drop_nul_from(s, i + 1)
    } else {
        seq![s[i]] + drop_nul_from(s, i + 1)
    }
}

/// The text with every NUL character removed.
pub open spec fn drop_nul(s: Seq<char>) -> Seq<char> {
    drop_nul_from(s, 0)
}

/// Appends the text from `i` on, NUL characters removed.
fn push_without_nul(out: &mut Vec<char>, s: &str, i: usize)
    requires
        i <= s@.len(),
    ensures
        final(out)@ == old(out)@ + drop_nul_from(s@, i as int),
    decreases s@.len() - i,
{
    if i < s.unicode_len() {
        let c = s.get_char(i);
        if c != '\u{0}' {
            out.push(c);
        }
        push_without_nul(out, s, i + 1);
        proof {
            assert(final(out)@ =~= old(out)@ + drop_nul_from(s@, i as int));
        }
    }
}

/// The name one listing line contributes: the line trimmed and its NUL
/// characters removed, kept where it is neither empty nor the Docker
/// backend's internal distribution.
pub open spec fn line_distro(line: Seq<char>) -> Option<Seq<char>> {
    let name = drop_nul(spec_trim(line));
    if name.len() > 0 && !contains_seq(name, "docker-desktop"@) {
        Some(name)
    } else {
        None
    }
}

/// The names of the first `i` listing lines.
pub open spec fn distros_upto(lines: Seq<Seq<char>>, i: int) -> Seq<Seq<char>>
    decreases i,
{
    if i <= 0 {
        Seq::empty()
    } else {
        distros_upto(lines, i - 1) + (match line_distro(lines[i - 1]) {
            Some(d) => seq![d],
            None => Seq::empty(),
        })
    }
}

/// The names a whole decoded listing yields.
pub open spec fn spec_distros(s: Seq<char>) -> Seq<Seq<char>> {
    distros_upto(spec_lines(s), spec_lines(s).len() as int)
}

/// Reads the decoded listing into distribution names: each line trimmed and
/// cleared of NUL characters, empty lines and the Docker backend's internal
/// distribution dropped.
pub fn parse_distro_list(s: &str) -> (r: Vec<String>)
    ensures
        r.deep_view() == spec_distros(s@),
{
    let lines = crate::text::split_lines(s);
    let mut out: Vec<String> = Vec::new();
    let mut i: usize = 0;
    while i < lines.len()
        invariant
            i <= lines@.len(),
            lines.deep_view() == spec_lines(s@),
            out.deep_view() == distros_upto(lines.deep_view(), i as int),
        decreases lines@.len() - i,
    {
        proof {
            assert(lines.deep_view()[i as int] == lines@[i as int]@);
        }
        let t = crate::text::trim(lines[i].as_str());
        let mut cleaned: Vec<char> = Vec::new();
        push_without_nul(&mut cleaned, t.as_str(), 0);
        let name = crate::json_text::chars_to_string(&cleaned);
        if name.as_str().unicode_len() > 0 && !crate::text::contains_str(
            name.as_str(),
            "docker-desktop",
        ) {
            let ghost prev = out.deep_view();
            out.push(name);
            proof {
                assert(out.deep_view() =~= prev.push(drop_nul(spec_trim(
                    lines.deep_view()[i as int],
                ))));
                assert(out.deep_view() =~= distros_upto(lines.deep_view(), i as int + 1));
            }
        } else {
            proof {
                assert(out.deep_view() =~= distros_upto(lines.deep_view(), i as int + 1));
            }
        }
        i = i + 1;
    }
    proof {
        assert(lines.deep_view().len() == spec_lines(s@).len());
    }
    out
}

} // verus!
